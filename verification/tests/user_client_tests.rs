use table_query::errors::TableError;
use table_query::json::{assemble_envelope, decode_envelope};
use table_query::query::Method;
use table_query::strutil::u32_to_string;
use table_query::user_client::{CosmosClient, DatabaseClient, UserClient};

fn user_client() -> UserClient {
    let cosmos = CosmosClient::new("acc".to_string());
    let database = DatabaseClient::new(cosmos, "db".to_string());
    UserClient::new(database, "alice".to_string())
}

#[test]
fn getters_return_the_names() {
    let client = user_client();
    assert_eq!(client.user_name(), "alice");
    assert_eq!(client.database_client().database_name(), "db");
    assert_eq!(client.cosmos_client().account(), "acc");
}

#[test]
fn user_path_is_composed() {
    let req = user_client().prepare_request_with_user_name(Method::Get);
    assert_eq!(req.path, "dbs/db/users/alice");
    assert_eq!(req.method, Method::Get);
    assert_eq!(req.user_body, None);
}

#[test]
fn replace_user_carries_the_new_name() {
    let req = user_client().replace_user_request("bob");
    assert_eq!(req.method, Method::Put);
    assert_eq!(req.path, "dbs/db/users/alice");
    assert_eq!(req.user_body.as_deref(), Some("bob"));
}

#[test]
fn create_user_posts_to_the_collection() {
    let req = user_client().create_user().request();
    assert_eq!(req.method, Method::Post);
    assert_eq!(req.path, "dbs/db/users");
    assert_eq!(req.user_body.as_deref(), Some("alice"));
}

#[test]
fn get_and_delete_use_the_user_path() {
    let get = user_client().get_user().request();
    assert_eq!(get.method, Method::Get);
    assert_eq!(get.path, "dbs/db/users/alice");
    let delete = user_client().delete_user().request();
    assert_eq!(delete.method, Method::Delete);
    assert_eq!(delete.path, "dbs/db/users/alice");
}

#[test]
fn list_permissions_uses_the_permissions_path() {
    let req = user_client().list_permissions().request();
    assert_eq!(req.method, Method::Get);
    assert_eq!(req.path, "dbs/db/users/alice/permissions");
}

#[test]
fn permission_client_keeps_the_name() {
    let permission = user_client().into_permission_client("read".to_string());
    assert_eq!(permission.permission_name(), "read");
}

#[test]
fn decimal_rendering() {
    assert_eq!(u32_to_string(0), "0");
    assert_eq!(u32_to_string(7), "7");
    assert_eq!(u32_to_string(42), "42");
    assert_eq!(u32_to_string(1000), "1000");
}

#[test]
fn envelope_assembly_rules() {
    let ok = assemble_envelope(Some("m".to_string()), None).unwrap();
    assert_eq!(ok.metadata, "m");
    assert!(ok.entities.is_empty());
    assert_eq!(
        assemble_envelope(None, Some(Some(Vec::new()))).unwrap_err(),
        TableError::Decode
    );
    assert_eq!(
        assemble_envelope(Some("m".to_string()), Some(None)).unwrap_err(),
        TableError::Decode
    );
}

#[test]
fn envelope_decoding_reads_the_body() {
    // Would fail if the JSON reader handed its input back unchanged.
    let env = decode_envelope(br#"  {"value": [1, 2, 3], "odata.metadata": "meta"}  "#).unwrap();
    assert_eq!(env.metadata, "meta");
    assert_eq!(env.entities.len(), 3);
    assert_eq!(env.entities[2], serde_json::Value::from(3));
    assert_eq!(decode_envelope(b"[1,2]").unwrap_err(), TableError::Decode);
}

#[test]
fn error_messages_name_their_kind() {
    assert_eq!(TableError::InvalidUrl.message(), "invalid table URL");
    assert!(TableError::Status(500).message().contains("status"));
    assert!(TableError::Decode.message().contains("shape"));
}
