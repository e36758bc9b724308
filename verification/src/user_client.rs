//! A client for user resources of the document-storage service.
//!
//! The client composes the request for each user operation as plain values —
//! method, resource path, optional body payload — and hands it to the
//! hosting transport.  The resource path is `dbs/{database}/users/{user}`.
use vstd::prelude::*;
use vstd::string::StringExecFns;
use crate::headers::opt_view;
use crate::query::Method;

verus! {

/// One request against the document-storage service, as plain values: the
/// method, the resource path relative to the account's base URL, and the
/// user-id body payload, where the operation carries one.
#[derive(Debug, Clone, PartialEq)]
pub struct UserRequest {
    pub method: Method,
    pub path: String,
    pub user_body: Option<String>,
}

/// A client for one storage account.  It owns the account's name; transport,
/// authorization and base URL stay with the hosting code.
#[derive(Debug, Clone, PartialEq)]
pub struct CosmosClient {
    account: String,
}

impl View for CosmosClient {
    type V = Seq<char>;

    closed spec fn view(&self) -> Seq<char> {
        self.account@
    }
}

impl CosmosClient {
    pub fn new(account: String) -> (r: CosmosClient)
        ensures
            r@ == account@,
    {
        CosmosClient { account }
    }

    /// The account's name.
    pub fn account(&self) -> (r: &String)
        ensures
            r@ == self@,
    {
        &self.account
    }

    /// Frames a request against this account: the given resource path with
    /// the given method and no body.
    pub fn prepare_request_pipeline(&self, path: &str, method: Method) -> (r: UserRequest)
        ensures
            r.path@ == path@,
            r.method == method,
            r.user_body is None,
    {
        UserRequest { method, path: String::from_str(path), user_body: None }
    }
}

/// The view of a database client: the account and the database name.
#[verifier::ext_equal]
pub struct DatabaseV {
    pub account: Seq<char>,
    pub database: Seq<char>,
}

/// A client for one database of an account.
#[derive(Debug, Clone, PartialEq)]
pub struct DatabaseClient {
    cosmos_client: CosmosClient,
    database_name: String,
}

impl View for DatabaseClient {
    type V = DatabaseV;

    closed spec fn view(&self) -> DatabaseV {
        DatabaseV { account: self.cosmos_client@, database: self.database_name@ }
    }
}

impl DatabaseClient {
    pub fn new(cosmos_client: CosmosClient, database_name: String) -> (r: DatabaseClient)
        ensures
            r@ == (DatabaseV { account: cosmos_client@, database: database_name@ }),
    {
        DatabaseClient { cosmos_client, database_name }
    }

    /// The account client this database belongs to.
    pub fn cosmos_client(&self) -> (r: &CosmosClient)
        ensures
            r@ == self@.account,
    {
        &self.cosmos_client
    }

    /// The database's name.
    pub fn database_name(&self) -> (r: &String)
        ensures
            r@ == self@.database,
    {
        &self.database_name
    }
}

/// The view of a user client: the database and the user's name.
#[verifier::ext_equal]
pub struct UserClientV {
    pub database: DatabaseV,
    pub user_name: Seq<char>,
}

/// A client for one user resource of a database.
#[derive(Debug, Clone, PartialEq)]
pub struct UserClient {
    database_client: DatabaseClient,
    user_name: String,
}

impl View for UserClient {
    type V = UserClientV;

    closed spec fn view(&self) -> UserClientV {
        UserClientV { database: self.database_client@, user_name: self.user_name@ }
    }
}

impl UserClient {
    pub fn new(database_client: DatabaseClient, user_name: String) -> (r: UserClient)
        ensures
            r@ == (UserClientV { database: database_client@, user_name: user_name@ }),
    {
        UserClient { database_client, user_name }
    }

    /// A copy of this client, for a builder of its own.
    fn duplicate(&self) -> (r: UserClient)
        ensures
            r@ == self@,
    {
        UserClient {
            database_client: DatabaseClient {
                cosmos_client: CosmosClient {
                    account: self.database_client.cosmos_client.account.clone(),
                },
                database_name: self.database_client.database_name.clone(),
            },
            user_name: self.user_name.clone(),
        }
    }

    /// The account client.
    pub fn cosmos_client(&self) -> (r: &CosmosClient)
        ensures
            r@ == self@.database.account,
    {
        self.database_client.cosmos_client()
    }

    /// The database client.
    pub fn database_client(&self) -> (r: &DatabaseClient)
        ensures
            r@ == self@.database,
    {
        &self.database_client
    }

    /// The user's name.
    pub fn user_name(&self) -> (r: &String)
        ensures
            r@ == self@.user_name,
    {
        &self.user_name
    }

    /// Create the user.
    pub fn create_user(&self) -> (r: CreateUserBuilder)
        ensures
            r@ == self@,
    {
        CreateUserBuilder::new(self.duplicate())
    }

    /// Get the user.
    pub fn get_user(&self) -> (r: GetUserBuilder)
        ensures
            r@ == self@,
    {
        GetUserBuilder::new(self.duplicate())
    }

    /// Delete the user.
    pub fn delete_user(&self) -> (r: DeleteUserBuilder)
        ensures
            r@ == self@,
    {
        DeleteUserBuilder::new(self.duplicate())
    }

    /// List the user's permissions.
    pub fn list_permissions(&self) -> (r: ListPermissionsBuilder)
        ensures
            r@ == self@,
    {
        ListPermissionsBuilder::new(self.duplicate())
    }

    /// Convert into a client for one permission of this user.
    pub fn into_permission_client(self, permission_name: String) -> (r: PermissionClient)
        ensures
            r@ == (PermissionV { user: self@, permission_name: permission_name@ }),
    {
        PermissionClient::new(self, permission_name)
    }

    /// Frames the request that replaces this user's id with a new one: a PUT
    /// of the user's resource path carrying the new name as the body payload.
    /// The hosting transport performs it and decodes the user it returns.
    pub fn replace_user_request(&self, user_name: &str) -> (r: UserRequest)
        ensures
            r.method == Method::Put,
            r.path@ == "dbs/"@ + self@.database.database + "/users/"@ + self@.user_name,
            opt_view(r.user_body) == Some(user_name@),
    {
        let mut request = self.prepare_request_with_user_name(Method::Put);
        request.user_body = Some(String::from_str(user_name));
        request
    }

    /// Frames a request for this user's resource path,
    /// `dbs/{database}/users/{user}`, with the given method and no body.
    pub fn prepare_request_with_user_name(&self, method: Method) -> (r: UserRequest)
        ensures
            r.method == method,
            r.path@ == "dbs/"@ + self@.database.database + "/users/"@ + self@.user_name,
            r.user_body is None,
    {
        let path = String::from_str("dbs/").concat(
            self.database_client.database_name().as_str(),
        ).concat("/users/").concat(self.user_name.as_str());
        self.cosmos_client().prepare_request_pipeline(path.as_str(), method)
    }
}

/// The view of a permission client: the user and the permission's name.
#[verifier::ext_equal]
pub struct PermissionV {
    pub user: UserClientV,
    pub permission_name: Seq<char>,
}

/// A client for one permission of a user.
#[derive(Debug, Clone, PartialEq)]
pub struct PermissionClient {
    user_client: UserClient,
    permission_name: String,
}

impl View for PermissionClient {
    type V = PermissionV;

    closed spec fn view(&self) -> PermissionV {
        PermissionV { user: self.user_client@, permission_name: self.permission_name@ }
    }
}

impl PermissionClient {
    pub fn new(user_client: UserClient, permission_name: String) -> (r: PermissionClient)
        ensures
            r@ == (PermissionV { user: user_client@, permission_name: permission_name@ }),
    {
        PermissionClient { user_client, permission_name }
    }

    /// The permission's name.
    pub fn permission_name(&self) -> (r: &String)
        ensures
            r@ == self@.permission_name,
    {
        &self.permission_name
    }
}

/// Builds the request that creates the user.
#[derive(Debug, Clone)]
pub struct CreateUserBuilder {
    client: UserClient,
}

impl View for CreateUserBuilder {
    type V = UserClientV;

    closed spec fn view(&self) -> UserClientV {
        self.client@
    }
}

impl CreateUserBuilder {
    pub fn new(client: UserClient) -> (r: CreateUserBuilder)
        ensures
            r@ == client@,
    {
        CreateUserBuilder { client }
    }

    /// The request: a POST of the database's users collection,
    /// `dbs/{database}/users`, carrying the user's name as the body payload.
    pub fn request(&self) -> (r: UserRequest)
        ensures
            r.method == Method::Post,
            r.path@ == "dbs/"@ + self@.database.database + "/users"@,
            opt_view(r.user_body) == Some(self@.user_name),
    {
        let path = String::from_str("dbs/").concat(
            self.client.database_client().database_name().as_str(),
        ).concat("/users");
        let mut request = self.client.cosmos_client().prepare_request_pipeline(
            path.as_str(),
            Method::Post,
        );
        request.user_body = Some(self.client.user_name().clone());
        request
    }
}

/// Builds the request that fetches the user.
#[derive(Debug, Clone)]
pub struct GetUserBuilder {
    client: UserClient,
}

impl View for GetUserBuilder {
    type V = UserClientV;

    closed spec fn view(&self) -> UserClientV {
        self.client@
    }
}

impl GetUserBuilder {
    pub fn new(client: UserClient) -> (r: GetUserBuilder)
        ensures
            r@ == client@,
    {
        GetUserBuilder { client }
    }

    /// The request: a GET of the user's resource path.
    pub fn request(&self) -> (r: UserRequest)
        ensures
            r.method == Method::Get,
            r.path@ == "dbs/"@ + self@.database.database + "/users/"@ + self@.user_name,
            r.user_body is None,
    {
        self.client.prepare_request_with_user_name(Method::Get)
    }
}

/// Builds the request that deletes the user.
#[derive(Debug, Clone)]
pub struct DeleteUserBuilder {
    client: UserClient,
}

impl View for DeleteUserBuilder {
    type V = UserClientV;

    closed spec fn view(&self) -> UserClientV {
        self.client@
    }
}

impl DeleteUserBuilder {
    pub fn new(client: UserClient) -> (r: DeleteUserBuilder)
        ensures
            r@ == client@,
    {
        DeleteUserBuilder { client }
    }

    /// The request: a DELETE of the user's resource path.
    pub fn request(&self) -> (r: UserRequest)
        ensures
            r.method == Method::Delete,
            r.path@ == "dbs/"@ + self@.database.database + "/users/"@ + self@.user_name,
            r.user_body is None,
    {
        self.client.prepare_request_with_user_name(Method::Delete)
    }
}

/// Builds the request that lists the user's permissions.
#[derive(Debug, Clone)]
pub struct ListPermissionsBuilder {
    client: UserClient,
}

impl View for ListPermissionsBuilder {
    type V = UserClientV;

    closed spec fn view(&self) -> UserClientV {
        self.client@
    }
}

impl ListPermissionsBuilder {
    pub fn new(client: UserClient) -> (r: ListPermissionsBuilder)
        ensures
            r@ == client@,
    {
        ListPermissionsBuilder { client }
    }

    /// The request: a GET of the user's permissions collection,
    /// `dbs/{database}/users/{user}/permissions`.
    pub fn request(&self) -> (r: UserRequest)
        ensures
            r.method == Method::Get,
            r.path@ == "dbs/"@ + self@.database.database + "/users/"@ + self@.user_name
                + "/permissions"@,
            r.user_body is None,
    {
        let base = self.client.prepare_request_with_user_name(Method::Get);
        let path = base.path.concat("/permissions");
        self.client.cosmos_client().prepare_request_pipeline(path.as_str(), Method::Get)
    }
}

} // verus!
