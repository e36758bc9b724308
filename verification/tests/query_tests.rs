use table_query::errors::TableError;
use table_query::headers::Headers;
use table_query::query::{
    Method, PageRequest, QueryEntityResponse, QueryStream, RawResponse, TableClient,
};

fn response(status: u16, headers: &[(&str, &str)], body: &[u8]) -> RawResponse {
    let mut h = Headers::new();
    for (name, value) in headers {
        h.insert(name, value);
    }
    RawResponse {
        status,
        headers: h,
        body: body.to_vec(),
    }
}

fn page(headers: &[(&str, &str)], body: &[u8]) -> QueryEntityResponse {
    QueryEntityResponse::try_from(response(200, headers, body)).unwrap()
}

fn pairs(query: &[(String, String)]) -> Vec<(&str, &str)> {
    query
        .iter()
        .map(|p| (p.0.as_str(), p.1.as_str()))
        .collect()
}

#[test]
fn first_request_with_all_options() {
    let stream = TableClient::new("people".to_string())
        .query()
        .filter("Name eq 'x'".to_string())
        .select("Name,Age".to_string())
        .top(25)
        .into_stream();
    let req = stream.next_request().unwrap();
    assert_eq!(req.path, "people()");
    assert_eq!(req.method, Method::Get);
    assert_eq!(req.accept, "application/json;odata=fullmetadata");
    assert_eq!(
        pairs(&req.query),
        vec![
            ("$filter", "Name eq 'x'"),
            ("$select", "Name,Age"),
            ("$top", "25")
        ]
    );
}

#[test]
fn first_request_omits_absent_options() {
    let stream = TableClient::new("people".to_string()).query().into_stream();
    let req = stream.next_request().unwrap();
    assert_eq!(req.path, "people()");
    assert!(req.query.is_empty());
}

#[test]
fn empty_value_field_tolerated() {
    let p = page(&[], br#"{"odata.metadata": "m" }"#);
    assert_eq!(p.metadata, "m");
    assert_eq!(p.entities.len(), 0);
    assert!(p.continuation().is_none());
}

#[test]
fn entities_are_decoded_in_order() {
    let p = page(
        &[],
        br#"{"odata.metadata":"meta","value":[{"Name":"a"},{"Name":"b"}]}"#,
    );
    assert_eq!(p.metadata, "meta");
    assert_eq!(p.entities.len(), 2);
    assert_eq!(p.entities[0].get("Name").unwrap().as_str(), Some("a"));
    assert_eq!(p.entities[1].get("Name").unwrap().as_str(), Some("b"));
}

#[test]
fn non_success_status_fails_with_status_kind() {
    let r = QueryEntityResponse::try_from(response(404, &[], br#"{"odata.metadata":"m"}"#));
    assert_eq!(r.unwrap_err(), TableError::Status(404));
}

#[test]
fn malformed_body_fails_with_decode_kind() {
    let r = QueryEntityResponse::try_from(response(200, &[], b"not json at all"));
    assert_eq!(r.unwrap_err(), TableError::Decode);
}

#[test]
fn missing_metadata_fails_with_decode_kind() {
    let r = QueryEntityResponse::try_from(response(200, &[], br#"{"value":[]}"#));
    assert_eq!(r.unwrap_err(), TableError::Decode);
}

#[test]
fn non_array_value_field_fails_with_decode_kind() {
    let r = QueryEntityResponse::try_from(response(
        200,
        &[],
        br#"{"odata.metadata":"m","value":7}"#,
    ));
    assert_eq!(r.unwrap_err(), TableError::Decode);
}

#[test]
fn continuation_needs_partition_key() {
    let p = page(
        &[("x-ms-continuation-NextRowKey", "R")],
        br#"{"odata.metadata":"m"}"#,
    );
    // The partition key is the significant half: a row key alone is terminal.
    assert!(p.continuation().is_none());
    let stream = TableClient::new("t".to_string()).query().into_stream().feed(&p);
    assert!(stream.next_request().is_none());
}

#[test]
fn continuation_row_key_optional() {
    let p = page(
        &[("x-ms-continuation-NextPartitionKey", "P")],
        br#"{"odata.metadata":"m"}"#,
    );
    assert_eq!(p.continuation(), Some(("P".to_string(), None)));
}

#[test]
fn common_headers_bundled() {
    let p = page(
        &[
            ("x-ms-request-id", "rid"),
            ("x-ms-version", "2019-02-02"),
            ("date", "today"),
        ],
        br#"{"odata.metadata":"m"}"#,
    );
    let c = &p.common_storage_response_headers;
    assert_eq!(c.request_id.as_deref(), Some("rid"));
    assert_eq!(c.client_request_id, None);
    assert_eq!(c.version.as_deref(), Some("2019-02-02"));
    assert_eq!(c.date.as_deref(), Some("today"));
}

#[test]
fn three_page_scenario() {
    let stream = TableClient::new("people".to_string())
        .query()
        .filter("Name eq 'x'".to_string())
        .into_stream();

    let req1 = stream.next_request().unwrap();
    assert_eq!(pairs(&req1.query), vec![("$filter", "Name eq 'x'")]);

    let page1 = page(
        &[
            ("x-ms-continuation-NextPartitionKey", "A"),
            ("x-ms-continuation-NextRowKey", "B"),
        ],
        br#"{"odata.metadata":"m1","value":[{"Name":"x"}]}"#,
    );
    let stream = stream.feed(&page1);
    let req2 = stream.next_request().unwrap();
    assert_eq!(
        pairs(&req2.query),
        vec![
            ("$filter", "Name eq 'x'"),
            ("NextPartitionKey", "A"),
            ("NextRowKey", "B")
        ]
    );

    let page2 = page(
        &[("x-ms-continuation-NextPartitionKey", "C")],
        br#"{"odata.metadata":"m2","value":[{"Name":"x"}]}"#,
    );
    let stream = stream.feed(&page2);
    let req3 = stream.next_request().unwrap();
    assert_eq!(
        pairs(&req3.query),
        vec![("$filter", "Name eq 'x'"), ("NextPartitionKey", "C")]
    );
    assert!(!req3.query.iter().any(|p| p.0 == "NextRowKey"));

    let page3 = page(&[], br#"{"odata.metadata":"m3","value":[]}"#);
    let stream = stream.feed(&page3);
    // Exactly three pages were yielded; no further fetch is attempted.
    assert!(stream.next_request().is_none());
}

fn run(stream: QueryStream, responses: &[QueryEntityResponse]) -> Vec<PageRequest> {
    let mut stream = stream;
    let mut requests = Vec::new();
    let mut served = responses.iter();
    while let Some(req) = stream.next_request() {
        requests.push(req);
        match served.next() {
            Some(resp) => stream = stream.feed(resp),
            None => break,
        }
    }
    requests
}

#[test]
fn restart_is_idempotent() {
    // A fixed mock server state: the same pages for every run.
    let responses = vec![
        page(
            &[
                ("x-ms-continuation-NextPartitionKey", "A"),
                ("x-ms-continuation-NextRowKey", "B"),
            ],
            br#"{"odata.metadata":"m1","value":[{"Name":"x"}]}"#,
        ),
        page(
            &[("x-ms-continuation-NextPartitionKey", "C")],
            br#"{"odata.metadata":"m2","value":[]}"#,
        ),
        page(&[], br#"{"odata.metadata":"m3"}"#),
    ];
    let make_stream = || {
        TableClient::new("people".to_string())
            .query()
            .filter("Name eq 'x'".to_string())
            .top(2)
            .into_stream()
    };
    let first_run = run(make_stream(), &responses);
    let second_run = run(make_stream(), &responses);
    assert_eq!(first_run.len(), 3);
    assert_eq!(first_run, second_run);
}

#[test]
fn top_is_rendered_in_decimal() {
    let stream = TableClient::new("t".to_string()).query().top(0).into_stream();
    assert_eq!(pairs(&stream.next_request().unwrap().query), vec![("$top", "0")]);
    let stream = TableClient::new("t".to_string())
        .query()
        .top(4294967295)
        .into_stream();
    assert_eq!(
        pairs(&stream.next_request().unwrap().query),
        vec![("$top", "4294967295")]
    );
}

#[test]
fn header_lookup_takes_first_match() {
    let mut h = Headers::new();
    h.insert("x-ms-request-id", "first");
    h.insert("x-ms-request-id", "second");
    assert_eq!(h.get_optional_string("x-ms-request-id").as_deref(), Some("first"));
    assert_eq!(h.get_optional_string("absent"), None);
}
