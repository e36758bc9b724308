//! The paginated query engine.
//!
//! A query is driven by an explicit state object: the immutable specification
//! (filter, field selection, count hint) plus the continuation cursor.  Each
//! page fetch is one `next_request` / `feed` round trip: `next_request`
//! builds the request for the coming page as plain values, the transport
//! outside the library performs it, and `feed` threads the response's
//! continuation token into the state.  A page without a token ends the
//! stream.
use vstd::prelude::*;
use vstd::string::StringExecFns;
use crate::errors::TableError;
use crate::headers::{lookup, opt_view, CommonStorageResponseHeaders, Headers};
use crate::json::{decode_envelope, envelope_entities, envelope_meta, envelope_ok, json_wf};
use crate::strutil::{dec_str, u32_to_string};

verus! {

/// The HTTP method of a request the library builds.
#[derive(Debug, Clone, Copy, PartialEq, Eq, Structural)]
pub enum Method {
    Get,
    Post,
    Put,
    Delete,
}

/// The opaque continuation token of the protocol: the partition half is
/// always present, the row half optional.  It is round-tripped verbatim
/// between a response and the next request, never interpreted.
#[derive(Debug, Clone, PartialEq)]
pub struct Continuation {
    pub next_partition_key: String,
    pub next_row_key: Option<String>,
}

/// The view of a continuation token.
#[verifier::ext_equal]
pub struct ContV {
    pub pk: Seq<char>,
    pub rk: Option<Seq<char>>,
}

impl View for Continuation {
    type V = ContV;

    open spec fn view(&self) -> ContV {
        ContV { pk: self.next_partition_key@, rk: opt_view(self.next_row_key) }
    }
}

/// The handle to one table: its name.  The base URL and the transport stay
/// with the hosting client outside the library.
#[derive(Debug, Clone, PartialEq)]
pub struct TableClient {
    table_name: String,
}

impl View for TableClient {
    type V = Seq<char>;

    closed spec fn view(&self) -> Seq<char> {
        self.table_name@
    }
}

impl TableClient {
    pub fn new(table_name: String) -> (r: TableClient)
        ensures
            r@ == table_name@,
    {
        TableClient { table_name }
    }

    /// The table's name.
    pub fn table_name(&self) -> (r: &String)
        ensures
            r@ == self@,
    {
        &self.table_name
    }

    /// Begins a query of this table's entities.
    pub fn query(&self) -> (r: QueryEntityBuilder)
        ensures
            r@ == (BuilderV { table: self@, filter: None, select: None, top: None }),
    {
        QueryEntityBuilder::new(TableClient { table_name: self.table_name.clone() })
    }
}

/// The view of a query specification.
#[verifier::ext_equal]
pub struct BuilderV {
    pub table: Seq<char>,
    pub filter: Option<Seq<char>>,
    pub select: Option<Seq<char>>,
    pub top: Option<u32>,
}

/// A query specification under construction: an optional filter expression,
/// an optional field-selection list and an optional result-count hint.
/// Immutable once the first fetch begins: `into_stream` consumes it.
#[derive(Debug, Clone, PartialEq)]
pub struct QueryEntityBuilder {
    table_client: TableClient,
    filter: Option<String>,
    select: Option<String>,
    top: Option<u32>,
}

impl View for QueryEntityBuilder {
    type V = BuilderV;

    closed spec fn view(&self) -> BuilderV {
        BuilderV {
            table: self.table_client@,
            filter: opt_view(self.filter),
            select: opt_view(self.select),
            top: self.top,
        }
    }
}

impl QueryEntityBuilder {
    pub fn new(table_client: TableClient) -> (r: QueryEntityBuilder)
        ensures
            r@ == (BuilderV { table: table_client@, filter: None, select: None, top: None }),
    {
        QueryEntityBuilder { table_client, filter: None, select: None, top: None }
    }

    /// Sets the filter expression.
    pub fn filter(self, filter: String) -> (r: QueryEntityBuilder)
        ensures
            r@ == (BuilderV { filter: Some(filter@), ..self@ }),
    {
        QueryEntityBuilder { filter: Some(filter), ..self }
    }

    /// Sets the field-selection list.
    pub fn select(self, select: String) -> (r: QueryEntityBuilder)
        ensures
            r@ == (BuilderV { select: Some(select@), ..self@ }),
    {
        QueryEntityBuilder { select: Some(select), ..self }
    }

    /// Sets the result-count hint.
    pub fn top(self, top: u32) -> (r: QueryEntityBuilder)
        ensures
            r@ == (BuilderV { top: Some(top), ..self@ }),
    {
        QueryEntityBuilder { top: Some(top), ..self }
    }

    /// Turns the specification into a fresh query stream, positioned before
    /// the first page.  Two streams made from equal specifications are equal:
    /// pagination state lives only in the stream itself.
    pub fn into_stream(self) -> (r: QueryStream)
        ensures
            r@ == (StreamV { builder: self@, cursor: CursorV::Start }),
    {
        QueryStream { builder: self, cursor: Cursor::Start }
    }
}

/// Where a stream stands: before the first page, holding the token for the
/// coming page, or past the final page.
#[derive(Debug, Clone, PartialEq)]
pub enum Cursor {
    Start,
    Token(Continuation),
    Done,
}

/// The view of a cursor.
#[verifier::ext_equal]
pub enum CursorV {
    Start,
    Token(ContV),
    Done,
}

impl View for Cursor {
    type V = CursorV;

    open spec fn view(&self) -> CursorV {
        match self {
            Cursor::Start => CursorV::Start,
            Cursor::Token(c) => CursorV::Token(c@),
            Cursor::Done => CursorV::Done,
        }
    }
}

/// The view of a query stream.
#[verifier::ext_equal]
pub struct StreamV {
    pub builder: BuilderV,
    pub cursor: CursorV,
}

/// One paginated query in flight: the specification and the continuation
/// cursor.  It shares nothing with other streams.
#[derive(Debug, Clone, PartialEq)]
pub struct QueryStream {
    builder: QueryEntityBuilder,
    cursor: Cursor,
}

impl View for QueryStream {
    type V = StreamV;

    closed spec fn view(&self) -> StreamV {
        StreamV { builder: self.builder@, cursor: self.cursor@ }
    }
}

/// The view of one page-fetch request.
#[verifier::ext_equal]
pub struct RequestV {
    pub path: Seq<char>,
    pub query: Seq<(Seq<char>, Seq<char>)>,
    pub method: Method,
    pub accept: Seq<char>,
}

/// One page-fetch request, as plain values: the path of the query operation
/// relative to the service's base URL, the query parameters in order, the
/// method and the accept header.  The transport outside the library turns it
/// into a wire request; parameter values are handed over unencoded.
#[derive(Debug, Clone, PartialEq)]
pub struct PageRequest {
    pub path: String,
    pub query: Vec<(String, String)>,
    pub method: Method,
    pub accept: String,
}

impl View for PageRequest {
    type V = RequestV;

    open spec fn view(&self) -> RequestV {
        RequestV {
            path: self.path@,
            query: crate::headers::pairs_view(self.query@),
            method: self.method,
            accept: self.accept@,
        }
    }
}

/// A parameter that is emitted only when its value is present: absent means
/// no pair at all, never an empty one.
pub open spec fn opt_param(name: Seq<char>, v: Option<Seq<char>>) -> Seq<(Seq<char>, Seq<char>)> {
    match v {
        Some(s) => seq![(name, s)],
        None => Seq::empty(),
    }
}

/// The continuation parameters of a request: the partition key, and the row
/// key only when it is present.  The first request of a stream carries none.
pub open spec fn cont_params(c: Option<ContV>) -> Seq<(Seq<char>, Seq<char>)> {
    match c {
        Some(t) => seq![("NextPartitionKey"@, t.pk)] + opt_param("NextRowKey"@, t.rk),
        None => Seq::empty(),
    }
}

/// The continuation the cursor carries into the coming request, if any.
pub open spec fn cursor_cont(c: CursorV) -> Option<ContV> {
    match c {
        CursorV::Token(t) => Some(t),
        _ => None,
    }
}

/// The full ordered query-parameter list of one page request.
pub open spec fn request_query(b: BuilderV, c: Option<ContV>) -> Seq<(Seq<char>, Seq<char>)> {
    opt_param("$filter"@, b.filter) + opt_param("$select"@, b.select) + opt_param(
        "$top"@,
        match b.top {
            Some(n) => Some(dec_str(n as nat)),
            None => None,
        },
    ) + cont_params(c)
}

/// The request a stream makes next: `None` once the stream is past its final
/// page, else the GET of the table's query operation with the
/// fully-detailed-metadata accept header.
pub open spec fn next_request_v(s: StreamV) -> Option<RequestV> {
    match s.cursor {
        CursorV::Done => None,
        _ => Some(
            RequestV {
                path: s.builder.table + "()"@,
                query: request_query(s.builder, cursor_cont(s.cursor)),
                method: Method::Get,
                accept: "application/json;odata=fullmetadata"@,
            },
        ),
    }
}

/// The view of an optional request.
pub open spec fn req_opt_view(r: Option<PageRequest>) -> Option<RequestV> {
    match r {
        Some(p) => Some(p@),
        None => None,
    }
}

impl QueryStream {
    /// The request for the coming page, or `None` once the final page has
    /// been fed back — after which no further fetch is ever attempted.
    pub fn next_request(&self) -> (r: Option<PageRequest>)
        ensures
            req_opt_view(r) == next_request_v(self@),
    {
        if let Cursor::Done = &self.cursor {
            return None;
        }
        let mut query: Vec<(String, String)> = Vec::new();
        if let Some(f) = &self.builder.filter {
            query.push((String::from_str("$filter"), f.clone()));
        }
        proof {
            assert(crate::headers::pairs_view(query@) =~= opt_param(
                "$filter"@,
                self@.builder.filter,
            ));
        }
        if let Some(s) = &self.builder.select {
            query.push((String::from_str("$select"), s.clone()));
        }
        proof {
            assert(crate::headers::pairs_view(query@) =~= opt_param("$filter"@, self@.builder.filter)
                + opt_param("$select"@, self@.builder.select));
        }
        if let Some(t) = self.builder.top {
            query.push((String::from_str("$top"), u32_to_string(t)));
        }
        proof {
            assert(crate::headers::pairs_view(query@) =~= opt_param("$filter"@, self@.builder.filter)
                + opt_param("$select"@, self@.builder.select) + opt_param(
                "$top"@,
                match self@.builder.top {
                    Some(n) => Some(dec_str(n as nat)),
                    None => None,
                },
            ));
        }
        if let Cursor::Token(c) = &self.cursor {
            query.push((String::from_str("NextPartitionKey"), c.next_partition_key.clone()));
            if let Some(rk) = &c.next_row_key {
                query.push((String::from_str("NextRowKey"), rk.clone()));
            }
        }
        proof {
            assert(crate::headers::pairs_view(query@) =~= request_query(
                self@.builder,
                cursor_cont(self@.cursor),
            ));
        }
        let path = self.builder.table_client.table_name.clone().concat("()");
        let r = Some(
            PageRequest {
                path,
                query,
                method: Method::Get,
                accept: String::from_str("application/json;odata=fullmetadata"),
            },
        );
        proof {
            assert(req_opt_view(r) matches Some(v) && v =~= next_request_v(self@)->Some_0);
        }
        r
    }

    /// Advances the stream by one fetched page: the page's token, consumed
    /// exactly once, becomes the cursor for the next request; a page without
    /// one ends the stream.  The specification is never touched.
    pub fn feed(self, response: &QueryEntityResponse) -> (r: QueryStream)
        ensures
            r@ == (StreamV {
                builder: self@.builder,
                cursor: cursor_after(continuation_v(response@)),
            }),
    {
        let cursor = match response.continuation() {
            Some((p, rk)) => Cursor::Token(
                Continuation { next_partition_key: p, next_row_key: rk },
            ),
            None => Cursor::Done,
        };
        QueryStream { builder: self.builder, cursor }
    }
}

/// The cursor a stream takes after one page: the page's token, or the end.
pub open spec fn cursor_after(c: Option<ContV>) -> CursorV {
    match c {
        Some(t) => CursorV::Token(t),
        None => CursorV::Done,
    }
}

/// The view of one fetched page.
#[verifier::ext_equal]
pub struct ResponseV {
    pub common: crate::headers::CommonV,
    pub metadata: Seq<char>,
    pub entities: Seq<serde_json::Value>,
    pub pk: Option<Seq<char>>,
    pub rk: Option<Seq<char>>,
}

/// One fetched page: the decoded entities, the server's metadata string, the
/// common response headers, and (privately) the continuation halves read
/// from the two dedicated response headers.
#[derive(Debug, Clone, PartialEq)]
pub struct QueryEntityResponse {
    pub common_storage_response_headers: CommonStorageResponseHeaders,
    pub metadata: String,
    pub entities: Vec<serde_json::Value>,
    next_partition_key: Option<String>,
    next_row_key: Option<String>,
}

impl View for QueryEntityResponse {
    type V = ResponseV;

    closed spec fn view(&self) -> ResponseV {
        ResponseV {
            common: self.common_storage_response_headers@,
            metadata: self.metadata@,
            entities: self.entities@,
            pk: opt_view(self.next_partition_key),
            rk: opt_view(self.next_row_key),
        }
    }
}

/// The token a page carries, if any.  A page without the partition half is
/// terminal even if the row half were present alone: the partition key is
/// the significant half of the compound token, exactly as the service
/// defines it.
pub open spec fn continuation_v(r: ResponseV) -> Option<ContV> {
    match r.pk {
        Some(p) => Some(ContV { pk: p, rk: r.rk }),
        None => None,
    }
}

/// The view of an optional continuation pair.
pub open spec fn cont_pair_view(r: Option<(String, Option<String>)>) -> Option<ContV> {
    match r {
        Some(p) => Some(ContV { pk: p.0@, rk: opt_view(p.1) }),
        None => None,
    }
}

/// A raw transport response, as plain values: status, headers, body bytes.
#[derive(Debug, Clone, PartialEq)]
pub struct RawResponse {
    pub status: u16,
    pub headers: Headers,
    pub body: Vec<u8>,
}

impl QueryEntityResponse {
    /// The continuation token of this page, if any.
    pub fn continuation(&self) -> (r: Option<(String, Option<String>)>)
        ensures
            cont_pair_view(r) == continuation_v(self@),
    {
        match &self.next_partition_key {
            Some(p) => {
                let rk = match &self.next_row_key {
                    Some(k) => Some(k.clone()),
                    None => None,
                };
                Some((p.clone(), rk))
            },
            None => None,
        }
    }

    /// Decodes one raw response into a page.
    ///
    /// Success is owed exactly on a success status with a body of the
    /// envelope shape: then the page carries that body's metadata string and
    /// entities in order, the common headers, and the continuation halves
    /// read from the two dedicated headers.  A non-success status fails with
    /// that status; under a success status, a body that does not match the
    /// envelope shape fails with the decoding kind, and nothing else fails.
    pub fn try_from(response: RawResponse) -> (r: Result<QueryEntityResponse, TableError>)
        ensures
            !(200 <= response.status < 300) ==> r == Err::<QueryEntityResponse, TableError>(
                TableError::Status(response.status),
            ),
            200 <= response.status < 300 ==> (r is Ok <==> envelope_ok(response.body@)),
            200 <= response.status < 300 && !envelope_ok(response.body@) ==> r == Err::<
                QueryEntityResponse,
                TableError,
            >(TableError::Decode),
            200 <= response.status < 300 && !json_wf(response.body@) ==> r == Err::<
                QueryEntityResponse,
                TableError,
            >(TableError::Decode),
            r matches Ok(page) ==> 200 <= response.status < 300 && page@.metadata
                == envelope_meta(response.body@) && page@.entities == envelope_entities(
                response.body@,
            ) && page@.pk == lookup(
                response.headers@,
                "x-ms-continuation-NextPartitionKey"@,
            ) && page@.rk == lookup(response.headers@, "x-ms-continuation-NextRowKey"@)
                && page@.common == crate::headers::common_of(response.headers@),
    {
        if !(response.status >= 200 && response.status < 300) {
            return Err(TableError::Status(response.status));
        }
        let envelope = match decode_envelope(response.body.as_slice()) {
            Ok(e) => e,
            Err(e) => {
                return Err(e);
            },
        };
        let next_partition_key = response.headers.get_optional_string(
            "x-ms-continuation-NextPartitionKey",
        );
        let next_row_key = response.headers.get_optional_string("x-ms-continuation-NextRowKey");
        let common = CommonStorageResponseHeaders::from_headers(&response.headers);
        Ok(
            QueryEntityResponse {
                common_storage_response_headers: common,
                metadata: envelope.metadata,
                entities: envelope.entities,
                next_partition_key,
                next_row_key,
            },
        )
    }
}

} // verus!
