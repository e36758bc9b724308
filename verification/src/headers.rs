//! A plain header map and the lookups the engine reads from it.
use vstd::prelude::*;
use vstd::string::StringExecFns;

verus! {

/// The view of a list of name/value pairs.
pub open spec fn pairs_view(s: Seq<(String, String)>) -> Seq<(Seq<char>, Seq<char>)> {
    s.map_values(|p: (String, String)| (p.0@, p.1@))
}

/// The value of the first pair whose name matches, if any.
pub open spec fn lookup(s: Seq<(Seq<char>, Seq<char>)>, name: Seq<char>) -> Option<Seq<char>>
    decreases s.len(),
{
    if s.len() == 0 {
        None
    } else if s[0].0 == name {
        Some(s[0].1)
    } else {
        lookup(s.drop_first(), name)
    }
}

/// Response headers, as plain name/value pairs in arrival order.
/// Lookups are by exact name, as the hosting transport hands them over.
#[derive(Debug, Clone, PartialEq)]
pub struct Headers {
    pairs: Vec<(String, String)>,
}

impl View for Headers {
    type V = Seq<(Seq<char>, Seq<char>)>;

    closed spec fn view(&self) -> Seq<(Seq<char>, Seq<char>)> {
        pairs_view(self.pairs@)
    }
}

impl Headers {
    pub fn new() -> (r: Headers)
        ensures
            r@ =~= Seq::<(Seq<char>, Seq<char>)>::empty(),
    {
        Headers { pairs: Vec::new() }
    }

    /// Appends one header.
    pub fn insert(&mut self, name: &str, value: &str)
        ensures
            final(self)@ =~= old(self)@.push((name@, value@)),
    {
        let pair = (String::from_str(name), String::from_str(value));
        self.pairs.push(pair);
    }

    /// The value of the first header with this exact name, if any.
    pub fn get_optional_string(&self, name: &str) -> (r: Option<String>)
        ensures
            match r {
                Some(v) => lookup(self@, name@) == Some(v@),
                None => lookup(self@, name@) is None,
            },
    {
        let needle = String::from_str(name);
        let n = self.pairs.len();
        let mut i: usize = 0;
        proof {
            assert(self@.skip(0) =~= self@);
        }
        while i < n
            invariant
                n == self.pairs.len(),
                i <= n,
                needle@ == name@,
                lookup(self@, name@) == lookup(self@.skip(i as int), name@),
            decreases n - i,
        {
            let p = &self.pairs[i];
            if p.0 == needle {
                proof {
                    assert(self@.skip(i as int)[0] == (p.0@, p.1@));
                }
                return Some(p.1.clone());
            }
            proof {
                assert(self@.skip(i as int).drop_first() =~= self@.skip(i as int + 1));
                assert(self@.skip(i as int)[0] == (self.pairs@[i as int].0@, self.pairs@[i as int].1@));
            }
            i += 1;
        }
        proof {
            assert(self@.skip(i as int) =~= Seq::<(Seq<char>, Seq<char>)>::empty());
        }
        None
    }
}

/// The common response headers bundled verbatim into each page: the service's
/// request id, the caller's request id echo, the service version and the date.
#[derive(Debug, Clone, PartialEq)]
pub struct CommonStorageResponseHeaders {
    pub request_id: Option<String>,
    pub client_request_id: Option<String>,
    pub version: Option<String>,
    pub date: Option<String>,
}

/// The view of an optional string.
pub open spec fn opt_view(o: Option<String>) -> Option<Seq<char>> {
    match o {
        Some(s) => Some(s@),
        None => None,
    }
}

/// The view of the common response headers.
#[verifier::ext_equal]
pub struct CommonV {
    pub request_id: Option<Seq<char>>,
    pub client_request_id: Option<Seq<char>>,
    pub version: Option<Seq<char>>,
    pub date: Option<Seq<char>>,
}

impl View for CommonStorageResponseHeaders {
    type V = CommonV;

    open spec fn view(&self) -> CommonV {
        CommonV {
            request_id: opt_view(self.request_id),
            client_request_id: opt_view(self.client_request_id),
            version: opt_view(self.version),
            date: opt_view(self.date),
        }
    }
}

/// The common headers a header map yields.
pub open spec fn common_of(h: Seq<(Seq<char>, Seq<char>)>) -> CommonV {
    CommonV {
        request_id: lookup(h, "x-ms-request-id"@),
        client_request_id: lookup(h, "x-ms-client-request-id"@),
        version: lookup(h, "x-ms-version"@),
        date: lookup(h, "date"@),
    }
}

impl CommonStorageResponseHeaders {
    /// Reads the common headers out of a response's header map.
    pub fn from_headers(headers: &Headers) -> (r: CommonStorageResponseHeaders)
        ensures
            r@ == common_of(headers@),
    {
        CommonStorageResponseHeaders {
            request_id: headers.get_optional_string("x-ms-request-id"),
            client_request_id: headers.get_optional_string("x-ms-client-request-id"),
            version: headers.get_optional_string("x-ms-version"),
            date: headers.get_optional_string("date"),
        }
    }
}

} // verus!
