//! Transport-independent description of one API request.
use vstd::prelude::*;

verus! {

/// The HTTP methods the API uses.
#[derive(Debug, Clone, Copy, PartialEq, Eq, Structural)]
pub enum Method {
    Get,
    Post,
    Put,
    Delete,
}

/// A request to the API, before the transport turns it into an HTTP request.
///
/// The path is a sequence of raw segments: the transport percent-encodes each
/// one and appends it to the client's endpoint. The idempotency key travels as
/// a request header, never in the JSON body.
#[derive(Debug, Clone)]
pub struct ApiRequest {
    pub method: Method,
    pub path: Vec<String>,
    pub query: Vec<(String, String)>,
    pub idempotency_key: Option<String>,
}

/// The mathematical value of an [`ApiRequest`].
#[verifier::ext_equal]
pub struct RequestView {
    pub method: Method,
    pub path: Seq<Seq<char>>,
    pub query: Seq<(Seq<char>, Seq<char>)>,
    pub idempotency_key: Option<Seq<char>>,
}

pub open spec fn query_pair_view(p: (String, String)) -> (Seq<char>, Seq<char>) {
    (p.0@, p.1@)
}

pub open spec fn strings_view(v: Seq<String>) -> Seq<Seq<char>> {
    v.map_values(|s: String| s@)
}

pub open spec fn pairs_view(v: Seq<(String, String)>) -> Seq<(Seq<char>, Seq<char>)> {
    v.map_values(|p: (String, String)| query_pair_view(p))
}

pub open spec fn opt_str_view(o: Option<String>) -> Option<Seq<char>> {
    match o {
        Some(s) => Some(s@),
        None => None,
    }
}

impl View for ApiRequest {
    type V = RequestView;

    open spec fn view(&self) -> RequestView {
        RequestView {
            method: self.method,
            path: strings_view(self.path@),
            query: pairs_view(self.query@),
            idempotency_key: opt_str_view(self.idempotency_key),
        }
    }
}

/// A request with the given method and path and nothing else.
pub open spec fn plain_request(method: Method, path: Seq<Seq<char>>) -> RequestView {
    RequestView { method, path, query: Seq::empty(), idempotency_key: None }
}

/// `r` with one more query pair at its end.
pub open spec fn with_query_spec(r: RequestView, key: Seq<char>, value: Seq<char>) -> RequestView {
    RequestView { query: r.query.push((key, value)), ..r }
}

/// `r` with `key`, if any, as its idempotency key.
pub open spec fn with_key_spec(r: RequestView, key: Option<Seq<char>>) -> RequestView {
    RequestView { idempotency_key: key, ..r }
}

/// `r` with the pair `(key, value)` appended when `value` is present.
pub open spec fn with_opt_query_spec(
    r: RequestView,
    key: Seq<char>,
    value: Option<Seq<char>>,
) -> RequestView {
    match value {
        Some(v) => with_query_spec(r, key, v),
        None => r,
    }
}

pub open spec fn opt_ref_view(o: Option<&str>) -> Option<Seq<char>> {
    match o {
        Some(s) => Some(s@),
        None => None,
    }
}

/// The wire form of a boolean query value.
pub open spec fn bool_text(b: bool) -> Seq<char> {
    if b {
        "true"@
    } else {
        "false"@
    }
}

/// An owned copy of `s`.
pub fn owned(s: &str) -> (r: String)
    ensures
        r@ == s@,
{
    s.to_owned()
}

/// Whether two strings hold the same characters.
pub fn str_eq(a: &str, b: &str) -> (r: bool)
    ensures
        r == (a@ == b@),
{
    a.to_owned() == b.to_owned()
}

/// The wire form of a boolean query value.
pub fn bool_query_value(b: bool) -> (r: String)
    ensures
        r@ == bool_text(b),
{
    if b {
        owned("true")
    } else {
        owned("false")
    }
}

impl ApiRequest {
    /// A request with the given method, an empty path and nothing else.
    pub fn new(method: Method) -> (r: ApiRequest)
        ensures
            r@ == plain_request(method, Seq::empty()),
    {
        let r = ApiRequest { method, path: Vec::new(), query: Vec::new(), idempotency_key: None };
        proof {
            assert(r@.path =~= Seq::empty());
            assert(r@.query =~= Seq::empty());
        }
        r
    }

    /// Appends one path segment.
    pub fn segment(self, seg: &str) -> (r: ApiRequest)
        ensures
            r@ == (RequestView { path: self@.path.push(seg@), ..self@ }),
    {
        let mut s = self;
        s.path.push(owned(seg));
        proof {
            assert(strings_view(s.path@) =~= strings_view(self.path@).push(seg@));
        }
        s
    }

    /// Appends one query pair.
    pub fn with_query(self, key: &str, value: String) -> (r: ApiRequest)
        ensures
            r@ == with_query_spec(self@, key@, value@),
    {
        let mut s = self;
        s.query.push((owned(key), value));
        proof {
            assert(pairs_view(s.query@) =~= pairs_view(self.query@).push((key@, value@)));
        }
        s
    }

    /// Appends the pair `(key, value)` when `value` is present.
    pub fn with_opt_query(self, key: &str, value: Option<&str>) -> (r: ApiRequest)
        ensures
            r@ == with_opt_query_spec(self@, key@, opt_ref_view(value)),
    {
        match value {
            Some(v) => self.with_query(key, owned(v)),
            None => self,
        }
    }

    /// Sets the idempotency key header, if a key is given.
    pub fn with_idempotency_key(self, key: Option<&str>) -> (r: ApiRequest)
        ensures
            r@ == with_key_spec(self@, opt_ref_view(key)),
    {
        let idempotency_key = match key {
            Some(k) => Some(owned(k)),
            None => None,
        };
        ApiRequest { idempotency_key, ..self }
    }
}

} // verus!
