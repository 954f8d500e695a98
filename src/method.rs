use vstd::prelude::*;

verus! {

/// The HTTP verbs a request can be made with.
#[derive(Debug, Clone, Copy, PartialEq, Eq, Structural)]
pub enum Method {
    GET,
    HEAD,
    POST,
    PUT,
    DELETE,
    CONNECT,
    OPTIONS,
    TRACE,
    PATCH,
}

/// The canonical upper-case name of a verb, as it goes on the wire.
pub open spec fn method_name(m: Method) -> Seq<char> {
    match m {
        Method::GET => "GET"@,
        Method::HEAD => "HEAD"@,
        Method::POST => "POST"@,
        Method::PUT => "PUT"@,
        Method::DELETE => "DELETE"@,
        Method::CONNECT => "CONNECT"@,
        Method::OPTIONS => "OPTIONS"@,
        Method::TRACE => "TRACE"@,
        Method::PATCH => "PATCH"@,
    }
}

/// Different verbs go out under different names.
pub proof fn lemma_method_names_distinct(a: Method, b: Method)
    ensures
        method_name(a) == method_name(b) ==> a == b,
{
    reveal_strlit("GET");
    reveal_strlit("HEAD");
    reveal_strlit("POST");
    reveal_strlit("PUT");
    reveal_strlit("DELETE");
    reveal_strlit("CONNECT");
    reveal_strlit("OPTIONS");
    reveal_strlit("TRACE");
    reveal_strlit("PATCH");
    if method_name(a) == method_name(b) && a != b {
        assert(method_name(a).len() == method_name(b).len());
        assert(method_name(a)[0] == method_name(b)[0]);
    }
}

impl Method {
    /// The verb's canonical upper-case name.
    pub fn as_str(&self) -> (r: &'static str)
        ensures
            r@ == method_name(*self),
    {
        match self {
            Method::GET => "GET",
            Method::HEAD => "HEAD",
            Method::POST => "POST",
            Method::PUT => "PUT",
            Method::DELETE => "DELETE",
            Method::CONNECT => "CONNECT",
            Method::OPTIONS => "OPTIONS",
            Method::TRACE => "TRACE",
            Method::PATCH => "PATCH",
        }
    }
}

/// What a request is about: its verb and the URL it targets. Fixed once the
/// chain of builder stages starts, and never changed afterwards.
#[derive(Debug, Clone, Copy)]
pub struct TeaRequest<'a> {
    method: Method,
    url: &'a str,
}

impl<'a> TeaRequest<'a> {
    pub closed spec fn spec_method(&self) -> Method {
        self.method
    }

    pub closed spec fn spec_url(&self) -> Seq<char> {
        self.url@
    }

    /// A request intent for `method` on `url`.
    pub fn new(method: Method, url: &'a str) -> (r: TeaRequest<'a>)
        ensures
            r.spec_method() == method,
            r.spec_url() == url@,
    {
        TeaRequest { method, url }
    }

    /// The verb chosen at the start of the chain.
    pub fn method(&self) -> (r: Method)
        ensures
            r == self.spec_method(),
    {
        self.method
    }

    /// The URL chosen at the start of the chain.
    pub fn url(&self) -> (r: &'a str)
        ensures
            r@ == self.spec_url(),
    {
        self.url
    }
}

} // verus!
