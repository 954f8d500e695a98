use vstd::prelude::*;

use crate::body::{BodyModel, TeaBody};
use crate::error::TeaError;
use crate::headers::{names_unique, set_header, HeaderModel};
use crate::method::{method_name, Method, TeaRequest};
use crate::native::{HostInit, HostRequest, InitRecord, Outbound, SentRecord};

verus! {

/// The request a builder stage stands for: the verb chosen at the start, the
/// URL and headers handed to the host's request, and the body to be sent.
pub struct RequestModel {
    pub method: Method,
    pub url: Seq<char>,
    pub headers: Seq<HeaderModel>,
    pub body: Option<BodyModel>,
}

/// The description of a request just started: no headers, no body.
pub open spec fn fresh_model(method: Method, url: Seq<char>) -> RequestModel {
    RequestModel { method, url, headers: Seq::empty(), body: None }
}

/// `m` with header `k` set to `v`.
pub open spec fn with_header(m: RequestModel, k: Seq<char>, v: Seq<char>) -> RequestModel {
    RequestModel { headers: set_header(m.headers, k, v), ..m }
}

/// `m` with `b` as its body.
pub open spec fn with_body(m: RequestModel, b: BodyModel) -> RequestModel {
    RequestModel { body: Some(b), ..m }
}

/// The options that dispatching `m` hands to the host: the verb's canonical
/// name as the method, and the body, where there is one.
pub open spec fn init_of(m: RequestModel) -> InitRecord {
    InitRecord { method: Some(method_name(m.method)), body: m.body }
}

/// The request that dispatching `m` hands to the host's fetch.
pub open spec fn sent_of(m: RequestModel) -> SentRecord {
    SentRecord { method: Some(method_name(m.method)), url: m.url, headers: m.headers, body: m.body }
}

/// A request just started for verb `m` on `url` describes that verb and that
/// URL, with no headers and no body; the method field it sends, the
/// canonical name of `m`, is the name of no other verb.
pub proof fn lemma_started_request<'a>(b: TeaBuilder<'a>, m: Method, url: Seq<char>, other: Method)
    requires
        starts_request(Ok(b), m, url),
    ensures
        b.model().method == m,
        b.model().url == url,
        b.model().headers.len() == 0,
        b.model().body is None,
        method_name(b.model().method) == method_name(other) ==> other == m,
{
    crate::method::lemma_method_names_distinct(m, other);
}

/// Setting a header and attaching a body change neither the verb nor the
/// URL; setting a header leaves the body as it was, and attaching a body
/// leaves the headers as they were.
pub proof fn lemma_steps_keep_verb_and_url(
    m: RequestModel,
    k: Seq<char>,
    v: Seq<char>,
    body: BodyModel,
)
    ensures
        with_header(m, k, v).method == m.method,
        with_header(m, k, v).url == m.url,
        with_header(m, k, v).body == m.body,
        with_body(m, body).method == m.method,
        with_body(m, body).url == m.url,
        with_body(m, body).headers == m.headers,
{
}

/// `m` with every header of `pairs` set in turn.
pub open spec fn with_headers(m: RequestModel, pairs: Seq<HeaderModel>) -> RequestModel
    decreases pairs.len(),
{
    if pairs.len() == 0 {
        m
    } else {
        let last = pairs.last();
        with_header(with_headers(m, pairs.drop_last()), last.0, last.1)
    }
}

proof fn lemma_with_headers(m: RequestModel, pairs: Seq<HeaderModel>)
    ensures
        with_headers(m, pairs) == (RequestModel {
            headers: crate::headers::set_all(m.headers, pairs),
            ..m
        }),
    decreases pairs.len(),
{
    if pairs.len() > 0 {
        lemma_with_headers(m, pairs.drop_last());
    }
}

/// A request started for verb `v` on `url`, then given the headers `pairs`
/// one after another, names distinct, and then, where `body` is some body,
/// that body, goes to the host's fetch with `v`'s canonical name as its
/// method, `url`, exactly the headers `pairs` in that order, and exactly that
/// body, or no body.
pub proof fn lemma_chain_is_sent(
    v: Method,
    url: Seq<char>,
    pairs: Seq<HeaderModel>,
    body: Option<BodyModel>,
)
    requires
        names_unique(pairs),
    ensures
        ({
            let built = with_headers(fresh_model(v, url), pairs);
            let done = match body {
                Some(b) => with_body(built, b),
                None => built,
            };
            sent_of(done) == (SentRecord {
                method: Some(method_name(v)),
                url,
                headers: pairs,
                body,
            })
        }),
{
    lemma_with_headers(fresh_model(v, url), pairs);
    crate::headers::lemma_set_all_distinct(pairs);
}

/// On any stage, the header last set to a value carries that value in the
/// request handed to the host's fetch, and setting it leaves every other
/// header as it was.
pub proof fn lemma_last_header_wins(m: RequestModel, k: Seq<char>, v: Seq<char>, other: Seq<char>)
    requires
        names_unique(m.headers),
    ensures
        crate::headers::header_value(sent_of(with_header(m, k, v)).headers, k) == Some(v),
        !crate::headers::same_name(k, other) ==> crate::headers::header_value(
            sent_of(with_header(m, k, v)).headers,
            other,
        ) == crate::headers::header_value(m.headers, other),
{
    crate::headers::lemma_set_then_value(m.headers, k, v);
    if !crate::headers::same_name(k, other) {
        crate::headers::lemma_set_keeps_others(m.headers, k, v, other);
    }
}

/// A stage that describes a request and can build the host's options for it.
pub trait Constructable: Sized {
    /// The request the stage describes.
    spec fn model(&self) -> RequestModel;

    /// The stage's own invariant.
    spec fn valid(&self) -> bool;

    /// The method field of the outbound request.
    fn method_field(&self) -> (r: &'static str)
        requires
            self.valid(),
        ensures
            r@ == method_name(self.model().method),
    ;

    /// The host's options for one dispatch: the method and, where the stage
    /// has one, the body.
    fn init(&self) -> (r: HostInit)
        requires
            self.valid(),
        ensures
            r.record() == init_of(self.model()),
    ;
}

/// A stage whose header set can still be changed.
pub trait TeaHeaderOwner: Constructable {
    /// Sets header `key` to `value`, replacing an earlier value of a header
    /// of that name. Fails with the host's error where it refuses the header.
    fn header(self, key: &str, value: &str) -> (r: Result<Self, TeaError>)
        requires
            self.valid(),
        ensures
            match r {
                Ok(s) => s.valid() && s.model() == with_header(self.model(), key@, value@),
                Err(e) => e is JSErr,
            },
    ;
}

/// A stage to which a body can be attached, which ends the building.
pub trait TeaRequestBuilder<'a>: TeaHeaderOwner {
    /// Attaches a view of the caller's bytes as the body.
    fn slice_body(self, v: &'a [u8]) -> (r: TeaWithBody<'a>)
        requires
            self.valid(),
        ensures
            r.valid(),
            r.model() == with_body(self.model(), BodyModel::Bytes(v@)),
    ;

    /// Attaches a view of the caller's text as the body.
    fn str_body(self, v: &'a str) -> (r: TeaWithBody<'a>)
        requires
            self.valid(),
        ensures
            r.valid(),
            r.model() == with_body(self.model(), BodyModel::Text(v@)),
    ;

    /// Attaches owned text as the body.
    fn string_body(self, s: String) -> (r: TeaWithBody<'a>)
        requires
            self.valid(),
        ensures
            r.valid(),
            r.model() == with_body(self.model(), BodyModel::Text(s@)),
    ;
}

/// A stage that describes a complete request.
pub trait TeaRequestInvoker: Constructable {
    /// The request to hand to the host's fetch: a fresh copy of the stage's
    /// request with its options laid over it, or the host's error where it
    /// cannot copy or combine them. The stage itself is left as it is, so
    /// each call makes a request of its own, describing the same request.
    fn outbound_request(&self) -> (r: Result<Outbound, TeaError>)
        requires
            self.valid(),
        ensures
            r matches Ok(q) ==> q.record() == sent_of(self.model()),
            r matches Err(e) ==> e is JSErr,
    ;
}

/// The options stage: verb and URL fixed, headers open to change, no body.
pub struct TeaBuilder<'a> {
    base: TeaRequest<'a>,
    native: HostRequest,
}

/// What a factory owes: on success a stage that describes a fresh request;
/// on failure the host's error.
pub open spec fn starts_request<'a>(
    r: Result<TeaBuilder<'a>, TeaError>,
    method: Method,
    url: Seq<char>,
) -> bool {
    match r {
        Ok(b) => b.valid() && b.model() == fresh_model(method, url),
        Err(e) => e is JSErr,
    }
}

impl<'a> TeaBuilder<'a> {
    /// Starts a stage for `base` from the host's answer to the request for
    /// its URL: the stage where the host made one, the host's error where it
    /// rejected the URL.
    pub fn from_host(base: TeaRequest<'a>, host: Result<HostRequest, wasm_bindgen::JsValue>) -> (r:
        Result<TeaBuilder<'a>, TeaError>)
        requires
            host matches Ok(q) ==> q.record() == (crate::native::RequestRecord {
                url: base.spec_url(),
                headers: Seq::empty(),
            }),
        ensures
            host matches Err(e) ==> r == Err::<TeaBuilder<'a>, TeaError>(TeaError::JSErr(e)),
            host is Ok ==> r is Ok,
            starts_request(r, base.spec_method(), base.spec_url()),
    {
        match host {
            Ok(native) => Ok(TeaBuilder { base, native }),
            Err(e) => Err(TeaError::JSErr(e)),
        }
    }

    /// Starts a stage for `base`: the host makes a request for its URL.
    /// Fails with the host's error where it rejects the URL.
    pub fn new(base: TeaRequest<'a>) -> (r: Result<TeaBuilder<'a>, TeaError>)
        ensures
            starts_request(r, base.spec_method(), base.spec_url()),
    {
        let host = HostRequest::for_url(base.url());
        TeaBuilder::from_host(base, host)
    }

    /// The verb and URL the chain started with.
    pub fn intent(&self) -> (r: &TeaRequest<'a>)
        requires
            self.valid(),
        ensures
            r.spec_method() == self.model().method,
            r.spec_url() == self.model().url,
    {
        &self.base
    }

    /// A fresh copy of the host's request, for one dispatch.
    fn base_request(&self) -> (r: Result<HostRequest, TeaError>)
        ensures
            r matches Ok(q) ==> q.record() == self.native.record(),
            r matches Err(e) ==> e is JSErr,
    {
        TeaError::from_host(self.native.copy())
    }

    /// The request made of a copy of this stage's request and `opts`.
    fn outbound_with(&self, opts: &HostInit) -> (r: Result<Outbound, TeaError>)
        ensures
            r matches Ok(q) ==> q.record() == crate::native::combine(
                self.native.record(),
                opts.record(),
            ),
            r matches Err(e) ==> e is JSErr,
    {
        let base = match self.base_request() {
            Ok(b) => b,
            Err(e) => return Err(e),
        };
        TeaError::from_host(base.with_init(opts))
    }
}

impl<'a> Constructable for TeaBuilder<'a> {
    closed spec fn model(&self) -> RequestModel {
        RequestModel {
            method: self.base.spec_method(),
            url: self.native.record().url,
            headers: self.native.record().headers,
            body: None,
        }
    }

    closed spec fn valid(&self) -> bool {
        names_unique(self.native.record().headers) && self.native.record().url
            == self.base.spec_url()
    }

    fn method_field(&self) -> (r: &'static str) {
        self.base.method().as_str()
    }

    fn init(&self) -> (r: HostInit) {
        let mut opts = HostInit::new();
        opts.set_method(self.method_field());
        opts
    }
}

impl<'a> TeaHeaderOwner for TeaBuilder<'a> {
    fn header(self, key: &str, value: &str) -> (r: Result<Self, TeaError>) {
        let mut this = self;
        match TeaError::from_host(this.native.set_header(key, value)) {
            Ok(()) => Ok(this),
            Err(e) => Err(e),
        }
    }
}

impl<'a> TeaRequestBuilder<'a> for TeaBuilder<'a> {
    fn slice_body(self, v: &'a [u8]) -> (r: TeaWithBody<'a>) {
        TeaWithBody(self, TeaBody::BorrowedSlice(v))
    }

    fn str_body(self, v: &'a str) -> (r: TeaWithBody<'a>) {
        TeaWithBody(self, TeaBody::BorrowedString(v))
    }

    fn string_body(self, s: String) -> (r: TeaWithBody<'a>) {
        TeaWithBody(self, TeaBody::CopiedString(s))
    }
}

impl<'a> TeaRequestInvoker for TeaBuilder<'a> {
    fn outbound_request(&self) -> (r: Result<Outbound, TeaError>) {
        let opts = self.init();
        self.outbound_with(&opts)
    }
}

/// The terminal stage: an options stage with its body attached.
pub struct TeaWithBody<'a>(TeaBuilder<'a>, TeaBody<'a>);

impl<'a> TeaWithBody<'a> {
    /// The attached body.
    pub fn body(&self) -> (r: &TeaBody<'a>)
        ensures
            self.model().body == Some(r.view()),
    {
        &self.1
    }

    /// The options stage the body was attached to.
    pub fn builder(&self) -> (r: &TeaBuilder<'a>)
        ensures
            self.model().body matches Some(b) && with_body(r.model(), b) == self.model(),
            r.valid() == self.valid(),
    {
        &self.0
    }

    /// Hands the body to the host's options as it is: bytes as a byte array,
    /// text as a string.
    fn write_body(&self, opts: &mut HostInit)
        ensures
            final(opts).record() == (InitRecord { body: Some(self.1.view()), ..old(opts).record() }),
    {
        match &self.1 {
            TeaBody::BorrowedSlice(slc) => opts.set_bytes_body(slc),
            TeaBody::BorrowedString(text) => opts.set_text_body(text),
            TeaBody::CopiedString(text) => opts.set_text_body(text.as_str()),
        }
    }
}

impl<'a> Constructable for TeaWithBody<'a> {
    closed spec fn model(&self) -> RequestModel {
        with_body(self.0.model(), self.1.view())
    }

    closed spec fn valid(&self) -> bool {
        self.0.valid()
    }

    fn method_field(&self) -> (r: &'static str) {
        self.0.method_field()
    }

    fn init(&self) -> (r: HostInit) {
        let mut opts = self.0.init();
        self.write_body(&mut opts);
        opts
    }
}

impl<'a> TeaRequestInvoker for TeaWithBody<'a> {
    fn outbound_request(&self) -> (r: Result<Outbound, TeaError>) {
        let opts = self.init();
        self.0.outbound_with(&opts)
    }
}

impl<'a> TeaRequest<'a> {
    /// Starts a request chain for `method` on `url`. Fails with the host's
    /// error where it rejects the URL.
    pub fn from_str(method: Method, url: &'a str) -> (r: Result<TeaBuilder<'a>, TeaError>)
        ensures
            starts_request(r, method, url@),
    {
        TeaBuilder::new(TeaRequest::new(method, url))
    }

    /// Starts a GET request on `url`.
    pub fn get(url: &'a str) -> (r: Result<TeaBuilder<'a>, TeaError>)
        ensures
            starts_request(r, Method::GET, url@),
    {
        Self::from_str(Method::GET, url)
    }

    /// Starts a HEAD request on `url`.
    pub fn head(url: &'a str) -> (r: Result<TeaBuilder<'a>, TeaError>)
        ensures
            starts_request(r, Method::HEAD, url@),
    {
        Self::from_str(Method::HEAD, url)
    }

    /// Starts a POST request on `url`.
    pub fn post(url: &'a str) -> (r: Result<TeaBuilder<'a>, TeaError>)
        ensures
            starts_request(r, Method::POST, url@),
    {
        Self::from_str(Method::POST, url)
    }

    /// Starts a PUT request on `url`.
    pub fn put(url: &'a str) -> (r: Result<TeaBuilder<'a>, TeaError>)
        ensures
            starts_request(r, Method::PUT, url@),
    {
        Self::from_str(Method::PUT, url)
    }

    /// Starts a DELETE request on `url`.
    pub fn delete(url: &'a str) -> (r: Result<TeaBuilder<'a>, TeaError>)
        ensures
            starts_request(r, Method::DELETE, url@),
    {
        Self::from_str(Method::DELETE, url)
    }

    /// Starts a CONNECT request on `url`.
    pub fn connect(url: &'a str) -> (r: Result<TeaBuilder<'a>, TeaError>)
        ensures
            starts_request(r, Method::CONNECT, url@),
    {
        Self::from_str(Method::CONNECT, url)
    }

    /// Starts an OPTIONS request on `url`.
    pub fn options(url: &'a str) -> (r: Result<TeaBuilder<'a>, TeaError>)
        ensures
            starts_request(r, Method::OPTIONS, url@),
    {
        Self::from_str(Method::OPTIONS, url)
    }

    /// Starts a TRACE request on `url`.
    pub fn trace(url: &'a str) -> (r: Result<TeaBuilder<'a>, TeaError>)
        ensures
            starts_request(r, Method::TRACE, url@),
    {
        Self::from_str(Method::TRACE, url)
    }

    /// Starts a PATCH request on `url`.
    pub fn patch(url: &'a str) -> (r: Result<TeaBuilder<'a>, TeaError>)
        ensures
            starts_request(r, Method::PATCH, url@),
    {
        Self::from_str(Method::PATCH, url)
    }
}

} // verus!
