//! Handles on the host's request objects, each with a record of what the
//! library has handed to the host through it.
use vstd::prelude::*;
use wasm_bindgen::JsValue;
use web_sys::{Request, RequestInit};

use crate::body::BodyModel;
use crate::headers::{lemma_set_keeps_unique, names_unique, set_header, HeaderModel};
use crate::host::{
    bytes_value, headers_set, init_new, init_set_body, init_set_method, request_clone,
    request_for_url, request_headers, request_with_init, text_value,
};

verus! {

/// What a host request was made with: the URL handed to the host for it, and
/// the headers the host accepted for it, in the order of the calls that set
/// them, each with its value as it was handed over. Header names compare
/// without regard to ASCII case, and setting a name again replaces its
/// value, as the host's header collection does; the host resolves the URL
/// and trims surrounding whitespace from values on its own side.
pub struct RequestRecord {
    pub url: Seq<char>,
    pub headers: Seq<HeaderModel>,
}

/// What a host options object was given: the method and the body, where set.
pub struct InitRecord {
    pub method: Option<Seq<char>>,
    pub body: Option<BodyModel>,
}

/// What an outbound request was made of: the method and body of the options
/// laid over a copy of a request, with that request's URL and headers.
pub struct SentRecord {
    pub method: Option<Seq<char>>,
    pub url: Seq<char>,
    pub headers: Seq<HeaderModel>,
    pub body: Option<BodyModel>,
}

/// The outbound request made of a request and options.
pub open spec fn combine(base: RequestRecord, init: InitRecord) -> SentRecord {
    SentRecord { method: init.method, url: base.url, headers: base.headers, body: init.body }
}

/// A host request still being built.
pub struct HostRequest {
    native: Request,
    record: Ghost<RequestRecord>,
}

impl HostRequest {
    pub closed spec fn record(&self) -> RequestRecord {
        self.record@
    }

    /// Asks the host for a request for `url`; hands back the host's error
    /// where it rejects the URL.
    pub fn for_url(url: &str) -> (r: Result<HostRequest, JsValue>)
        ensures
            r matches Ok(q) ==> q.record() == (RequestRecord { url: url@, headers: Seq::empty() }),
    {
        match request_for_url(url) {
            Ok(native) => Ok(
                HostRequest {
                    native,
                    record: Ghost(RequestRecord { url: url@, headers: Seq::empty() }),
                },
            ),
            Err(e) => Err(e),
        }
    }

    /// Sets header `name` to `value` on the host's request; hands back the
    /// host's error, and leaves the request as it was, where the host
    /// refuses the header.
    pub fn set_header(&mut self, name: &str, value: &str) -> (r: Result<(), JsValue>)
        requires
            names_unique(old(self).record().headers),
        ensures
            names_unique(final(self).record().headers),
            r is Ok ==> final(self).record() == (RequestRecord {
                url: old(self).record().url,
                headers: set_header(old(self).record().headers, name@, value@),
            }),
            r is Err ==> final(self).record() == old(self).record(),
    {
        match headers_set(&request_headers(&self.native), name, value) {
            Ok(()) => {
                proof {
                    lemma_set_keeps_unique(self.record@.headers, name@, value@);
                }
                self.record = Ghost(
                    RequestRecord {
                        url: self.record@.url,
                        headers: set_header(self.record@.headers, name@, value@),
                    },
                );
                Ok(())
            },
            Err(e) => Err(e),
        }
    }

    /// A fresh copy of the request from the host, or the host's error.
    pub fn copy(&self) -> (r: Result<HostRequest, JsValue>)
        ensures
            r matches Ok(q) ==> q.record() == self.record(),
    {
        match request_clone(&self.native) {
            Ok(native) => Ok(HostRequest { native, record: self.record }),
            Err(e) => Err(e),
        }
    }

    /// The outbound request made of this request and `init`, or the host's
    /// error where it refuses them.
    pub fn with_init(&self, init: &HostInit) -> (r: Result<Outbound, JsValue>)
        ensures
            r matches Ok(q) ==> q.record() == combine(self.record(), init.record()),
    {
        match request_with_init(&self.native, &init.native) {
            Ok(native) => Ok(
                Outbound { native, record: Ghost(combine(self.record@, init.record@)) },
            ),
            Err(e) => Err(e),
        }
    }
}

/// Host options for one dispatch.
pub struct HostInit {
    native: RequestInit,
    record: Ghost<InitRecord>,
}

impl HostInit {
    pub closed spec fn record(&self) -> InitRecord {
        self.record@
    }

    /// Empty options: no method, no body.
    pub fn new() -> (r: HostInit)
        ensures
            r.record() == (InitRecord { method: None, body: None }),
    {
        HostInit { native: init_new(), record: Ghost(InitRecord { method: None, body: None }) }
    }

    /// Sets the method field.
    pub fn set_method(&mut self, method: &str)
        ensures
            final(self).record() == (InitRecord { method: Some(method@), ..old(self).record() }),
    {
        init_set_method(&self.native, method);
        self.record = Ghost(InitRecord { method: Some(method@), ..self.record@ });
    }

    /// Sets the body field to a host byte array holding `bytes`.
    pub fn set_bytes_body(&mut self, bytes: &[u8])
        ensures
            final(self).record() == (InitRecord {
                body: Some(BodyModel::Bytes(bytes@)),
                ..old(self).record()
            }),
    {
        init_set_body(&self.native, &bytes_value(bytes));
        self.record = Ghost(InitRecord { body: Some(BodyModel::Bytes(bytes@)), ..self.record@ });
    }

    /// Sets the body field to a host string holding `text`.
    pub fn set_text_body(&mut self, text: &str)
        ensures
            final(self).record() == (InitRecord {
                body: Some(BodyModel::Text(text@)),
                ..old(self).record()
            }),
    {
        init_set_body(&self.native, &text_value(text));
        self.record = Ghost(InitRecord { body: Some(BodyModel::Text(text@)), ..self.record@ });
    }
}

/// A request ready to be handed to the host's fetch.
pub struct Outbound {
    native: Request,
    record: Ghost<SentRecord>,
}

impl Outbound {
    pub closed spec fn record(&self) -> SentRecord {
        self.record@
    }

    /// The host's request.
    pub fn request(&self) -> &Request {
        &self.native
    }
}

} // verus!
