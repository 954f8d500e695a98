//! The host's object model, seen from the library: opaque handles, and the
//! calls into the host that the builder and the providers make.
use vstd::prelude::*;
use wasm_bindgen::JsCast;
use wasm_bindgen::JsValue;
use web_sys::js_sys::{Object, Promise, Uint8Array};
use web_sys::{Headers, Request, RequestInit, Response, Window, WorkerGlobalScope};

verus! {

#[verifier::external_type_specification]
#[verifier::external_body]
pub struct ExJsValue(JsValue);

#[verifier::external_type_specification]
#[verifier::external_body]
#[verifier::reject_recursive_types(T)]
pub struct ExObject<T>(Object<T>);

#[verifier::external_type_specification]
#[verifier::external_body]
#[verifier::reject_recursive_types(T)]
pub struct ExPromise<T>(Promise<T>);

#[verifier::external_type_specification]
#[verifier::external_body]
pub struct ExHeaders(Headers);

#[verifier::external_type_specification]
#[verifier::external_body]
pub struct ExRequest(Request);

#[verifier::external_type_specification]
#[verifier::external_body]
pub struct ExRequestInit(RequestInit);

#[verifier::external_type_specification]
#[verifier::external_body]
pub struct ExResponse(Response);

#[verifier::external_type_specification]
#[verifier::external_body]
pub struct ExWindow(Window);

#[verifier::external_type_specification]
#[verifier::external_body]
pub struct ExWorkerGlobalScope(WorkerGlobalScope);

/// Relies on web_sys::Request::new_with_str: a request for `url`, or the
/// host's error where it rejects the URL.
#[verifier::external_body]
pub(crate) fn request_for_url(url: &str) -> Result<Request, JsValue> {
    Request::new_with_str(url)
}

/// Relies on web_sys::Request::headers: the request's live header collection.
#[verifier::external_body]
pub(crate) fn request_headers(request: &Request) -> Headers {
    request.headers()
}

/// Relies on web_sys::Headers::set: sets one header, or hands back the host's
/// error where it refuses the name or the value.
#[verifier::external_body]
pub(crate) fn headers_set(headers: &Headers, name: &str, value: &str) -> Result<(), JsValue> {
    headers.set(name, value)
}

/// Relies on web_sys::Request::clone: a fresh copy of the request, or the
/// host's error where it cannot be copied.
#[verifier::external_body]
pub(crate) fn request_clone(request: &Request) -> Result<Request, JsValue> {
    Request::clone(request)
}

/// Relies on web_sys::Request::new_with_request_and_init: a request made of
/// `request` with the fields of `init` laid over it, or the host's error.
#[verifier::external_body]
pub(crate) fn request_with_init(request: &Request, init: &RequestInit) -> Result<Request, JsValue> {
    Request::new_with_request_and_init(request, init)
}

/// Relies on web_sys::RequestInit::new: an empty options object.
#[verifier::external_body]
pub(crate) fn init_new() -> RequestInit {
    RequestInit::new()
}

/// Relies on web_sys::RequestInit::set_method: sets the options' method field.
#[verifier::external_body]
pub(crate) fn init_set_method(init: &RequestInit, method: &str) {
    init.set_method(method)
}

/// Relies on web_sys::RequestInit::set_body: sets the options' body field.
#[verifier::external_body]
pub(crate) fn init_set_body(init: &RequestInit, body: &JsValue) {
    init.set_body(body)
}

/// Relies on js_sys::Uint8Array's `From<&[u8]>`: a host byte array holding
/// the bytes, taken as a plain host value.
#[verifier::external_body]
pub(crate) fn bytes_value(bytes: &[u8]) -> JsValue {
    let array: Uint8Array = bytes.into();
    array.into()
}

/// Relies on wasm_bindgen::JsValue::from_str: a host string holding the text.
#[verifier::external_body]
pub(crate) fn text_value(text: &str) -> JsValue {
    JsValue::from_str(text)
}

/// Relies on wasm_bindgen::JsValue::as_string: the value's text where it is a
/// host string.
#[verifier::external_body]
pub(crate) fn host_text(value: &JsValue) -> Option<String> {
    value.as_string()
}

/// Relies on web_sys::window: the main-thread global, where there is one.
#[verifier::external_body]
pub(crate) fn current_window() -> Option<Window> {
    web_sys::window()
}

/// Relies on js_sys::global: the global object of the running context.
#[verifier::external_body]
pub(crate) fn global_object() -> Object {
    web_sys::js_sys::global()
}

/// Relies on wasm_bindgen's `JsCast::dyn_into`: the global as a worker scope,
/// where it is one.
#[verifier::external_body]
pub(crate) fn as_worker_scope(global: Object) -> Option<WorkerGlobalScope> {
    global.dyn_into::<WorkerGlobalScope>().ok()
}

/// Relies on wasm_bindgen's `JsCast::dyn_into`: the value as a response, or
/// the value handed back unchanged where it is not one.
#[verifier::external_body]
pub(crate) fn as_response(value: JsValue) -> (r: Result<Response, JsValue>)
    ensures
        r matches Err(v) ==> v == value,
{
    value.dyn_into::<Response>()
}

/// Relies on web_sys::Window::fetch_with_request: starts a fetch from the
/// main thread.
#[verifier::external_body]
pub(crate) fn window_fetch(window: &Window, request: &Request) -> Promise {
    window.fetch_with_request(request)
}

/// Relies on web_sys::WorkerGlobalScope::fetch_with_request: starts a fetch
/// from a worker.
#[verifier::external_body]
pub(crate) fn worker_fetch(scope: &WorkerGlobalScope, request: &Request) -> Promise {
    scope.fetch_with_request(request)
}

} // verus!
