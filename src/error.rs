use vstd::prelude::*;
use wasm_bindgen::JsValue;

use crate::host::host_text;

verus! {

/// What can go wrong: the host refused an operation, handing back its own
/// error value, or no fetch-capable global object could be found.
#[derive(Debug)]
pub enum TeaError {
    JSErr(JsValue),
    HellNoSuchProvider,
}

impl From<JsValue> for TeaError {
    fn from(value: JsValue) -> (r: TeaError)
        ensures
            r == TeaError::JSErr(value),
    {
        TeaError::JSErr(value)
    }
}

impl vstd::std_specs::convert::FromSpecImpl<JsValue> for TeaError {
    open spec fn obeys_from_spec() -> bool {
        true
    }

    open spec fn from_spec(value: JsValue) -> TeaError {
        TeaError::JSErr(value)
    }
}

/// The text shown for a host error whose value cannot be read as text.
pub open spec fn unstringable_text() -> Seq<char> {
    "Unstringable Error"@
}

/// The text shown when no fetch-capable global object was found.
pub open spec fn no_provider_text() -> Seq<char> {
    "where did y run this lib lol"@
}

/// The text shown for a host error, given what the host made of its value as
/// text.
pub open spec fn host_error_text(text: Option<Seq<char>>) -> Seq<char> {
    match text {
        Some(t) => t,
        None => unstringable_text(),
    }
}

/// Renders a host error from the host's own text for it, if it had one.
pub fn render_host_error(text: Option<String>) -> (r: String)
    ensures
        r@ == host_error_text(
            match text {
                Some(t) => Some(t@),
                None => None,
            },
        ),
{
    match text {
        Some(t) => t,
        None => "Unstringable Error".to_owned(),
    }
}

impl TeaError {
    /// The outcome of a host call, with the host's error value carried as it
    /// came back.
    pub fn from_host<T>(outcome: Result<T, JsValue>) -> (r: Result<T, TeaError>)
        ensures
            match outcome {
                Ok(x) => r == Ok::<T, TeaError>(x),
                Err(e) => r == Err::<T, TeaError>(TeaError::JSErr(e)),
            },
    {
        match outcome {
            Ok(x) => Ok(x),
            Err(e) => Err(TeaError::JSErr(e)),
        }
    }

    /// A readable message: the host's own text for its error where it has
    /// one, or a fixed text.
    pub fn message(&self) -> (r: String)
        ensures
            self is HellNoSuchProvider ==> r@ == no_provider_text(),
    {
        match self {
            TeaError::JSErr(value) => render_host_error(host_text(value)),
            TeaError::HellNoSuchProvider => "where did y run this lib lol".to_owned(),
        }
    }
}

} // verus!
