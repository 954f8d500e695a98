//! A builder-style HTTP request client for browser-like hosts: a request is
//! assembled step by step (verb and URL, headers, an optional body) and then
//! handed to whichever fetch-capable global object the host exposes, on the
//! main thread or in a worker.
//!
//! The stages form a typestate chain: a verb factory such as
//! [`TeaRequest::get`] gives a [`TeaBuilder`], whose headers can be set and
//! which can be dispatched as it is, or which takes one body and becomes a
//! [`TeaWithBody`]. Each stage stands for a [`RequestModel`]: the verb it
//! was started with, the URL and headers handed to the host's request, and
//! the body. The contracts of the steps say how that changes, and the
//! contract of dispatch says that the request handed to the host's fetch is
//! made of exactly those parts.

pub mod body;
pub mod builder;
pub mod error;
pub mod headers;
pub mod host;
pub mod method;
pub mod native;
pub mod providers;

pub use body::{BodyModel, TeaBody};
pub use builder::{
    Constructable, RequestModel, TeaBuilder, TeaHeaderOwner, TeaRequestBuilder,
    TeaRequestInvoker, TeaWithBody,
};
pub use error::{render_host_error, TeaError};
pub use method::{Method, TeaRequest};
pub use native::{HostInit, HostRequest, Outbound};
pub use providers::{
    select_provider, FetchProviders, Pending, ProviderKind, WindowProvider, WorkerProvider,
};
pub use web_sys;
