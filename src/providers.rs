use vstd::prelude::*;
use wasm_bindgen::JsValue;
use web_sys::js_sys::Promise;
use web_sys::{Request, Response, Window, WorkerGlobalScope};

use crate::native::{Outbound, SentRecord};

use crate::error::TeaError;
use crate::host::{
    as_response, as_worker_scope, current_window, global_object, window_fetch, worker_fetch,
};

verus! {

/// The two kinds of fetch-capable global object.
#[derive(Debug, Clone, Copy, PartialEq, Eq, Structural)]
pub enum ProviderKind {
    MainThread,
    Worker,
}

/// Which global object serves fetches, given what the host says of itself
/// and whether a main-thread global is reachable: the main thread wins, a
/// worker comes next, and otherwise there is none.
pub open spec fn provider_for(is_web: bool, window_reachable: bool, is_worker: bool) -> Option<
    ProviderKind,
> {
    if is_web || window_reachable {
        Some(ProviderKind::MainThread)
    } else if is_worker {
        Some(ProviderKind::Worker)
    } else {
        None
    }
}

/// Picks the kind of global object that serves fetches.
pub fn select_provider(is_web: bool, window_reachable: bool, is_worker: bool) -> (r: Result<
    ProviderKind,
    TeaError,
>)
    ensures
        match provider_for(is_web, window_reachable, is_worker) {
            Some(k) => r == Ok::<ProviderKind, TeaError>(k),
            None => r == Err::<ProviderKind, TeaError>(TeaError::HellNoSuchProvider),
        },
{
    if is_web || window_reachable {
        Ok(ProviderKind::MainThread)
    } else if is_worker {
        Ok(ProviderKind::Worker)
    } else {
        Err(TeaError::HellNoSuchProvider)
    }
}

/// Fetches through a worker's global scope.
pub struct WorkerProvider(WorkerGlobalScope);

impl WorkerProvider {
    pub closed spec fn scope(&self) -> WorkerGlobalScope {
        self.0
    }

    /// Wraps a worker's global scope.
    pub fn new(scope: WorkerGlobalScope) -> (r: WorkerProvider)
        ensures
            r.scope() == scope,
    {
        WorkerProvider(scope)
    }

    /// Captures the running context's global scope, where it is a worker's.
    pub fn capture() -> (r: Option<WorkerProvider>) {
        match as_worker_scope(global_object()) {
            Some(scope) => Some(WorkerProvider(scope)),
            None => None,
        }
    }

    /// Starts a fetch of `request` from the worker.
    pub fn fetch(&self, request: &Request) -> Promise {
        worker_fetch(&self.0, request)
    }
}

/// Fetches through the main thread's window.
pub struct WindowProvider(Window);

impl WindowProvider {
    pub closed spec fn window(&self) -> Window {
        self.0
    }

    /// Wraps a main-thread window.
    pub fn new(window: Window) -> (r: WindowProvider)
        ensures
            r.window() == window,
    {
        WindowProvider(window)
    }

    /// Captures the main-thread window, where there is one.
    pub fn capture() -> (r: Option<WindowProvider>) {
        match current_window() {
            Some(window) => Some(WindowProvider(window)),
            None => None,
        }
    }

    /// Starts a fetch of `request` from the main thread.
    pub fn fetch(&self, request: &Request) -> Promise {
        window_fetch(&self.0, request)
    }
}

/// The global object that serves fetches in the running context.
pub enum FetchProviders {
    WorkerProvider(Box<WorkerProvider>),
    WindowProvider(Box<WindowProvider>),
}

impl FetchProviders {
    /// The kind of global object this provider fetches through.
    pub open spec fn kind(&self) -> ProviderKind {
        match self {
            FetchProviders::WorkerProvider(_) => ProviderKind::Worker,
            FetchProviders::WindowProvider(_) => ProviderKind::MainThread,
        }
    }

    /// The provider for the running context, given what the host says of
    /// itself and the global objects that could be captured: the main-thread
    /// window where the host is a web page or a window is reachable, else the
    /// worker scope where the host is a worker. Where the chosen global object
    /// could not be captured, or none is chosen, there is no provider.
    pub fn resolve(
        is_web: bool,
        window: Option<WindowProvider>,
        is_worker: bool,
        worker: Option<WorkerProvider>,
    ) -> (r: Result<FetchProviders, TeaError>)
        ensures
            match provider_for(is_web, window is Some, is_worker) {
                Some(ProviderKind::MainThread) => match window {
                    Some(w) => r matches Ok(FetchProviders::WindowProvider(p)) && *p == w,
                    None => r == Err::<FetchProviders, TeaError>(TeaError::HellNoSuchProvider),
                },
                Some(ProviderKind::Worker) => match worker {
                    Some(s) => r matches Ok(FetchProviders::WorkerProvider(p)) && *p == s,
                    None => r == Err::<FetchProviders, TeaError>(TeaError::HellNoSuchProvider),
                },
                None => r == Err::<FetchProviders, TeaError>(TeaError::HellNoSuchProvider),
            },
    {
        let reachable = window.is_some();
        match select_provider(is_web, reachable, is_worker) {
            Ok(ProviderKind::MainThread) => match window {
                Some(w) => Ok(FetchProviders::WindowProvider(Box::new(w))),
                None => Err(TeaError::HellNoSuchProvider),
            },
            Ok(ProviderKind::Worker) => match worker {
                Some(s) => Ok(FetchProviders::WorkerProvider(Box::new(s))),
                None => Err(TeaError::HellNoSuchProvider),
            },
            Err(e) => Err(e),
        }
    }

    /// Finds the provider for the running context, given the host's answers
    /// to "is this a web page" and "is this a worker".
    pub fn pls(is_web: bool, is_worker: bool) -> (r: Result<FetchProviders, TeaError>)
        ensures
            r matches Ok(p) ==> (p.kind() == ProviderKind::Worker ==> !is_web && is_worker),
            r matches Ok(p) ==> (!is_web && !is_worker ==> p.kind() == ProviderKind::MainThread),
            r matches Err(e) ==> e is HellNoSuchProvider,
    {
        let window = WindowProvider::capture();
        if is_web || window.is_some() {
            FetchProviders::resolve(is_web, window, is_worker, None)
        } else if is_worker {
            FetchProviders::resolve(is_web, window, is_worker, WorkerProvider::capture())
        } else {
            FetchProviders::resolve(is_web, window, is_worker, None)
        }
    }

    /// Starts a fetch of `request` through the captured global object.
    pub fn dispatch(&self, request: &Outbound) -> (r: Pending)
        ensures
            r.via() == self.kind(),
            r.sent() == request.record(),
    {
        match self {
            FetchProviders::WorkerProvider(p) => Pending {
                promise: p.fetch(request.request()),
                sent: Ghost(request.record()),
                via: Ghost(ProviderKind::Worker),
            },
            FetchProviders::WindowProvider(p) => Pending {
                promise: p.fetch(request.request()),
                sent: Ghost(request.record()),
                via: Ghost(ProviderKind::MainThread),
            },
        }
    }

    /// The outcome of a fetch, from what its promise settled to: a response,
    /// or the host's error where the promise was rejected or settled to
    /// something that is not a response.
    pub fn settle(outcome: Result<JsValue, JsValue>) -> (r: Result<Response, TeaError>)
        ensures
            outcome matches Err(e) ==> r == Err::<Response, TeaError>(TeaError::JSErr(e)),
            outcome matches Ok(v) ==> (r is Ok || r == Err::<Response, TeaError>(
                TeaError::JSErr(v),
            )),
    {
        match outcome {
            Ok(value) => TeaError::from_host(as_response(value)),
            Err(e) => Err(TeaError::JSErr(e)),
        }
    }
}

/// A fetch under way: the host's promise, with a record of the request it
/// was started for and of the kind of global object that started it.
pub struct Pending {
    promise: Promise,
    sent: Ghost<SentRecord>,
    via: Ghost<ProviderKind>,
}

impl Pending {
    /// The request the fetch was started for.
    pub closed spec fn sent(&self) -> SentRecord {
        self.sent@
    }

    /// The kind of global object the fetch was started through.
    pub closed spec fn via(&self) -> ProviderKind {
        self.via@
    }

    /// The host's promise, to be awaited.
    pub fn into_promise(self) -> Promise {
        self.promise
    }
}

} // verus!
