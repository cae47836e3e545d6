//! The [`Service`] interface and its lifting through ownership wrappers.

use std::sync::Arc;
use vstd::prelude::*;

use crate::boxed::BoxService;

verus! {

/// Something that serves a request with a response or an error.
///
/// `serves(req, out)` holds when `out` is an outcome that serving `req` may
/// give. An implementer whose outcome depends on the request alone can make
/// this relation functional; one with internal state may allow several.
pub trait Service<Request>: Sized + Send + Sync + 'static {
    /// The type of response returned by the service.
    type Response: Send + 'static;

    /// The type of error returned by the service.
    type Error: Send + 'static;

    /// The outcomes that serving `req` may give. An implementer that states
    /// nothing promises nothing: every outcome may come.
    open spec fn serves(&self, req: Request, out: Result<Self::Response, Self::Error>) -> bool {
        true
    }

    /// Serves a response or an error for the given request.
    fn serve(&self, req: Request) -> (out: Result<Self::Response, Self::Error>)
        ensures
            self.serves(req, out),
    ;
}

/// A shared pointer serves exactly as the service it points to.
impl<S: Service<Request>, Request> Service<Request> for Arc<S> {
    type Response = S::Response;
    type Error = S::Error;

    open spec fn serves(&self, req: Request, out: Result<S::Response, S::Error>) -> bool {
        (**self).serves(req, out)
    }

    fn serve(&self, req: Request) -> (out: Result<S::Response, S::Error>) {
        (**self).serve(req)
    }
}

/// A reference that lives for the whole program serves exactly as the
/// service it refers to.
impl<S: Service<Request>, Request> Service<Request> for &'static S {
    type Response = S::Response;
    type Error = S::Error;

    open spec fn serves(&self, req: Request, out: Result<S::Response, S::Error>) -> bool {
        (**self).serves(req, out)
    }

    fn serve(&self, req: Request) -> (out: Result<S::Response, S::Error>) {
        (**self).serve(req)
    }
}

/// An owning box serves exactly as the service it holds.
impl<S: Service<Request>, Request> Service<Request> for Box<S> {
    type Response = S::Response;
    type Error = S::Error;

    open spec fn serves(&self, req: Request, out: Result<S::Response, S::Error>) -> bool {
        (**self).serves(req, out)
    }

    fn serve(&self, req: Request) -> (out: Result<S::Response, S::Error>) {
        (**self).serve(req)
    }
}

/// Serving any one request can give at most one outcome.
pub open spec fn is_deterministic<Request, S: Service<Request>>(s: S) -> bool {
    forall|req: Request, a: Result<S::Response, S::Error>, b: Result<S::Response, S::Error>|
        #[trigger] s.serves(req, a) && #[trigger] s.serves(req, b) ==> a == b
}

/// Erasing the type of a service.
pub trait ServiceExt<Request>: Service<Request> {
    /// Moves this service into a [`BoxService`] that serves as it does.
    fn boxed(self) -> (b: BoxService<Request, Self::Response, Self::Error>)
        ensures
            forall|req: Request, out: Result<Self::Response, Self::Error>|
                #[trigger] b.handles(req, out) == self.serves(req, out),
    ;
}

impl<Request, S: Service<Request>> ServiceExt<Request> for S {
    fn boxed(self) -> (b: BoxService<Request, S::Response, S::Error>) {
        BoxService::new(self)
    }
}

} // verus!
