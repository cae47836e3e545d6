//! [`BoxService`]: a service whose concrete type is erased.

use std::sync::Arc;
use vstd::prelude::*;

use crate::service::Service;

verus! {

/// Serving through a pointer whose concrete type is unknown.
///
/// Every [`Service`] has it; [`BoxService`] holds a value of it and talks to
/// nothing else.
trait DynService<Request, Response, Error>: Send + Sync {
    spec fn dyn_serves(&self, req: Request, out: Result<Response, Error>) -> bool;

    fn serve_dyn(&self, req: Request) -> (out: Result<Response, Error>)
        ensures
            self.dyn_serves(req, out),
    ;
}

impl<Request, T: Service<Request>> DynService<Request, T::Response, T::Error> for T {
    closed spec fn dyn_serves(&self, req: Request, out: Result<T::Response, T::Error>) -> bool {
        self.serves(req, out)
    }

    fn serve_dyn(&self, req: Request) -> (out: Result<T::Response, T::Error>) {
        self.serve(req)
    }
}

/// A service whose concrete type is erased, for where dynamic dispatch is
/// needed.
///
/// Clones share the one service they were made from.
#[verifier::reject_recursive_types(Request)]
#[verifier::reject_recursive_types(Response)]
#[verifier::reject_recursive_types(Error)]
pub struct BoxService<Request, Response, Error> {
    inner: Arc<Box<dyn DynService<Request, Response, Error>>>,
}

impl<Request, Response, Error> BoxService<Request, Response, Error> {
    /// The outcomes that serving `req` through this handle may give.
    pub closed spec fn handles(&self, req: Request, out: Result<Response, Error>) -> bool {
        (**self.inner).dyn_serves(req, out)
    }

    /// Creates a new [`BoxService`] from the given service.
    pub fn new<T: Service<Request, Response = Response, Error = Error>>(service: T) -> (b: Self)
        ensures
            forall|req: Request, out: Result<Response, Error>|
                #[trigger] b.handles(req, out) == service.serves(req, out),
    {
        let erased: Box<dyn DynService<Request, Response, Error>> = Box::new(service);
        let inner = Arc::new(erased);
        assert(forall|req: Request, out: Result<Response, Error>|
            #[trigger] (**inner).dyn_serves(req, out) == service.serves(req, out));
        BoxService { inner }
    }

    /// How the handle shows itself in diagnostics: by its type's name alone,
    /// since the service inside is not open to inspection.
    pub fn render(&self) -> (s: String)
        ensures
            s@ == "BoxService"@,
    {
        "BoxService".to_owned()
    }

    /// This handle itself: erasing an erased service again adds nothing.
    pub fn boxed(self) -> (b: Self)
        ensures
            b == self,
    {
        self
    }
}

/// Relies on `Arc::clone`, which makes another pointer to the same
/// allocation: the new pointer holds the same value.
#[verifier::external_body]
fn share<T>(a: &Arc<T>) -> (r: Arc<T>)
    ensures
        r == *a,
{
    Arc::clone(a)
}

impl<Request, Response, Error> Clone for BoxService<Request, Response, Error> {
    /// Another handle on the same service; the service itself is shared, not
    /// copied.
    fn clone(&self) -> (c: Self)
        ensures
            c == *self,
    {
        BoxService { inner: share(&self.inner) }
    }
}

impl<Request: 'static, Response: Send + 'static, Error: Send + 'static> Service<Request> for BoxService<
    Request,
    Response,
    Error,
> {
    type Response = Response;
    type Error = Error;

    open spec fn serves(&self, req: Request, out: Result<Response, Error>) -> bool {
        self.handles(req, out)
    }

    fn serve(&self, req: Request) -> (out: Result<Response, Error>) {
        (**self.inner).serve_dyn(req)
    }
}

} // verus!
