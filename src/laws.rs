//! What holds between serving directly, through ownership wrappers and
//! through an erased handle.

use std::sync::Arc;
use vstd::prelude::*;

use crate::boxed::BoxService;
use crate::service::{is_deterministic, Service};

verus! {

/// Erasing a deterministic service changes no outcome: where a handle serves
/// as the service does (as `boxed` and `BoxService::new` ensure), serving one
/// request directly and through the handle gives equal results.
pub proof fn lemma_erased_same_outcome<Request, S: Service<Request>>(
    s: S,
    b: BoxService<Request, S::Response, S::Error>,
    req: Request,
    direct: Result<S::Response, S::Error>,
    erased: Result<S::Response, S::Error>,
)
    requires
        is_deterministic(s),
        forall|r: Request, o: Result<S::Response, S::Error>|
            #[trigger] b.handles(r, o) == s.serves(r, o),
        s.serves(req, direct),
        b.handles(req, erased),
    ensures
        direct == erased,
{
}

/// A clone of a handle serves exactly as the handle it came from: both reach
/// the one shared service, so cloning brings in no state of its own.
pub proof fn lemma_clone_serves_alike<Request, Response, Error>(
    h: BoxService<Request, Response, Error>,
    c: BoxService<Request, Response, Error>,
    req: Request,
    out: Result<Response, Error>,
)
    requires
        c == h,
    ensures
        c.handles(req, out) == h.handles(req, out),
{
}

/// Erasing a handle again gives a handle that serves exactly as the first.
pub proof fn lemma_reboxed_serves_alike<Request, Response, Error>(
    h: BoxService<Request, Response, Error>,
    b: BoxService<Request, Response, Error>,
    req: Request,
    out: Result<Response, Error>,
)
    requires
        b == h,
    ensures
        b.handles(req, out) == h.handles(req, out),
{
}

/// A shared pointer, a reference that lives for the whole program and an
/// owning box around a service each serve exactly as the service itself.
pub proof fn lemma_wrappers_serve_alike<Request, S: Service<Request>>(
    s: S,
    shared: Arc<S>,
    global: &'static S,
    owned: Box<S>,
    req: Request,
    out: Result<S::Response, S::Error>,
)
    requires
        *shared == s,
        *global == s,
        *owned == s,
    ensures
        shared.serves(req, out) == s.serves(req, out),
        global.serves(req, out) == s.serves(req, out),
        owned.serves(req, out) == s.serves(req, out),
{
}

} // verus!
