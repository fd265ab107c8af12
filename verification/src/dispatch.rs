//! The handler contract and the two-stage adapter that presents one shared,
//! blocking handler to the engine: one `Lazy` per connection, one `Call` per
//! request. A `Call` is complete the first time it is polled: polling it
//! runs the handler on the polling thread and hands back the response.

use hyper::{Body, Request, Response};
use std::convert::Infallible;
use std::sync::Arc;
use vstd::prelude::*;

verus! {

/// `hyper::Request` (the `http` crate's request type), carried through
/// unread.
#[verifier::external_type_specification]
#[verifier::external_body]
#[verifier::reject_recursive_types(T)]
pub struct ExRequest<T>(Request<T>);

/// `hyper::Response` (the `http` crate's response type), carried through
/// unread.
#[verifier::external_type_specification]
#[verifier::external_body]
#[verifier::reject_recursive_types(T)]
pub struct ExResponse<T>(Response<T>);

/// `hyper::Body`, the engine's streaming body, carried through unread.
#[verifier::external_type_specification]
#[verifier::external_body]
pub struct ExBody(Body);

/// `Arc::clone`: another handle to the same allocation; no new value is
/// made, so the handle denotes what the given one denotes.
#[verifier::external_body]
fn share<S>(handler: &Arc<S>) -> (shared: Arc<S>)
    ensures
        shared == *handler,
{
    Arc::clone(handler)
}

/// A request handler: one blocking operation from request to response. It is
/// shared by every connection and may be called from many threads at once,
/// so whatever it mutates it must guard itself.
pub trait Service: Send + Sync + 'static {
    /// The requests on which `call` may be invoked: every request, unless
    /// the handler says otherwise.
    open spec fn accepts(&self, request: Request<Body>) -> bool {
        true
    }

    /// The responses that `call` may give to a request: any response, unless
    /// the handler says more.
    open spec fn answers(&self, request: Request<Body>, response: Response<Body>) -> bool {
        true
    }

    fn call(&self, request: Request<Body>) -> (response: Response<Body>)
        requires
            self.accepts(request),
        ensures
            self.answers(request, response),
    ;
}

impl<F> Service for F where
    F: Fn(Request<Body>) -> Response<Body> + Send + Sync + 'static,
 {
    open spec fn accepts(&self, request: Request<Body>) -> bool {
        self.requires((request,))
    }

    open spec fn answers(&self, request: Request<Body>, response: Response<Body>) -> bool {
        self.ensures((request,), response)
    }

    fn call(&self, request: Request<Body>) -> (response: Response<Body>) {
        (self)(request)
    }
}

/// The server-wide adapter: owns the handler's shared handle and makes one
/// `Lazy` for each accepted connection.
pub struct MakeService<S>(pub Arc<S>);

/// The per-connection adapter: makes one `Call` for each request.
pub struct Lazy<S>(Arc<S>);

/// The per-request unit: the handler's handle and the request that waits to
/// be answered. Polled once, it is spent.
pub struct Call<S>(Arc<S>, Option<Request<Body>>);

impl<S> MakeService<S> {
    /// The adapter that every connection of this server gets: it holds this
    /// server's handler.
    pub closed spec fn adapter(&self) -> Lazy<S> {
        Lazy(self.0)
    }

    /// Always ready: making a connection adapter needs no resource.
    pub fn poll_ready(&mut self) -> (ready: Result<(), Infallible>)
        ensures
            ready.is_ok(),
            *final(self) == *old(self),
    {
        Ok(())
    }

    /// The adapter for one connection. It shares this adapter's handler; the
    /// target that describes the connection is not looked at. Never fails.
    pub fn call<T>(&mut self, _target: T) -> (made: Result<Lazy<S>, Infallible>)
        ensures
            *final(self) == *old(self),
            made == Ok::<Lazy<S>, Infallible>(old(self).adapter()),
    {
        Ok(Lazy(share(&self.0)))
    }
}

impl<S> Lazy<S> {
    /// The handler that this connection shares.
    pub closed spec fn service(&self) -> Arc<S> {
        self.0
    }

    /// The unit that a request on this connection gets: it holds this
    /// connection's handler and the request, not yet answered.
    pub closed spec fn unit(&self, request: Request<Body>) -> Call<S> {
        Call(self.0, Some(request))
    }

    pub fn handler(&self) -> (handler: &Arc<S>)
        ensures
            *handler == self.service(),
    {
        &self.0
    }

    /// Always ready: a request can be taken at any time.
    pub fn poll_ready(&mut self) -> (ready: Result<(), Infallible>)
        ensures
            ready.is_ok(),
            *final(self) == *old(self),
    {
        Ok(())
    }

    /// The unit for one request: it holds the shared handler and the request,
    /// not yet answered.
    pub fn call(&mut self, request: Request<Body>) -> (unit: Call<S>)
        ensures
            *final(self) == *old(self),
            unit == old(self).unit(request),
    {
        Call(share(&self.0), Some(request))
    }
}

impl<S> Call<S> {
    /// The handler that will answer.
    pub closed spec fn service(&self) -> Arc<S> {
        self.0
    }

    /// The request that waits to be answered; `None` once the unit is spent.
    pub closed spec fn pending(&self) -> Option<Request<Body>> {
        self.1
    }

    pub fn handler(&self) -> (handler: &Arc<S>)
        ensures
            *handler == self.service(),
    {
        &self.0
    }

    /// Whether the unit has not been polled yet.
    pub fn is_pending(&self) -> (waiting: bool)
        ensures
            waiting == self.pending().is_some(),
    {
        self.1.is_some()
    }
}

impl<S: Service> Call<S> {
    /// Resolves the unit: takes the request out, calls the handler with it
    /// once, on the calling thread, and returns the handler's response as
    /// the finished result. The unit is spent afterwards and must not be
    /// polled again.
    pub fn poll(&mut self) -> (output: Result<Response<Body>, Infallible>)
        requires
            old(self).pending().is_some(),
            old(self).service().accepts(old(self).pending().unwrap()),
        ensures
            final(self).pending().is_none(),
            final(self).service() == old(self).service(),
            output matches Ok(response) && old(self).service().answers(
                old(self).pending().unwrap(),
                response,
            ),
    {
        let request = self.1.take().unwrap();
        Ok(self.0.call(request))
    }
}

/// One handler serves everything: the adapter of every connection, and the
/// unit of every request on it, hold the handler that the server holds. A
/// fresh unit holds its request, unanswered.
pub proof fn law_handler_is_shared<S>(make: MakeService<S>, request: Request<Body>)
    ensures
        make.adapter().service() == make.0,
        make.adapter().unit(request).service() == make.0,
        make.adapter().unit(request).pending() == Some(request),
{
}

} // verus!
