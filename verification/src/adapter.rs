//! The adapter and the deferred result of one invocation.

use crate::error::{Error, INTERNAL_ERROR};
use crate::poll::{Async, Poll};
use crate::response::Response;
use crate::status::{StatusCode, INTERNAL_SERVER_ERROR};
use std::marker::PhantomData;
use std::sync::Arc;
use vstd::prelude::*;

verus! {

/// Wraps a handler and answers its failures with responses whose status the
/// mapping `f` picks.
///
/// The adapter owns the handler; the mapping is shared, unchanged, with every
/// deferred result that the adapter hands out.
pub struct MapErr<T, E, F> {
    inner: T,
    f: Arc<F>,
    _p: PhantomData<E>,
}

/// The deferred result of one invocation: the handler's own deferred result
/// and the mapping of the adapter that made it.
pub struct ResponseFuture<T, E, F> {
    inner: T,
    f: Arc<F>,
    _p: PhantomData<E>,
}

/// What a deferred result delivers once the handler has resolved.
#[derive(Debug, PartialEq, Eq)]
pub enum Resolved<R, B> {
    /// The handler's own response, as the handler gave it.
    Passed(R),
    /// The response made up for a failure of the handler.
    Synthesized(Response<B>),
}

/// `Arc::clone`: one more handle to the same allocation, so the value behind
/// the new handle is the value behind `handle`. It gives up, by aborting the
/// process, only past `isize::MAX` handles to one allocation.
#[verifier::external_body]
fn share<F>(handle: &Arc<F>) -> (shared: Arc<F>)
    ensures
        shared == *handle,
{
    Arc::clone(handle)
}

/// What the adapter reports when the handler's readiness probe gave `inner`:
/// readiness and "not yet" as they are, any failure as an internal error.
pub open spec fn readiness<E>(inner: Poll<(), E>) -> Poll<(), Error> {
    match inner {
        Ok(ready) => Ok(ready),
        Err(_) => Err(Error { reason: INTERNAL_ERROR }),
    }
}

/// Whether `out` is a delivery for the handler outcome `inner` under the
/// mapping `f`: "not yet" stays "not yet", a success is handed on as it is, and
/// a failure becomes a successful empty response whose status `f` gives for it.
pub open spec fn resolution<R, B: Default, E, F: Fn(E) -> StatusCode>(
    f: F,
    inner: Poll<R, E>,
    out: Poll<Resolved<R, B>, Error>,
) -> bool {
    match inner {
        Ok(Async::NotReady) => out == Ok::<Async<Resolved<R, B>>, Error>(Async::NotReady),
        Ok(Async::Ready(response)) => out == Ok::<Async<Resolved<R, B>>, Error>(
            Async::Ready(Resolved::Passed(response)),
        ),
        Err(error) => {
            &&& out matches Ok(Async::Ready(Resolved::Synthesized(response)))
            &&& f.ensures((error,), response.status)
            &&& response.is_empty()
        },
    }
}

impl<T, E, F> MapErr<T, E, F> {
    /// The wrapped handler.
    pub closed spec fn handler(self) -> T {
        self.inner
    }

    /// The mapping from the handler's errors to statuses.
    pub closed spec fn mapping(self) -> F {
        *self.f
    }

    /// The wrapped handler.
    pub fn get_ref(&self) -> (inner: &T)
        ensures
            *inner == self.handler(),
    {
        &self.inner
    }

    /// The wrapped handler, to probe and to invoke. The mapping stays.
    pub fn get_mut(&mut self) -> (inner: &mut T)
        ensures
            *inner == old(self).handler(),
            final(self).handler() == *final(inner),
            final(self).mapping() == old(self).mapping(),
    {
        &mut self.inner
    }
}

impl<T, E, F: Fn(E) -> StatusCode> MapErr<T, E, F> {
    /// Wraps `inner`, with `f` to pick the status for each of its errors.
    pub fn new(inner: T, f: F) -> (adapter: Self)
        ensures
            adapter.handler() == inner,
            adapter.mapping() == f,
    {
        MapErr { inner, f: Arc::new(f), _p: PhantomData }
    }

    /// The adapter's readiness, given what the handler's own probe reported.
    ///
    /// A failure of the probe comes before any request, so no response can
    /// stand for it: it is reported as an internal error of the transport, and
    /// its cause is dropped.
    pub fn poll_ready(&self, inner: Poll<(), E>) -> (out: Poll<(), Error>)
        ensures
            out == readiness(inner),
    {
        match inner {
            Ok(ready) => Ok(ready),
            Err(_) => Err(Error::internal()),
        }
    }

    /// The deferred result of one invocation, given the deferred result
    /// `inner` that the handler returned for the request. It shares this
    /// adapter's mapping.
    pub fn call<U>(&self, inner: U) -> (future: ResponseFuture<U, E, F>)
        ensures
            future.handler() == inner,
            future.mapping() == self.mapping(),
    {
        ResponseFuture { inner, f: share(&self.f), _p: PhantomData }
    }
}

impl<T, E> MapErr<T, E, ()> {
    /// Wraps `inner` with the default mapping, which answers every error with
    /// 500, Internal Server Error.
    ///
    /// The default mapping's type has no name, so this constructor stands with
    /// the unit type in the mapping's place: `MapErr::<_, E, ()>::internal_error`.
    pub fn internal_error(inner: T) -> (adapter: MapErr<T, E, impl Fn(E) -> StatusCode>)
        ensures
            adapter.handler() == inner,
            forall|error: E| #[trigger] adapter.mapping().requires((error,)),
            forall|error: E, status: StatusCode| #[trigger]
                adapter.mapping().ensures((error,), status) ==> status@
                    == INTERNAL_SERVER_ERROR,
    {
        let default_map = |_error: E| -> (status: StatusCode)
            ensures
                status@ == INTERNAL_SERVER_ERROR,
            { StatusCode::internal_server_error() };
        MapErr::new(inner, default_map)
    }
}

impl<T, E, F> ResponseFuture<T, E, F> {
    /// The handler's deferred result.
    pub closed spec fn handler(self) -> T {
        self.inner
    }

    /// The mapping from the handler's errors to statuses.
    pub closed spec fn mapping(self) -> F {
        *self.f
    }

    /// The handler's deferred result.
    pub fn get_ref(&self) -> (inner: &T)
        ensures
            *inner == self.handler(),
    {
        &self.inner
    }

    /// The handler's deferred result, to poll. The mapping stays.
    pub fn get_mut(&mut self) -> (inner: &mut T)
        ensures
            *inner == old(self).handler(),
            final(self).handler() == *final(inner),
            final(self).mapping() == old(self).mapping(),
    {
        &mut self.inner
    }
}

impl<T, E, F: Fn(E) -> StatusCode> ResponseFuture<T, E, F> {
    /// What to deliver, given what polling the handler's deferred result gave.
    ///
    /// The result is never `Err`: the error type is there for the shape of the
    /// interface alone. The mapping is asked only for an error of the handler,
    /// and it must take that error.
    pub fn poll<R, B: Default>(&self, inner: Poll<R, E>) -> (out: Poll<Resolved<R, B>, Error>)
        requires
            inner matches Err(error) ==> self.mapping().requires((error,)),
        ensures
            resolution(self.mapping(), inner, out),
            out is Ok,
    {
        match inner {
            Ok(Async::NotReady) => Ok(Async::NotReady),
            Ok(Async::Ready(response)) => Ok(Async::Ready(Resolved::Passed(response))),
            Err(error) => {
                let status = (self.f)(error);
                Ok(Async::Ready(Resolved::Synthesized(Response::empty(status))))
            },
        }
    }
}

} // verus!
