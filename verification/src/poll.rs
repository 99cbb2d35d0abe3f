//! What asking a handler, or a deferred result, can give.

use vstd::prelude::*;

verus! {

/// Whether a value is there yet.
#[derive(Debug, PartialEq, Eq)]
pub enum Async<T> {
    /// The value is there.
    Ready(T),
    /// The value is not there yet; ask again later.
    NotReady,
}

/// The outcome of one poll: a value or not yet, or a failure.
pub type Poll<T, E> = Result<Async<T>, E>;

} // verus!
