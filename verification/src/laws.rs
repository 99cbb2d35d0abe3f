//! What holds of many deferred results at once.

use crate::adapter::{resolution, Resolved, ResponseFuture};
use crate::error::Error;
use crate::poll::Poll;
use crate::status::StatusCode;
use vstd::prelude::*;

verus! {

/// Whether `outs` are deliveries of the deferred results `futures` for the
/// handler outcomes `inners`: one for each, each by its own future's mapping.
pub open spec fn resolutions<U, E, F: Fn(E) -> StatusCode, R, B: Default>(
    futures: Seq<ResponseFuture<U, E, F>>,
    inners: Seq<Poll<R, E>>,
    outs: Seq<Poll<Resolved<R, B>, Error>>,
) -> bool {
    &&& inners.len() == futures.len()
    &&& outs.len() == futures.len()
    &&& forall|i: int|
        0 <= i < futures.len() ==> resolution(
            (#[trigger] futures[i]).mapping(),
            inners[i],
            outs[i],
        )
}

/// Deferred results in flight together do not touch each other. Let any
/// number of them be delivered, each for its own handler outcome. Had one of
/// them, `k`, met another outcome `inner` and delivered `out` for it, all the
/// others would deliver just what they do: a delivery is fixed by its own
/// handler outcome and mapping, in whatever order the results resolve.
pub proof fn lemma_resolutions_do_not_interfere<U, E, F: Fn(E) -> StatusCode, R, B: Default>(
    futures: Seq<ResponseFuture<U, E, F>>,
    inners: Seq<Poll<R, E>>,
    outs: Seq<Poll<Resolved<R, B>, Error>>,
    k: int,
    inner: Poll<R, E>,
    out: Poll<Resolved<R, B>, Error>,
)
    requires
        resolutions(futures, inners, outs),
        0 <= k < futures.len(),
        resolution(futures[k].mapping(), inner, out),
    ensures
        resolutions(futures, inners.update(k, inner), outs.update(k, out)),
        forall|i: int| 0 <= i < futures.len() && i != k ==> outs.update(k, out)[i] == outs[i],
{
}

/// Deferred results that share a mapping, as those of one adapter do, deliver
/// alike: what one of them may deliver for a handler outcome, each of them may,
/// whatever handler's result it holds.
pub proof fn lemma_shared_mapping_resolves_alike<U, V, E, F: Fn(E) -> StatusCode, R, B: Default>(
    first: ResponseFuture<U, E, F>,
    second: ResponseFuture<V, E, F>,
    inner: Poll<R, E>,
    out: Poll<Resolved<R, B>, Error>,
)
    requires
        first.mapping() == second.mapping(),
    ensures
        resolution(first.mapping(), inner, out) <==> resolution(second.mapping(), inner, out),
{
}

} // verus!
