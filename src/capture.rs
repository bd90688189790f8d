use vstd::prelude::*;

use crate::dispose::{disposal_of, settled, Disposal, Finalized, OnFault, Settled};
use crate::payload::Payload;

verus! {

/// What a boundary owes once its work is over: the work's result, or the
/// disposal of the payload that interrupted it.
pub open spec fn captured<R, P>(on_fault: OnFault, run: Result<R, P>) -> Result<R, Disposal<P>> {
    match run {
        Ok(v) => Ok(v),
        Err(p) => Err(disposal_of(p, on_fault)),
    }
}

/// What a wrapping boundary returns, with each carrier shown by its state.
pub open spec fn wrapped<R, P>(run: Result<R, P>) -> Result<R, Option<P>> {
    match run {
        Ok(v) => Ok(v),
        Err(p) => Err(Some(p)),
    }
}

/// A boundary's result, with a carrier shown by its state.
pub open spec fn carried<R, P>(r: Result<R, Payload<P>>) -> Result<R, Option<P>> {
    match r {
        Ok(v) => Ok(v),
        Err(c) => Err(c@),
    }
}

/// Takes the outcome of a unit of work run under a boundary. A result is
/// passed on; an interruption's payload is to be finalized, and if that
/// raises, the process terminates. The boundary then returns no result.
pub fn catch_unwind_or_abort<R, P>(run: Result<R, P>) -> (r: Result<R, Disposal<P>>)
    ensures
        r == captured(OnFault::Abort, run),
{
    match run {
        Ok(v) => Ok(v),
        Err(p) => Err(crate::dispose::drop_or_abort(p)),
    }
}

/// Takes the outcome of a unit of work run under a boundary. A result is
/// passed on; an interruption's payload is to be finalized, and if that
/// raises, the new payload is leaked. The boundary then returns no result.
pub fn catch_unwind_or_forget<R, P>(run: Result<R, P>) -> (r: Result<R, Disposal<P>>)
    ensures
        r == captured(OnFault::Forget, run),
{
    match run {
        Ok(v) => Ok(v),
        Err(p) => Err(crate::dispose::drop_or_forget(p)),
    }
}

/// Takes the outcome of a unit of work run under a boundary, and wraps an
/// interruption's payload in a carrier for the caller to decide on.
pub fn catch_unwind_wrapped<R, P>(run: Result<R, P>) -> (r: Result<R, Payload<P>>)
    ensures
        carried(r) == wrapped(run),
{
    match run {
        Ok(v) => Ok(v),
        Err(p) => Err(Payload::new(p)),
    }
}

/// Work that completes normally has its result passed on unchanged by every
/// boundary, and no payload is made.
pub proof fn lemma_completed_work_passes_through<R, P>(v: R)
    ensures
        captured(OnFault::Abort, Ok::<R, P>(v)) == Ok::<R, Disposal<P>>(v),
        captured(OnFault::Forget, Ok::<R, P>(v)) == Ok::<R, Disposal<P>>(v),
        wrapped(Ok::<R, P>(v)) == Ok::<R, Option<P>>(v),
{
}

/// When work raises `p` and finalizing `p` raises `q`, the aborting boundary
/// terminates the process and the forgetting one leaks `q`, whose own
/// finalizer therefore never runs; neither hands back a result.
pub proof fn lemma_faulting_payload<R, P>(p: P, q: P)
    ensures
        captured(OnFault::Abort, Err::<R, P>(p)) is Err,
        captured(OnFault::Abort, Err::<R, P>(p))->Err_0.value == p,
        settled(captured(OnFault::Abort, Err::<R, P>(p))->Err_0.on_fault, Finalized::Raised(q))
            == Settled::Abort(q),
        captured(OnFault::Forget, Err::<R, P>(p)) is Err,
        captured(OnFault::Forget, Err::<R, P>(p))->Err_0.value == p,
        settled(captured(OnFault::Forget, Err::<R, P>(p))->Err_0.on_fault, Finalized::Raised(q))
            == Settled::Leak(q),
{
}

} // verus!
