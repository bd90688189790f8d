use vstd::prelude::*;

use crate::dispose::{disposal_of, settled, Disposal, Finalized, OnFault, Settled};

verus! {

/// The caller's decision on an inspected payload.
#[derive(Clone, Copy, Debug, PartialEq, Eq, Structural)]
pub enum Disposition {
    /// Finalize it; terminate the process if that raises.
    DropOrAbort,
    /// Finalize it; leak whatever that raises.
    DropOrForget,
    /// Finalize it with no guard: what that raises propagates.
    DropOrUnwind,
    /// Raise the original interruption again, with the same payload.
    ResumeUnwind,
}

/// What the driver must do with an inspected payload.
#[derive(Debug, PartialEq, Eq)]
pub enum Verdict<P> {
    /// Finalize the payload under a boundary, as the disposal says.
    Dispose(Disposal<P>),
    /// Finalize the payload with no boundary around it.
    DropUnguarded(P),
    /// Raise an interruption carrying the payload.
    Resume(P),
    /// Terminate the process, leaving the payload unfinalized.
    Abort(P),
}

/// The verdict on `payload`, from what its inspection gave: `Some(d)` when
/// the inspection returned the disposition `d`, `None` when it raised.
pub open spec fn verdict<P>(payload: P, inspected: Option<Disposition>) -> Verdict<P> {
    match inspected {
        None => Verdict::Abort(payload),
        Some(Disposition::DropOrAbort) => Verdict::Dispose(disposal_of(payload, OnFault::Abort)),
        Some(Disposition::DropOrForget) => Verdict::Dispose(disposal_of(payload, OnFault::Forget)),
        Some(Disposition::DropOrUnwind) => Verdict::DropUnguarded(payload),
        Some(Disposition::ResumeUnwind) => Verdict::Resume(payload),
    }
}

/// Applies the outcome of inspecting `payload`. An inspection that raised
/// (`None`) is always fatal; otherwise the chosen disposition is carried out.
pub fn dispose_as<P>(payload: P, inspected: Option<Disposition>) -> (r: Verdict<P>)
    ensures
        r == verdict(payload, inspected),
{
    match inspected {
        None => Verdict::Abort(payload),
        Some(Disposition::DropOrAbort) => Verdict::Dispose(crate::dispose::drop_or_abort(payload)),
        Some(Disposition::DropOrForget) => Verdict::Dispose(crate::dispose::drop_or_forget(payload)),
        Some(Disposition::DropOrUnwind) => Verdict::DropUnguarded(payload),
        Some(Disposition::ResumeUnwind) => Verdict::Resume(payload),
    }
}

/// Takes the outcome of a unit of work run under a boundary. A result is
/// passed on and `inspect` is not called; an interruption's payload is shown
/// to `inspect` once, and the verdict follows from what it gave (`None` when
/// the inspection itself raised).
pub fn catch_unwind_with<R, P, I: FnOnce(&P) -> Option<Disposition>>(
    run: Result<R, P>,
    inspect: I,
) -> (r: Result<R, Verdict<P>>)
    requires
        forall|p: &P| #[trigger] inspect.requires((p,)),
    ensures
        match run {
            Ok(v) => r == Ok::<R, Verdict<P>>(v),
            Err(p) => exists|d: Option<Disposition>|
                #[trigger] inspect.ensures((&p,), d) && r == Err::<R, Verdict<P>>(verdict(p, d)),
        },
{
    match run {
        Ok(v) => Ok(v),
        Err(p) => {
            let inspected = inspect(&p);
            Err(dispose_as(p, inspected))
        },
    }
}

/// A payload inspected as `DropOrForget` is finalized under a boundary, and
/// what that finalization raises is leaked rather than finalized.
pub proof fn lemma_forget_leaks_fault<P>(p: P, q: P)
    ensures
        verdict(p, Some(Disposition::DropOrForget)) is Dispose,
        verdict(p, Some(Disposition::DropOrForget))->Dispose_0.value == p,
        settled(verdict(p, Some(Disposition::DropOrForget))->Dispose_0.on_fault, Finalized::Raised(q))
            == Settled::Leak(q),
{
}

/// A payload inspected as `ResumeUnwind` is raised again, unchanged.
pub proof fn lemma_resume_keeps_payload<P>(p: P)
    ensures
        verdict(p, Some(Disposition::ResumeUnwind)) == Verdict::Resume(p),
{
}

} // verus!
