use vstd::prelude::*;

verus! {

/// What is done with a secondary payload, raised while a value is finalized.
#[derive(Clone, Copy, Debug, PartialEq, Eq, Structural)]
pub enum OnFault {
    /// Terminate the process without finalizing the secondary payload.
    Abort,
    /// Leak the secondary payload: its finalizer never runs.
    Forget,
}

/// How the finalization of a value came out, as seen by the boundary that ran it.
#[derive(Debug, PartialEq, Eq)]
pub enum Finalized<P> {
    /// The finalizer completed normally.
    Completed,
    /// The finalizer raised an interruption carrying this payload.
    Raised(P),
}

/// A request to finalize `value` under a boundary, with `on_fault` applied to
/// whatever the finalization raises.
#[derive(Debug, PartialEq, Eq)]
pub struct Disposal<T> {
    pub value: T,
    pub on_fault: OnFault,
}

/// What the driver must do once a guarded finalization is over.
#[derive(Debug, PartialEq, Eq)]
pub enum Settled<P> {
    /// Nothing: the value is gone and control returns normally.
    Done,
    /// Terminate the process; the secondary payload is never finalized.
    Abort(P),
    /// Leak the secondary payload and return normally.
    Leak(P),
}

/// The disposal of `value` under the policy `on_fault`.
pub open spec fn disposal_of<T>(value: T, on_fault: OnFault) -> Disposal<T> {
    Disposal { value, on_fault }
}

/// The step that follows a guarded finalization that came out as `outcome`.
pub open spec fn settled<P>(on_fault: OnFault, outcome: Finalized<P>) -> Settled<P> {
    match outcome {
        Finalized::Completed => Settled::Done,
        Finalized::Raised(p) => match on_fault {
            OnFault::Abort => Settled::Abort(p),
            OnFault::Forget => Settled::Leak(p),
        },
    }
}

/// Requests the finalization of `value`; an interruption raised by it
/// terminates the process.
pub fn drop_or_abort<T>(value: T) -> (r: Disposal<T>)
    ensures
        r == disposal_of(value, OnFault::Abort),
{
    Disposal { value, on_fault: OnFault::Abort }
}

/// Requests the finalization of `value`; an interruption raised by it is
/// leaked.
pub fn drop_or_forget<T>(value: T) -> (r: Disposal<T>)
    ensures
        r == disposal_of(value, OnFault::Forget),
{
    Disposal { value, on_fault: OnFault::Forget }
}

/// Applies the policy `on_fault` to the outcome of a guarded finalization.
pub fn settle<P>(on_fault: OnFault, outcome: Finalized<P>) -> (r: Settled<P>)
    ensures
        r == settled(on_fault, outcome),
{
    match outcome {
        Finalized::Completed => Settled::Done,
        Finalized::Raised(p) => match on_fault {
            OnFault::Abort => Settled::Abort(p),
            OnFault::Forget => Settled::Leak(p),
        },
    }
}

/// Turns the outcome of a guarded finalization into a `Result`: `Ok` when the
/// finalizer completed, else the error that `or_else` makes of the secondary
/// payload.
pub fn drop_or_else<P, E, F: FnOnce(P) -> E>(outcome: Finalized<P>, or_else: F) -> (r: Result<(), E>)
    requires
        forall|p: P| #[trigger] or_else.requires((p,)),
    ensures
        match outcome {
            Finalized::Completed => r is Ok,
            Finalized::Raised(p) => r is Err && or_else.ensures((p,), r->Err_0),
        },
{
    match outcome {
        Finalized::Completed => Ok(()),
        Finalized::Raised(p) => Err(or_else(p)),
    }
}

/// A value whose finalizer completes is disposed of without abort or leak,
/// whichever policy was asked for.
pub proof fn lemma_clean_finalization_settles<P>(on_fault: OnFault)
    ensures
        settled(on_fault, Finalized::<P>::Completed) == Settled::<P>::Done,
{
}

} // verus!
