//! Guarded disposal of unwinding payloads.
//!
//! The decisions of a panic boundary are modelled explicitly: a driver runs
//! the work, finalizes values and inspects payloads, and hands each outcome
//! to the functions here, which say what must happen next.
pub mod capture;
pub mod dispose;
pub mod inspect;
pub mod payload;

pub use capture::{catch_unwind_or_abort, catch_unwind_or_forget, catch_unwind_wrapped};
pub use dispose::{drop_or_abort, drop_or_else, drop_or_forget, settle, Disposal, Finalized, OnFault, Settled};
pub use inspect::{catch_unwind_with, dispose_as, Disposition, Verdict};
pub use payload::Payload;
