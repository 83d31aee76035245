//! Tokens that say what came of emitting a diagnostic.

use vstd::prelude::*;

verus! {

/// Proof that an error was reported. Only a context makes one, and only when
/// it has counted an error, so a function that returns one has reported an
/// error through a context.
#[derive(Clone, Copy, Debug, PartialEq, Eq, Hash)]
pub struct ErrorGuaranteed(());

impl ErrorGuaranteed {
    /// The token; for the context alone, after it has counted an error.
    pub(crate) fn issued() -> ErrorGuaranteed {
        ErrorGuaranteed(())
    }
}

/// The signal that a fatal error was reported. Whoever receives one hands it
/// on unchanged, up to the one place that ends the run.
#[must_use]
#[derive(Debug, PartialEq, Eq, Hash)]
pub struct FatalAbort(());

impl FatalAbort {
    /// The signal; for the context alone, after it has counted a fatal error.
    pub(crate) fn raised() -> FatalAbort {
        FatalAbort(())
    }
}

} // verus!
