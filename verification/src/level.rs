//! Severities and their emission policy.

use vstd::prelude::*;

verus! {

/// The severity of a diagnostic or of a sub-diagnostic.
#[derive(Clone, Copy, Debug, PartialEq, Eq, Structural, Hash)]
pub enum Level {
    /// An error after which compilation cannot go on.
    Fatal,
    /// An error; compilation goes on to collect more diagnostics but fails in the end.
    Error,
    /// A warning, which the user can switch off.
    Warning,
    /// A note attached to another diagnostic.
    Note,
    /// A suggestion attached to another diagnostic.
    Help,
    /// A note that is shown at most once in a run, whatever it is attached to.
    OnceNote,
    /// A suggestion that is shown at most once in a run, whatever it is attached to.
    OnceHelp,
    /// A diagnostic that is never shown.
    Allow,
}

impl Level {
    /// Whether a diagnostic of this level counts as an error.
    pub open spec fn spec_is_error(self) -> bool {
        self == Level::Fatal || self == Level::Error
    }

    /// Whether a sub-diagnostic of this level is shown once per run only.
    pub open spec fn spec_is_once(self) -> bool {
        self == Level::OnceNote || self == Level::OnceHelp
    }

    /// Whether a diagnostic of this level is dropped before anything is
    /// recorded of it, given whether warnings may be emitted.
    pub open spec fn spec_is_dropped(self, can_emit_warnings: bool) -> bool {
        self == Level::Allow || (self == Level::Warning && !can_emit_warnings)
    }

    /// Whether a diagnostic of this level counts as an error.
    #[verifier::when_used_as_spec(spec_is_error)]
    pub fn is_error(self) -> (r: bool)
        ensures
            r == self.spec_is_error(),
    {
        match self {
            Level::Fatal | Level::Error => true,
            _ => false,
        }
    }

    /// Whether a sub-diagnostic of this level is shown once per run only.
    #[verifier::when_used_as_spec(spec_is_once)]
    pub fn is_once(self) -> (r: bool)
        ensures
            r == self.spec_is_once(),
    {
        match self {
            Level::OnceNote | Level::OnceHelp => true,
            _ => false,
        }
    }

    /// Whether a diagnostic of this level is dropped before anything is
    /// recorded of it, given whether warnings may be emitted.
    #[verifier::when_used_as_spec(spec_is_dropped)]
    pub fn is_dropped(self, can_emit_warnings: bool) -> (r: bool)
        ensures
            r == self.spec_is_dropped(can_emit_warnings),
    {
        match self {
            Level::Allow => true,
            Level::Warning => !can_emit_warnings,
            _ => false,
        }
    }
}

} // verus!
