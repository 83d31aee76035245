//! Diagnostic reporting for a compiler front end.
//!
//! Every error, warning, note and help message passes through a [`DiagCtxt`],
//! which decides whether the message is shown, counts it, and hands a token to
//! the caller when an error was reported.

pub mod builder;
pub mod context;
pub mod diagnostic;
pub mod emitter;
pub mod guarantee;
pub mod hashing;
pub mod laws;
pub mod level;

pub use builder::{DiagnosticBuilder, EmissionGuarantee};
pub use context::{CtxtState, DiagCtxt, DiagCtxtInner};
pub use diagnostic::{Diagnostic, DiagnosticView};
pub use emitter::{BufferEmitter, CallbackEmitter, DynEmitter, Emitter};
pub use guarantee::{ErrorGuaranteed, FatalAbort};
pub use level::Level;
