//! Builders: a diagnostic under construction, and what finalizing it returns.

use vstd::prelude::*;
use core::marker::PhantomData;
use crate::context::{CtxtState, DiagCtxt};
use crate::diagnostic::{Diagnostic, DiagnosticView};
use crate::emitter::Emitter;
use crate::guarantee::{ErrorGuaranteed, FatalAbort};
use crate::level::Level;

verus! {

/// Selects what finalizing a [`DiagnosticBuilder`] returns.
pub trait EmissionGuarantee: Sized {
    /// What [`DiagnosticBuilder::emit`] returns.
    type EmitResult;

    /// The levels that a builder with this guarantee may have.
    spec fn admits(level: Level) -> bool;

    /// Emits the builder's diagnostic with the context and returns what this
    /// guarantee stands for.
    fn emit_producing_guarantee<E: Emitter>(
        db: DiagnosticBuilder<Self>,
        dcx: &mut DiagCtxt<E>,
    ) -> (result: Self::EmitResult)
        requires
            Self::admits(db@.level),
            old(dcx)@.wf(),
            old(dcx)@.has_room(db@.level),
        ensures
            final(dcx)@ == old(dcx)@.emit(db@),
            final(dcx)@.wf(),
    ;
}

/// A diagnostic that is being put together. Sub-diagnostics are attached to
/// it, then [`emit`](DiagnosticBuilder::emit) hands it to a context.
#[must_use]
pub struct DiagnosticBuilder<G> {
    diagnostic: Diagnostic,
    marker: PhantomData<G>,
}

impl<G> View for DiagnosticBuilder<G> {
    type V = DiagnosticView;

    closed spec fn view(&self) -> DiagnosticView {
        self.diagnostic@
    }
}

/// The diagnostic `d` with one more child behind the others, of the given
/// level and message and with nothing attached to it.
pub open spec fn with_sub(d: DiagnosticView, level: Level, message: Seq<char>) -> DiagnosticView {
    DiagnosticView {
        children: d.children.push(DiagnosticView { level, message, children: Seq::empty() }),
        ..d
    }
}

impl<G: EmissionGuarantee> DiagnosticBuilder<G> {
    /// The builder's level is one that its guarantee admits.
    pub open spec fn wf(&self) -> bool {
        G::admits(self@.level)
    }

    /// A builder for a diagnostic of the given level and message, with nothing
    /// attached.
    pub fn new(level: Level, message: String) -> (db: Self)
        requires
            G::admits(level),
        ensures
            db@ == (DiagnosticView { level, message: message@, children: Seq::empty() }),
            db.wf(),
    {
        DiagnosticBuilder { diagnostic: Diagnostic::new(level, message), marker: PhantomData }
    }

    /// The level of the diagnostic under construction.
    pub fn level(&self) -> (level: Level)
        ensures
            level == self@.level,
    {
        self.diagnostic.level
    }

    /// Attaches a note.
    pub fn note(self, message: String) -> (db: Self)
        ensures
            db@ == with_sub(self@, Level::Note, message@),
            self.wf() ==> db.wf(),
    {
        self.sub(Level::Note, message)
    }

    /// Attaches a suggestion.
    pub fn help(self, message: String) -> (db: Self)
        ensures
            db@ == with_sub(self@, Level::Help, message@),
            self.wf() ==> db.wf(),
    {
        self.sub(Level::Help, message)
    }

    /// Attaches a note that is shown once in a run only.
    pub fn note_once(self, message: String) -> (db: Self)
        ensures
            db@ == with_sub(self@, Level::OnceNote, message@),
            self.wf() ==> db.wf(),
    {
        self.sub(Level::OnceNote, message)
    }

    /// Attaches a suggestion that is shown once in a run only.
    pub fn help_once(self, message: String) -> (db: Self)
        ensures
            db@ == with_sub(self@, Level::OnceHelp, message@),
            self.wf() ==> db.wf(),
    {
        self.sub(Level::OnceHelp, message)
    }

    fn sub(self, level: Level, message: String) -> (db: Self)
        ensures
            db@ == with_sub(self@, level, message@),
            self.wf() ==> db.wf(),
    {
        let mut db = self;
        db.diagnostic.sub(level, message);
        db
    }

    /// Finalizes the builder: emits its diagnostic with the context, and
    /// returns what the guarantee stands for.
    pub fn emit<E: Emitter>(self, dcx: &mut DiagCtxt<E>) -> (result: G::EmitResult)
        requires
            self.wf(),
            old(dcx)@.wf(),
            old(dcx)@.has_room(self@.level),
        ensures
            final(dcx)@ == old(dcx)@.emit(self@),
            final(dcx)@.wf(),
    {
        G::emit_producing_guarantee(self, dcx)
    }

    /// Gives up the builder and hands out its diagnostic, which is not
    /// emitted.
    pub fn into_diagnostic(self) -> (diagnostic: Diagnostic)
        ensures
            diagnostic@ == self@,
    {
        self.diagnostic
    }
}

impl EmissionGuarantee for ErrorGuaranteed {
    type EmitResult = ErrorGuaranteed;

    open spec fn admits(level: Level) -> bool {
        level == Level::Error
    }

    fn emit_producing_guarantee<E: Emitter>(
        db: DiagnosticBuilder<Self>,
        dcx: &mut DiagCtxt<E>,
    ) -> (result: ErrorGuaranteed) {
        let mut diagnostic = db.diagnostic;
        match dcx.emit_diagnostic_without_consuming(&mut diagnostic) {
            Some(guarantee) => guarantee,
            None => vstd::pervasive::unreached(),
        }
    }
}

impl EmissionGuarantee for () {
    type EmitResult = ();

    open spec fn admits(level: Level) -> bool {
        true
    }

    fn emit_producing_guarantee<E: Emitter>(db: DiagnosticBuilder<Self>, dcx: &mut DiagCtxt<E>) -> (result: ()) {
        let mut diagnostic = db.diagnostic;
        let _ = dcx.emit_diagnostic_without_consuming(&mut diagnostic);
    }
}

impl EmissionGuarantee for FatalAbort {
    type EmitResult = FatalAbort;

    open spec fn admits(level: Level) -> bool {
        level == Level::Fatal
    }

    fn emit_producing_guarantee<E: Emitter>(
        db: DiagnosticBuilder<Self>,
        dcx: &mut DiagCtxt<E>,
    ) -> (result: FatalAbort) {
        let mut diagnostic = db.diagnostic;
        let _ = dcx.emit_diagnostic_without_consuming(&mut diagnostic);
        FatalAbort::raised()
    }
}

/// Diagnostic constructors.
impl<E: Emitter> DiagCtxt<E> {
    /// Creates a builder at the given `level` with the given `message`.
    pub fn diag<G: EmissionGuarantee>(&self, level: Level, message: String) -> (db:
        DiagnosticBuilder<G>)
        requires
            G::admits(level),
        ensures
            db@ == (DiagnosticView { level, message: message@, children: Seq::empty() }),
            db.wf(),
    {
        DiagnosticBuilder::new(level, message)
    }

    /// Creates a builder at the `Fatal` level with the given `message`.
    pub fn fatal(&self, message: String) -> (db: DiagnosticBuilder<FatalAbort>)
        ensures
            db@ == (DiagnosticView { level: Level::Fatal, message: message@, children: Seq::empty() }),
            db.wf(),
    {
        self.diag(Level::Fatal, message)
    }

    /// Creates a builder at the `Error` level with the given `message`.
    pub fn err(&self, message: String) -> (db: DiagnosticBuilder<ErrorGuaranteed>)
        ensures
            db@ == (DiagnosticView { level: Level::Error, message: message@, children: Seq::empty() }),
            db.wf(),
    {
        self.diag(Level::Error, message)
    }

    /// Creates a builder at the `Warning` level with the given `message`.
    ///
    /// Emitting the builder shows the warning only while the context emits
    /// warnings.
    pub fn warn(&self, message: String) -> (db: DiagnosticBuilder<()>)
        ensures
            db@ == (DiagnosticView { level: Level::Warning, message: message@, children: Seq::empty() }),
            db.wf(),
    {
        self.diag(Level::Warning, message)
    }

    /// Creates a builder at the `Help` level with the given `message`.
    pub fn help(&self, message: String) -> (db: DiagnosticBuilder<()>)
        ensures
            db@ == (DiagnosticView { level: Level::Help, message: message@, children: Seq::empty() }),
            db.wf(),
    {
        self.diag(Level::Help, message)
    }

    /// Creates a builder at the `Note` level with the given `message`.
    pub fn note(&self, message: String) -> (db: DiagnosticBuilder<()>)
        ensures
            db@ == (DiagnosticView { level: Level::Note, message: message@, children: Seq::empty() }),
            db.wf(),
    {
        self.diag(Level::Note, message)
    }
}

} // verus!
