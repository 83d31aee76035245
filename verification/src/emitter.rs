//! Where diagnostics go once the context has decided to show them.

use vstd::prelude::*;
use crate::diagnostic::{Diagnostic, DiagnosticView, views_of};

verus! {

/// Renders diagnostics for the user. A context owns one emitter and is the only
/// one to call it.
pub trait Emitter {
    /// What this emitter has been given so far, oldest first.
    spec fn rendered(&self) -> Seq<DiagnosticView>;

    /// Renders one diagnostic. A failure to write is the emitter's own concern:
    /// to the context this call always succeeds.
    fn emit_diagnostic(&mut self, diagnostic: &Diagnostic)
        ensures
            final(self).rendered() == old(self).rendered().push(diagnostic@),
    ;
}

/// An emitter that keeps what it is given, for a caller to read later.
pub struct BufferEmitter {
    diagnostics: Vec<Diagnostic>,
}

impl BufferEmitter {
    /// An emitter that was given nothing yet.
    pub fn new() -> (e: BufferEmitter)
        ensures
            e.rendered() == Seq::<DiagnosticView>::empty(),
    {
        let e = BufferEmitter { diagnostics: Vec::new() };
        assert(e.rendered() =~= Seq::<DiagnosticView>::empty());
        e
    }

    /// How many diagnostics this emitter was given.
    pub fn len(&self) -> (n: usize)
        ensures
            n == self.rendered().len(),
    {
        self.diagnostics.len()
    }

    /// The diagnostic that this emitter was given at position `index`, counted
    /// from zero, or nothing where it was given fewer.
    pub fn get(&self, index: usize) -> (d: Option<&Diagnostic>)
        ensures
            index < self.rendered().len() ==> d.is_some() && d.unwrap()@ == self.rendered()[
                index as int],
            index >= self.rendered().len() ==> d.is_none(),
    {
        if index < self.diagnostics.len() {
            Some(&self.diagnostics[index])
        } else {
            None
        }
    }
}

impl Emitter for BufferEmitter {
    closed spec fn rendered(&self) -> Seq<DiagnosticView> {
        views_of(self.diagnostics@)
    }

    fn emit_diagnostic(&mut self, diagnostic: &Diagnostic) {
        let copy = diagnostic.duplicate();
        self.diagnostics.push(copy);
        assert(self.rendered() =~= old(self).rendered().push(diagnostic@));
    }
}

/// An emitter that hands each diagnostic to a function of the caller's, which
/// renders it where and how the caller wants. What it has handed over is kept
/// as a ghost record, which is all that the emitter knows of the rendering.
pub struct CallbackEmitter<F: Fn(&Diagnostic)> {
    render: F,
    given: Ghost<Seq<DiagnosticView>>,
}

impl<F: Fn(&Diagnostic)> CallbackEmitter<F> {
    #[verifier::type_invariant]
    spec fn accepts_every_diagnostic(&self) -> bool {
        forall|diagnostic: &Diagnostic| call_requires(self.render, (diagnostic,))
    }

    /// An emitter that renders with `render`, which takes every diagnostic.
    pub fn new(render: F) -> (e: Self)
        requires
            forall|diagnostic: &Diagnostic| call_requires(render, (diagnostic,)),
        ensures
            e.rendered() == Seq::<DiagnosticView>::empty(),
    {
        CallbackEmitter { render, given: Ghost(Seq::empty()) }
    }
}

impl<F: Fn(&Diagnostic)> Emitter for CallbackEmitter<F> {
    closed spec fn rendered(&self) -> Seq<DiagnosticView> {
        self.given@
    }

    fn emit_diagnostic(&mut self, diagnostic: &Diagnostic) {
        proof {
            use_type_invariant(&*self);
        }
        (self.render)(diagnostic);
        proof {
            self.given@ = self.given@.push(diagnostic@);
        }
    }
}

/// A boxed emitter renders as the emitter in the box does.
impl<T: Emitter + ?Sized> Emitter for Box<T> {
    open spec fn rendered(&self) -> Seq<DiagnosticView> {
        (**self).rendered()
    }

    fn emit_diagnostic(&mut self, diagnostic: &Diagnostic) {
        (**self).emit_diagnostic(diagnostic)
    }
}

/// An emitter of a kind that is chosen while the program runs.
pub type DynEmitter = dyn Emitter + Send;

} // verus!
