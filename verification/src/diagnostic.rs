//! A diagnostic: one reportable problem with its attached sub-diagnostics.

use vstd::prelude::*;
use crate::level::Level;

verus! {

/// What a [`Diagnostic`] says: its level, its message and what is attached to
/// it, in order. Two diagnostics with the same view are the same diagnostic.
pub struct DiagnosticView {
    pub level: Level,
    pub message: Seq<char>,
    pub children: Seq<DiagnosticView>,
}

/// One reportable problem.
#[derive(Debug, Hash)]
pub struct Diagnostic {
    /// The severity.
    pub level: Level,
    /// The primary message.
    pub message: String,
    /// The attached sub-diagnostics, in the order in which they were attached.
    pub children: Vec<Diagnostic>,
}

/// What the diagnostic `d` says, with what its children say in place of them.
pub open spec fn content_of(d: Diagnostic) -> DiagnosticView
    decreases d,
{
    DiagnosticView {
        level: d.level,
        message: d.message@,
        children: Seq::new(
            d.children@.len(),
            |i: int|
                if 0 <= i < d.children@.len() {
                    content_of(d.children@[i])
                } else {
                    arbitrary()
                },
        ),
    }
}

impl View for Diagnostic {
    type V = DiagnosticView;

    open spec fn view(&self) -> DiagnosticView {
        content_of(*self)
    }
}

/// The views of a sequence of diagnostics, in the same order.
pub open spec fn views_of(diagnostics: Seq<Diagnostic>) -> Seq<DiagnosticView> {
    Seq::new(diagnostics.len(), |i: int| diagnostics[i]@)
}

/// A diagnostic's children, by their views, are the views of its children.
pub proof fn lemma_children_view(d: Diagnostic)
    ensures
        d@.children == views_of(d.children@),
        d@.level == d.level,
        d@.message == d.message@,
{
    assert(d@.children =~= views_of(d.children@));
}

impl Diagnostic {
    /// A diagnostic of the given level and message, with nothing attached.
    pub fn new(level: Level, message: String) -> (d: Diagnostic)
        ensures
            d@ == (DiagnosticView { level, message: message@, children: Seq::empty() }),
    {
        let d = Diagnostic { level, message, children: Vec::new() };
        proof {
            lemma_children_view(d);
            assert(d@.children =~= Seq::empty());
        }
        d
    }

    /// Whether this diagnostic counts as an error.
    pub fn is_error(&self) -> (r: bool)
        ensures
            r == self@.level.spec_is_error(),
    {
        self.level.is_error()
    }

    /// Attaches a sub-diagnostic of the given level and message behind those
    /// that are attached already.
    pub fn sub(&mut self, level: Level, message: String)
        ensures
            final(self)@ == (DiagnosticView {
                children: old(self)@.children.push(
                    DiagnosticView { level, message: message@, children: Seq::empty() },
                ),
                ..old(self)@
            }),
    {
        let child = Diagnostic::new(level, message);
        proof {
            lemma_children_view(*self);
        }
        self.children.push(child);
        proof {
            lemma_children_view(*self);
            assert(self@.children =~= old(self)@.children.push(child@));
        }
    }

    /// A diagnostic that says what this one says.
    pub fn duplicate(&self) -> (d: Diagnostic)
        ensures
            d@ == self@,
        decreases self,
    {
        let mut children: Vec<Diagnostic> = Vec::new();
        let mut i: usize = 0;
        while i < self.children.len()
            invariant
                0 <= i <= self.children@.len(),
                children@.len() == i,
                forall|j: int| 0 <= j < i ==> (#[trigger] children@[j])@ == self.children@[j]@,
            decreases self.children@.len() - i,
        {
            let child = self.children[i].duplicate();
            children.push(child);
            i += 1;
        }
        let d = Diagnostic { level: self.level, message: self.message.clone(), children };
        proof {
            lemma_children_view(d);
            lemma_children_view(*self);
            assert(d@.children =~= self@.children);
        }
        d
    }
}

} // verus!
