//! The diagnostic context: the one path by which a diagnostic becomes visible.

use vstd::prelude::*;
use std::collections::HashSet;
use rustc_hash::FxBuildHasher;
use crate::diagnostic::{Diagnostic, DiagnosticView, lemma_children_view, views_of};
use crate::emitter::Emitter;
use crate::guarantee::ErrorGuaranteed;
use crate::hashing::{hash_with_seeds, insert_hash, keyed_hash};
use crate::level::Level;

verus! {

/// The first of the four seeds under which diagnostics are hashed.
pub const HASH_SEED_0: u64 = 0x243f_6a88_85a3_08d3;

/// The second seed.
pub const HASH_SEED_1: u64 = 0x1319_8a2e_0370_7344;

/// The third seed.
pub const HASH_SEED_2: u64 = 0xa409_3822_299f_31d0;

/// The fourth seed.
pub const HASH_SEED_3: u64 = 0x082e_fa98_ec4e_6c89;

/// The hash by which a context recognises a diagnostic that says `content`.
pub open spec fn content_hash(content: DiagnosticView) -> u64 {
    keyed_hash(HASH_SEED_0, HASH_SEED_1, HASH_SEED_2, HASH_SEED_3, content)
}

/// The hash by which a context recognises `diagnostic`.
pub fn hash_diagnostic(diagnostic: &Diagnostic) -> (h: u64)
    ensures
        h == content_hash(diagnostic@),
{
    hash_with_seeds(HASH_SEED_0, HASH_SEED_1, HASH_SEED_2, HASH_SEED_3, diagnostic)
}

/// The hashes that are recorded once the first `n` of `children` have been
/// looked at, starting from the hashes `seen`: those, and the hash of each
/// once-only child among the first `n`.
pub open spec fn seen_after(children: Seq<DiagnosticView>, seen: Set<u64>, n: int) -> Set<u64>
    decreases n,
{
    if n <= 0 {
        seen
    } else {
        let before = seen_after(children, seen, n - 1);
        let child = children[n - 1];
        if child.level.spec_is_once() {
            before.insert(content_hash(child))
        } else {
            before
        }
    }
}

/// Whether the child at `index` stays attached: it leaves if it is once-only
/// and its hash was recorded before its turn, in `seen` or for a once-only
/// child before it.
pub open spec fn stays(children: Seq<DiagnosticView>, seen: Set<u64>, index: int) -> bool {
    !(children[index].level.spec_is_once() && seen_after(children, seen, index).contains(
        content_hash(children[index]),
    ))
}

/// Those of the first `n` of `children` that stay attached, in their order.
pub open spec fn kept_children(children: Seq<DiagnosticView>, seen: Set<u64>, n: int) -> Seq<
    DiagnosticView,
>
    decreases n,
{
    if n <= 0 {
        Seq::empty()
    } else if stays(children, seen, n - 1) {
        kept_children(children, seen, n - 1).push(children[n - 1])
    } else {
        kept_children(children, seen, n - 1)
    }
}

/// The diagnostic `d` without the once-only children that were shown before,
/// given the hashes `seen`.
pub open spec fn trimmed(d: DiagnosticView, seen: Set<u64>) -> DiagnosticView {
    DiagnosticView { children: kept_children(d.children, seen, d.children.len() as int), ..d }
}

/// What a context holds, as far as its behaviour depends on it.
pub struct CtxtState {
    /// The errors emitted, repeats included.
    pub err_count: nat,
    /// The errors shown to the user.
    pub deduplicated_err_count: nat,
    /// The warnings emitted, repeats included.
    pub warn_count: nat,
    /// The warnings shown to the user.
    pub deduplicated_warn_count: nat,
    /// The hashes of the diagnostics and once-only children emitted so far.
    pub emitted: Set<u64>,
    /// Whether warnings are emitted at all.
    pub can_emit_warnings: bool,
    /// What the emitter was given, oldest first.
    pub rendered: Seq<DiagnosticView>,
}

impl CtxtState {
    /// The state of a new context whose emitter was given `rendered` before.
    pub open spec fn initial(rendered: Seq<DiagnosticView>) -> CtxtState {
        CtxtState {
            err_count: 0,
            deduplicated_err_count: 0,
            warn_count: 0,
            deduplicated_warn_count: 0,
            emitted: Set::empty(),
            can_emit_warnings: true,
            rendered,
        }
    }

    /// No more diagnostics were shown than were emitted.
    pub open spec fn wf(self) -> bool {
        self.deduplicated_err_count <= self.err_count && self.deduplicated_warn_count
            <= self.warn_count
    }

    /// Whether emitting `d` in this state goes past deduplication: it is not
    /// dropped, and its hash was not recorded before.
    pub open spec fn shows(self, d: DiagnosticView) -> bool {
        !d.level.spec_is_dropped(self.can_emit_warnings) && !self.emitted.contains(content_hash(d))
    }

    /// The diagnostic as the caller finds it after emitting `d` in this state.
    pub open spec fn diagnostic_after(self, d: DiagnosticView) -> DiagnosticView {
        if self.shows(d) {
            trimmed(d, self.emitted.insert(content_hash(d)))
        } else {
            d
        }
    }

    /// Whether emitting `d` yields the token of a reported error.
    pub open spec fn guarantees(self, d: DiagnosticView) -> bool {
        d.level.spec_is_error()
    }

    /// The state after emitting `d` in this state.
    pub open spec fn emit(self, d: DiagnosticView) -> CtxtState {
        if d.level.spec_is_dropped(self.can_emit_warnings) {
            self
        } else {
            let shown: nat = if self.shows(d) {
                1
            } else {
                0
            };
            let with_parent = self.emitted.insert(content_hash(d));
            CtxtState {
                err_count: if d.level.spec_is_error() {
                    self.err_count + 1
                } else {
                    self.err_count
                },
                deduplicated_err_count: if d.level.spec_is_error() {
                    self.deduplicated_err_count + shown
                } else {
                    self.deduplicated_err_count
                },
                warn_count: if d.level == Level::Warning {
                    self.warn_count + 1
                } else {
                    self.warn_count
                },
                deduplicated_warn_count: if d.level == Level::Warning {
                    self.deduplicated_warn_count + shown
                } else {
                    self.deduplicated_warn_count
                },
                emitted: if self.shows(d) {
                    seen_after(d.children, with_parent, d.children.len() as int)
                } else {
                    with_parent
                },
                can_emit_warnings: self.can_emit_warnings,
                rendered: if self.shows(d) {
                    self.rendered.push(trimmed(d, with_parent))
                } else {
                    self.rendered
                },
            }
        }
    }

    /// Whether the counter that emitting a diagnostic of `level` raises has
    /// room for one more.
    pub open spec fn has_room(self, level: Level) -> bool {
        &&& level.spec_is_error() ==> self.err_count < usize::MAX
        &&& level == Level::Warning ==> self.warn_count < usize::MAX
    }
}

/// The state of a [`DiagCtxt`].
pub struct DiagCtxtInner<E: Emitter> {
    emitter: E,
    /// The number of errors that have been emitted, including duplicates.
    ///
    /// This is not necessarily the count that is reported to the user once
    /// compilation ends.
    err_count: usize,
    deduplicated_err_count: usize,
    warn_count: usize,
    /// The warning count, used for a recap upon finishing.
    deduplicated_warn_count: usize,
    /// A hash of every diagnostic that has been emitted by this context. These
    /// hashes are used to avoid emitting the same error twice.
    emitted_diagnostics: HashSet<u64, FxBuildHasher>,
    can_emit_warnings: bool,
}

impl<E: Emitter> View for DiagCtxtInner<E> {
    type V = CtxtState;

    closed spec fn view(&self) -> CtxtState {
        CtxtState {
            err_count: self.err_count as nat,
            deduplicated_err_count: self.deduplicated_err_count as nat,
            warn_count: self.warn_count as nat,
            deduplicated_warn_count: self.deduplicated_warn_count as nat,
            emitted: self.emitted_diagnostics@,
            can_emit_warnings: self.can_emit_warnings,
            rendered: self.emitter.rendered(),
        }
    }
}

impl<E: Emitter> DiagCtxtInner<E> {
    /// The state of a context that has emitted nothing, with the given emitter.
    pub fn new(emitter: E) -> (inner: Self)
        ensures
            inner@ == CtxtState::initial(emitter.rendered()),
            inner@.wf(),
    {
        DiagCtxtInner {
            emitter,
            err_count: 0,
            deduplicated_err_count: 0,
            warn_count: 0,
            deduplicated_warn_count: 0,
            emitted_diagnostics: HashSet::default(),
            can_emit_warnings: true,
        }
    }

    /// Emits the given diagnostic, and leaves it with the caller as it was
    /// shown: without the once-only children that were shown before.
    pub fn emit_diagnostic_without_consuming(&mut self, diagnostic: &mut Diagnostic) -> (guarantee:
        Option<ErrorGuaranteed>)
        requires
            old(self)@.wf(),
            old(self)@.has_room(old(diagnostic)@.level),
        ensures
            final(self)@ == old(self)@.emit(old(diagnostic)@),
            final(diagnostic)@ == old(self)@.diagnostic_after(old(diagnostic)@),
            guarantee.is_some() == old(self)@.guarantees(old(diagnostic)@),
            final(self)@.wf(),
    {
        if diagnostic.level.is_dropped(self.can_emit_warnings) {
            return None;
        }
        let is_error = diagnostic.is_error();
        let is_warning = diagnostic.level == Level::Warning;
        let already_emitted = self.insert_diagnostic(diagnostic);
        if !already_emitted {
            self.remove_repeated_once_children(diagnostic);
            self.emitter.emit_diagnostic(diagnostic);
            if is_error {
                self.deduplicated_err_count += 1;
            } else if is_warning {
                self.deduplicated_warn_count += 1;
            }
        }
        if is_error {
            self.bump_err_count();
            Some(ErrorGuaranteed::issued())
        } else {
            if is_warning {
                self.bump_warn_count();
            }
            None
        }
    }

    /// Removes from the diagnostic's children every once-only child whose hash
    /// is recorded already, and records the hashes of the others.
    fn remove_repeated_once_children(&mut self, diagnostic: &mut Diagnostic)
        ensures
            final(diagnostic)@ == trimmed(old(diagnostic)@, old(self)@.emitted),
            final(self)@ == (CtxtState {
                emitted: seen_after(
                    old(diagnostic)@.children,
                    old(self)@.emitted,
                    old(diagnostic)@.children.len() as int,
                ),
                ..old(self)@
            }),
    {
        let ghost children = diagnostic@.children;
        let ghost seen = self@.emitted;
        let ghost before = self@;
        let ghost mut done: int = 0;
        let mut i: usize = 0;
        proof {
            lemma_children_view(*diagnostic);
            assert(views_of(diagnostic.children@).subrange(0, 0) =~= Seq::empty());
            assert(views_of(diagnostic.children@).subrange(0, children.len() as int)
                =~= children);
        }
        while i < diagnostic.children.len()
            invariant
                diagnostic.level == old(diagnostic).level,
                diagnostic.message == old(diagnostic).message,
                0 <= i <= diagnostic.children@.len(),
                0 <= done <= children.len(),
                diagnostic.children@.len() - i == children.len() - done,
                views_of(diagnostic.children@).subrange(0, i as int) == kept_children(
                    children,
                    seen,
                    done,
                ),
                views_of(diagnostic.children@).subrange(i as int, diagnostic.children@.len() as int)
                    == children.subrange(done, children.len() as int),
                self@ == (CtxtState { emitted: seen_after(children, seen, done), ..before }),
            decreases diagnostic.children@.len() - i,
        {
            let ghost vec_before = diagnostic.children@;
            let ghost rest_before = views_of(vec_before).subrange(i as int, vec_before.len() as int);
            assert(views_of(vec_before)[i as int] == children[done]) by {
                assert(rest_before[0] == children.subrange(done, children.len() as int)[0]);
            }
            let repeated = if diagnostic.children[i].level.is_once() {
                self.insert_diagnostic(&diagnostic.children[i])
            } else {
                false
            };
            if repeated {
                diagnostic.children.remove(i);
                assert(views_of(diagnostic.children@).subrange(0, i as int) =~= views_of(
                    vec_before,
                ).subrange(0, i as int));
            } else {
                i += 1;
                assert(views_of(diagnostic.children@).subrange(0, i as int) =~= views_of(
                    vec_before,
                ).subrange(0, i - 1).push(children[done]));
            }
            proof {
                done = done + 1;
                let vec_after = diagnostic.children@;
                let rest_after = views_of(vec_after).subrange(i as int, vec_after.len() as int);
                assert forall|j: int| 0 <= j < rest_after.len() implies rest_after[j]
                    == children.subrange(done, children.len() as int)[j] by {
                    assert(rest_before[j + 1] == children.subrange(
                        done - 1,
                        children.len() as int,
                    )[j + 1]);
                }
                assert(rest_after =~= children.subrange(done, children.len() as int));
            }
        }
        proof {
            lemma_children_view(*diagnostic);
            assert(views_of(diagnostic.children@).subrange(0, i as int) =~= views_of(
                diagnostic.children@,
            ));
        }
    }

    /// Inserts the given diagnostic into the set of emitted diagnostics.
    /// Returns `true` if the diagnostic was already emitted.
    fn insert_diagnostic(&mut self, diagnostic: &Diagnostic) -> (already_emitted: bool)
        ensures
            already_emitted == old(self)@.emitted.contains(content_hash(diagnostic@)),
            final(self)@ == (CtxtState {
                emitted: old(self)@.emitted.insert(content_hash(diagnostic@)),
                ..old(self)@
            }),
    {
        let hash = hash_diagnostic(diagnostic);
        !insert_hash(&mut self.emitted_diagnostics, hash)
    }

    /// Stops the emission of warnings.
    pub fn disable_warnings(&mut self)
        ensures
            final(self)@ == (CtxtState { can_emit_warnings: false, ..old(self)@ }),
    {
        self.can_emit_warnings = false;
    }

    /// The emitter, to read what it holds.
    pub fn emitter(&self) -> (e: &E)
        ensures
            e.rendered() == self@.rendered,
    {
        &self.emitter
    }

    /// The number of errors emitted, repeats included.
    pub fn err_count(&self) -> (n: usize)
        ensures
            n == self@.err_count,
    {
        self.err_count
    }

    /// The number of errors shown to the user.
    pub fn deduplicated_err_count(&self) -> (n: usize)
        ensures
            n == self@.deduplicated_err_count,
    {
        self.deduplicated_err_count
    }

    /// The number of warnings emitted, repeats included.
    pub fn warn_count(&self) -> (n: usize)
        ensures
            n == self@.warn_count,
    {
        self.warn_count
    }

    /// The number of warnings shown to the user.
    pub fn deduplicated_warn_count(&self) -> (n: usize)
        ensures
            n == self@.deduplicated_warn_count,
    {
        self.deduplicated_warn_count
    }

    /// Whether warnings are emitted.
    pub fn can_emit_warnings(&self) -> (b: bool)
        ensures
            b == self@.can_emit_warnings,
    {
        self.can_emit_warnings
    }

    fn bump_err_count(&mut self)
        requires
            old(self)@.err_count < usize::MAX,
        ensures
            final(self)@ == (CtxtState { err_count: old(self)@.err_count + 1, ..old(self)@ }),
    {
        self.err_count += 1;
    }

    fn bump_warn_count(&mut self)
        requires
            old(self)@.warn_count < usize::MAX,
        ensures
            final(self)@ == (CtxtState { warn_count: old(self)@.warn_count + 1, ..old(self)@ }),
    {
        self.warn_count += 1;
    }
}

/// A handler for errors and other compiler output. Fatal errors end the run
/// at once; the others are counted and shown, each once.
pub struct DiagCtxt<E: Emitter> {
    inner: DiagCtxtInner<E>,
}

impl<E: Emitter> View for DiagCtxt<E> {
    type V = CtxtState;

    closed spec fn view(&self) -> CtxtState {
        self.inner@
    }
}

impl<E: Emitter> DiagCtxt<E> {
    /// Creates a new context with the given diagnostics emitter. It has
    /// emitted nothing, and emits warnings.
    pub fn new(emitter: E) -> (dcx: Self)
        ensures
            dcx@ == CtxtState::initial(emitter.rendered()),
            dcx@.wf(),
    {
        DiagCtxt { inner: DiagCtxtInner::new(emitter) }
    }

    /// Disables emitting warnings.
    pub fn disable_warnings(self) -> (dcx: Self)
        ensures
            dcx@ == (CtxtState { can_emit_warnings: false, ..self@ }),
    {
        let mut dcx = self;
        dcx.inner.disable_warnings();
        dcx
    }

    /// Emits the given diagnostic with this context.
    pub fn emit_diagnostic(&mut self, mut diagnostic: Diagnostic) -> (guarantee: Option<
        ErrorGuaranteed,
    >)
        requires
            old(self)@.wf(),
            old(self)@.has_room(diagnostic@.level),
        ensures
            final(self)@ == old(self)@.emit(diagnostic@),
            guarantee.is_some() == old(self)@.guarantees(diagnostic@),
            final(self)@.wf(),
    {
        self.emit_diagnostic_without_consuming(&mut diagnostic)
    }

    /// Emits the given diagnostic with this context, without consuming the
    /// diagnostic: it is left with the caller as it was shown.
    pub fn emit_diagnostic_without_consuming(&mut self, diagnostic: &mut Diagnostic) -> (guarantee:
        Option<ErrorGuaranteed>)
        requires
            old(self)@.wf(),
            old(self)@.has_room(old(diagnostic)@.level),
        ensures
            final(self)@ == old(self)@.emit(old(diagnostic)@),
            final(diagnostic)@ == old(self)@.diagnostic_after(old(diagnostic)@),
            guarantee.is_some() == old(self)@.guarantees(old(diagnostic)@),
            final(self)@.wf(),
    {
        self.inner.emit_diagnostic_without_consuming(diagnostic)
    }

    /// The emitter, to read what it holds.
    pub fn emitter(&self) -> (e: &E)
        ensures
            e.rendered() == self@.rendered,
    {
        self.inner.emitter()
    }

    /// The number of errors emitted, repeats included.
    pub fn err_count(&self) -> (n: usize)
        ensures
            n == self@.err_count,
    {
        self.inner.err_count()
    }

    /// The number of errors shown to the user.
    pub fn deduplicated_err_count(&self) -> (n: usize)
        ensures
            n == self@.deduplicated_err_count,
    {
        self.inner.deduplicated_err_count()
    }

    /// The number of warnings emitted, repeats included.
    pub fn warn_count(&self) -> (n: usize)
        ensures
            n == self@.warn_count,
    {
        self.inner.warn_count()
    }

    /// The number of warnings shown to the user.
    pub fn deduplicated_warn_count(&self) -> (n: usize)
        ensures
            n == self@.deduplicated_warn_count,
    {
        self.inner.deduplicated_warn_count()
    }

    /// Whether an error was emitted; the run has then failed.
    pub fn has_errors(&self) -> (b: bool)
        ensures
            b == (self@.err_count > 0),
    {
        self.inner.err_count() > 0
    }

    /// Whether warnings are emitted.
    pub fn can_emit_warnings(&self) -> (b: bool)
        ensures
            b == self@.can_emit_warnings,
    {
        self.inner.can_emit_warnings()
    }
}

} // verus!
