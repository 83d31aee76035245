//! What holds of every context, stated over its states.

use vstd::prelude::*;
use crate::context::{content_hash, kept_children, seen_after, stays, trimmed, CtxtState};
use crate::diagnostic::DiagnosticView;
use crate::level::Level;

verus! {

/// Whether one of the first `n` of `children` is once-only and has the hash
/// `hash`.
pub open spec fn once_child_with_hash(children: Seq<DiagnosticView>, n: int, hash: u64) -> bool {
    exists|k: int|
        0 <= k < n && (#[trigger] children[k]).level.spec_is_once() && content_hash(children[k])
            == hash
}

/// After the first `n` children, a hash is recorded exactly if it was recorded
/// before or is the hash of a once-only child among them.
pub proof fn lemma_seen_after_contains(
    children: Seq<DiagnosticView>,
    seen: Set<u64>,
    n: int,
    hash: u64,
)
    ensures
        seen_after(children, seen, n).contains(hash) <==> seen.contains(hash)
            || once_child_with_hash(children, n, hash),
    decreases n,
{
    if n > 0 {
        lemma_seen_after_contains(children, seen, n - 1, hash);
        if once_child_with_hash(children, n - 1, hash) {
            let k = choose|k: int|
                0 <= k < n - 1 && (#[trigger] children[k]).level.spec_is_once() && content_hash(
                    children[k],
                ) == hash;
            assert(0 <= k < n && children[k].level.spec_is_once() && content_hash(children[k])
                == hash);
        }
        if children[n - 1].level.spec_is_once() && content_hash(children[n - 1]) == hash {
            assert(once_child_with_hash(children, n, hash));
        }
        if once_child_with_hash(children, n, hash) {
            let k = choose|k: int|
                0 <= k < n && (#[trigger] children[k]).level.spec_is_once() && content_hash(
                    children[k],
                ) == hash;
            if k < n - 1 {
                assert(once_child_with_hash(children, n - 1, hash));
            }
        }
    }
}

/// The children that are kept are those that stay: each child that stays is
/// kept, each kept child is one that stays, and no more are kept than there
/// were.
pub proof fn lemma_kept_children_stay(children: Seq<DiagnosticView>, seen: Set<u64>, n: int)
    requires
        0 <= n <= children.len(),
    ensures
        kept_children(children, seen, n).len() <= n,
        forall|k: int|
            0 <= k < n && stays(children, seen, k) ==> kept_children(children, seen, n).contains(
                #[trigger] children[k],
            ),
        forall|x: DiagnosticView| #[trigger]
            kept_children(children, seen, n).contains(x) ==> exists|k: int|
                0 <= k < n && stays(children, seen, k) && #[trigger] children[k] == x,
    decreases n,
{
    if n > 0 {
        lemma_kept_children_stay(children, seen, n - 1);
        let before = kept_children(children, seen, n - 1);
        let now = kept_children(children, seen, n);
        if stays(children, seen, n - 1) {
            assert(now == before.push(children[n - 1]));
            assert(now[now.len() - 1] == children[n - 1]);
            assert forall|k: int| 0 <= k < n && stays(children, seen, k) implies now.contains(
                #[trigger] children[k],
            ) by {
                if k < n - 1 {
                    let at = choose|at: int| 0 <= at < before.len() && before[at] == children[k];
                    assert(now[at] == children[k]);
                }
            }
            assert forall|x: DiagnosticView| #[trigger] now.contains(x) implies exists|k: int|
                0 <= k < n && stays(children, seen, k) && #[trigger] children[k] == x by {
                let at = choose|at: int| 0 <= at < now.len() && now[at] == x;
                if at < before.len() {
                    assert(before[at] == x);
                    assert(before.contains(x));
                } else {
                    assert(children[n - 1] == x);
                }
            }
        }
    }
}

/// The hashes that a context holds after it has emitted a diagnostic: those
/// that it held; and, unless it dropped the diagnostic, the diagnostic's own;
/// and, where it showed the diagnostic, those of its once-only children. So a
/// context never forgets a hash.
pub proof fn lemma_emit_records(s: CtxtState, d: DiagnosticView, hash: u64)
    ensures
        s.emit(d).emitted.contains(hash) <==> s.emitted.contains(hash) || (!d.level.spec_is_dropped(
            s.can_emit_warnings,
        ) && (hash == content_hash(d) || (s.shows(d) && once_child_with_hash(
            d.children,
            d.children.len() as int,
            hash,
        )))),
        s.emitted.contains(hash) ==> s.emit(d).emitted.contains(hash),
        !d.level.spec_is_dropped(s.can_emit_warnings) ==> s.emit(d).emitted.contains(
            content_hash(d),
        ),
{
    let with_parent = s.emitted.insert(content_hash(d));
    lemma_seen_after_contains(d.children, with_parent, d.children.len() as int, hash);
    lemma_seen_after_contains(d.children, with_parent, d.children.len() as int, content_hash(d));
}

/// However a diagnostic is emitted, no more diagnostics were shown than were
/// emitted: each deduplicated count stays at or below its total.
pub proof fn lemma_emit_keeps_counts_ordered(s: CtxtState, d: DiagnosticView)
    requires
        s.wf(),
    ensures
        s.emit(d).wf(),
        s.emit(d).err_count >= s.err_count,
        s.emit(d).warn_count >= s.warn_count,
        s.emit(d).deduplicated_err_count >= s.deduplicated_err_count,
        s.emit(d).deduplicated_warn_count >= s.deduplicated_warn_count,
{
}

/// A diagnostic whose hash is recorded is counted but not shown: the emitter
/// gets nothing, the deduplicated counts stay, the diagnostic stays as it is,
/// and the total for its level goes up by one.
pub proof fn lemma_repeat_is_counted_not_shown(s: CtxtState, d: DiagnosticView)
    requires
        s.emitted.contains(content_hash(d)),
        !d.level.spec_is_dropped(s.can_emit_warnings),
    ensures
        s.emit(d).rendered == s.rendered,
        s.emit(d).emitted == s.emitted,
        s.emit(d).deduplicated_err_count == s.deduplicated_err_count,
        s.emit(d).deduplicated_warn_count == s.deduplicated_warn_count,
        s.diagnostic_after(d) == d,
        d.level.spec_is_error() ==> s.emit(d).err_count == s.err_count + 1,
        d.level == Level::Warning ==> s.emit(d).warn_count == s.warn_count + 1,
{
    assert(s.emitted.insert(content_hash(d)) =~= s.emitted);
}

/// A diagnostic that is new to the context and emitted twice is shown once:
/// the emitter gets it once, the deduplicated count of its level goes up by
/// one, and the total of its level by two.
pub proof fn lemma_emitted_twice_shown_once(s: CtxtState, d: DiagnosticView)
    requires
        s.shows(d),
    ensures
        s.emit(d).emit(d).rendered == s.rendered.push(
            trimmed(d, s.emitted.insert(content_hash(d))),
        ),
        s.emit(d).emit(d).rendered.len() == s.rendered.len() + 1,
        d.level.spec_is_error() ==> s.emit(d).emit(d).err_count == s.err_count + 2 && s.emit(
            d,
        ).emit(d).deduplicated_err_count == s.deduplicated_err_count + 1,
        d.level == Level::Warning ==> s.emit(d).emit(d).warn_count == s.warn_count + 2 && s.emit(
            d,
        ).emit(d).deduplicated_warn_count == s.deduplicated_warn_count + 1,
        !d.level.spec_is_error() ==> s.emit(d).emit(d).err_count == s.err_count && s.emit(d).emit(
            d,
        ).deduplicated_err_count == s.deduplicated_err_count,
        d.level != Level::Warning ==> s.emit(d).emit(d).warn_count == s.warn_count && s.emit(
            d,
        ).emit(d).deduplicated_warn_count == s.deduplicated_warn_count,
{
    lemma_emit_records(s, d, content_hash(d));
    lemma_repeat_is_counted_not_shown(s.emit(d), d);
}

/// Emitting an error yields the token and counts the error, whether or not
/// the same error was emitted before; and a token is yielded for an error
/// only, so that where there is a token, the count of errors is above zero.
pub proof fn lemma_error_is_guaranteed(s: CtxtState, d: DiagnosticView)
    ensures
        d.level.spec_is_error() ==> s.guarantees(d) && s.emit(d).err_count == s.err_count + 1,
        s.guarantees(d) ==> d.level.spec_is_error() && s.emit(d).err_count > 0,
{
}

/// While warnings are disabled, emitting a warning changes nothing: no count,
/// no recorded hash, nothing for the emitter, and no token.
pub proof fn lemma_disabled_warning_changes_nothing(s: CtxtState, d: DiagnosticView)
    requires
        d.level == Level::Warning,
        !s.can_emit_warnings,
    ensures
        s.emit(d) == s,
        s.diagnostic_after(d) == d,
        !s.guarantees(d),
{
}

/// Emitting an allowed diagnostic changes nothing, in any state: no count, no
/// recorded hash, nothing for the emitter, and no token.
pub proof fn lemma_allow_changes_nothing(s: CtxtState, d: DiagnosticView)
    requires
        d.level == Level::Allow,
    ensures
        s.emit(d) == s,
        s.diagnostic_after(d) == d,
        !s.guarantees(d),
{
}

/// A once-only child attached to two parents that are both shown is shown
/// with the first only. Both parents reach the emitter, the second without
/// that child; and the first has it, unless its hash was recorded before its
/// turn.
pub proof fn lemma_once_child_shown_once(
    s: CtxtState,
    first: DiagnosticView,
    i: int,
    second: DiagnosticView,
    j: int,
)
    requires
        0 <= i < first.children.len(),
        0 <= j < second.children.len(),
        first.children[i].level.spec_is_once(),
        second.children[j] == first.children[i],
        s.shows(first),
        s.emit(first).shows(second),
    ensures
        s.emit(first).emit(second).rendered == s.rendered.push(
            trimmed(first, s.emitted.insert(content_hash(first))),
        ).push(trimmed(second, s.emit(first).emitted.insert(content_hash(second)))),
        !stays(second.children, s.emit(first).emitted.insert(content_hash(second)), j),
        !s.emitted.contains(content_hash(first.children[i])) && content_hash(first.children[i])
            != content_hash(first) && !once_child_with_hash(
            first.children,
            i,
            content_hash(first.children[i]),
        ) ==> stays(first.children, s.emitted.insert(content_hash(first)), i),
{
    let child = first.children[i];
    let hash = content_hash(child);
    let seen_first = s.emitted.insert(content_hash(first));
    let seen_second = s.emit(first).emitted.insert(content_hash(second));
    assert(once_child_with_hash(first.children, first.children.len() as int, hash));
    lemma_seen_after_contains(first.children, seen_first, first.children.len() as int, hash);
    assert(s.emit(first).emitted.contains(hash));
    lemma_seen_after_contains(second.children, seen_second, j, hash);
    lemma_seen_after_contains(first.children, seen_first, i, hash);
}

} // verus!
