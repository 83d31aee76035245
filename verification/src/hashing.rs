//! Content hashes of diagnostics, and the set that remembers them.

use vstd::prelude::*;
use std::collections::HashSet;
use rustc_hash::FxBuildHasher;
use crate::diagnostic::{Diagnostic, DiagnosticView};

verus! {

/// The hasher state of `rustc_hash`, by which the set of emitted hashes places
/// its members.
#[verifier::external_type_specification]
#[verifier::external_body]
pub struct ExFxBuildHasher(FxBuildHasher);

/// The 64-bit hash that `ahash` gives, in this build of the library, to a
/// diagnostic that says `content`, under the four seeds given.
pub uninterp spec fn keyed_hash(k0: u64, k1: u64, k2: u64, k3: u64, content: DiagnosticView) -> u64;

/// Calls `ahash::RandomState::with_seeds` and, on the state it gives,
/// `hash_one`.
///
/// Not proved: that the result depends on nothing but the seeds and on what the
/// diagnostic says (its level, its message and its children, in order). `ahash`
/// documents that all states made from the same seeds build identical
/// hashers; `hash_one` builds one, feeds it the value and finishes it; and the
/// derived `Hash` feeds it exactly those three fields. Nothing is claimed of
/// the number itself, nor that two contents get two numbers.
#[verifier::external_body]
pub(crate) fn hash_with_seeds(k0: u64, k1: u64, k2: u64, k3: u64, diagnostic: &Diagnostic) -> (h:
    u64)
    ensures
        h == keyed_hash(k0, k1, k2, k3, diagnostic@),
{
    ahash::RandomState::with_seeds(k0, k1, k2, k3).hash_one(diagnostic)
}

/// Calls `HashSet::insert` on a set that places its members with
/// `rustc_hash::FxBuildHasher`.
///
/// Not proved: that the set then holds what it held and `hash`, and that the
/// result says whether `hash` was new to it. This is what std documents of
/// `insert`; it holds of this set because `FxBuildHasher` builds the same
/// hasher at every call.
#[verifier::external_body]
pub(crate) fn insert_hash(set: &mut HashSet<u64, FxBuildHasher>, hash: u64) -> (fresh: bool)
    ensures
        final(set)@ == old(set)@.insert(hash),
        fresh == !old(set)@.contains(hash),
{
    set.insert(hash)
}

} // verus!
