//! The merge of a managed trace into a native trace.
//!
//! Both traces run from the outermost frame to the innermost. The merge walks
//! the native trace once. An ordinary frame is kept. A boundary frame is
//! replaced by the next managed frame not yet used; when the managed trace has
//! run out, the boundary frame itself is kept. Managed frames that no boundary
//! took are appended in their order.

use crate::boundary::{
    classify_with, is_boundary, standard_matchers, standard_rules, FrameKind, Matcher,
    MatcherModel,
};
use crate::CallFrame;
use vstd::prelude::*;

verus! {

/// The number of boundary frames in `frames`.
pub open spec fn boundary_count(rules: Seq<MatcherModel>, frames: Seq<CallFrame>) -> nat
    decreases frames.len(),
{
    if frames.len() == 0 {
        0
    } else {
        let earlier = boundary_count(rules, frames.drop_last());
        if is_boundary(rules, frames.last()) {
            earlier + 1
        } else {
            earlier
        }
    }
}

/// The number of managed frames that the merge puts in the place of a
/// boundary frame.
pub open spec fn consumed(
    rules: Seq<MatcherModel>,
    managed: Seq<CallFrame>,
    native: Seq<CallFrame>,
) -> nat {
    if boundary_count(rules, native) <= managed.len() {
        boundary_count(rules, native)
    } else {
        managed.len()
    }
}

/// The native frame at `at` is replaced by a managed frame: it is a boundary,
/// and fewer boundaries stand before it than there are managed frames.
pub open spec fn substituted_at(
    rules: Seq<MatcherModel>,
    managed: Seq<CallFrame>,
    native: Seq<CallFrame>,
    at: int,
) -> bool {
    is_boundary(rules, native[at]) && boundary_count(rules, native.take(at)) < managed.len()
}

/// The frame that the merge puts at position `at`, for a position inside the
/// native trace.
pub open spec fn slot(
    rules: Seq<MatcherModel>,
    managed: Seq<CallFrame>,
    native: Seq<CallFrame>,
    at: int,
) -> CallFrame {
    if substituted_at(rules, managed, native, at) {
        managed[boundary_count(rules, native.take(at)) as int]
    } else {
        native[at]
    }
}

/// The native trace with its boundaries replaced as far as the managed
/// trace reaches.
pub open spec fn interleaved(
    rules: Seq<MatcherModel>,
    managed: Seq<CallFrame>,
    native: Seq<CallFrame>,
) -> Seq<CallFrame> {
    Seq::new(native.len(), |at: int| slot(rules, managed, native, at))
}

/// The managed frames that no boundary took.
pub open spec fn leftover(
    rules: Seq<MatcherModel>,
    managed: Seq<CallFrame>,
    native: Seq<CallFrame>,
) -> Seq<CallFrame> {
    managed.skip(consumed(rules, managed, native) as int)
}

/// The merged trace: the native trace with its boundaries replaced as far as
/// the managed trace reaches, then the managed frames that no boundary took.
pub open spec fn merged_trace(
    rules: Seq<MatcherModel>,
    managed: Seq<CallFrame>,
    native: Seq<CallFrame>,
) -> Seq<CallFrame> {
    interleaved(rules, managed, native) + leftover(rules, managed, native)
}

/// Turns a trace end for end, so that its first frame can be taken with `pop`.
fn reversed(frames: Vec<CallFrame>) -> (turned: Vec<CallFrame>)
    ensures
        turned@ == frames@.reverse(),
{
    let ghost given = frames@;
    let mut frames = frames;
    let mut turned: Vec<CallFrame> = Vec::new();
    while frames.len() > 0
        invariant
            frames@.len() + turned@.len() == given.len(),
            frames@ == given.take(frames@.len() as int),
            forall|i: int| 0 <= i < turned@.len() ==> turned@[i] == given[given.len() - 1 - i],
        decreases frames@.len(),
    {
        match frames.pop() {
            Some(frame) => {
                turned.push(frame);
            },
            None => {},
        }
    }
    turned
}

/// Merges traces; stateless.
#[derive(Debug)]
pub struct SignalTracer;

impl SignalTracer {
    /// Merges `python_stacks` into `native_stacks` under a boundary table of
    /// the caller's choice. Both traces run from the outermost frame to the
    /// innermost. Neither is reordered and no frame of the managed trace is
    /// dropped; the call never fails.
    pub fn merge_with(
        rules: &Vec<Matcher>,
        python_stacks: Vec<CallFrame>,
        native_stacks: Vec<CallFrame>,
    ) -> (merged: Vec<CallFrame>)
        ensures
            merged@ == merged_trace(rules.deep_view(), python_stacks@, native_stacks@),
    {
        let ghost table = rules.deep_view();
        let ghost managed = python_stacks@;
        let ghost native = native_stacks@;
        let mut merged: Vec<CallFrame> = Vec::new();
        // The managed frames not yet used, the next one on top.
        let mut pending = reversed(python_stacks);
        for frame in walk: native_stacks
            invariant
                walk.seq() == native,
                table == rules.deep_view(),
                pending@.len() <= managed.len(),
                pending@ == managed.reverse().take(pending@.len() as int),
                managed.len() - pending@.len() == consumed(
                    table,
                    managed,
                    native.take(walk.index()),
                ),
                merged@ == interleaved(table, managed, native).take(walk.index()),
        {
            assert(native.take(walk.index() + 1).drop_last() == native.take(walk.index()));
            match classify_with(rules, &frame) {
                FrameKind::Ordinary => {
                    merged.push(frame);
                },
                FrameKind::Boundary => {
                    match pending.pop() {
                        Some(managed_frame) => {
                            merged.push(managed_frame);
                        },
                        None => {
                            merged.push(frame);
                        },
                    }
                },
            }
        }
        assert(native.take(native.len() as int) == native);
        while pending.len() > 0
            invariant
                pending@.len() <= managed.len(),
                pending@ == managed.reverse().take(pending@.len() as int),
                consumed(table, managed, native) <= managed.len() - pending@.len(),
                merged@ == interleaved(table, managed, native) + managed.subrange(
                    consumed(table, managed, native) as int,
                    managed.len() - pending@.len(),
                ),
            decreases pending@.len(),
        {
            match pending.pop() {
                Some(managed_frame) => {
                    merged.push(managed_frame);
                },
                None => {},
            }
        }
        merged
    }

    /// Merges `python_stacks` into `native_stacks` under the standard
    /// boundary table.
    ///
    /// - An ordinary native frame is kept.
    /// - A boundary frame is replaced by the next managed frame, if one is
    ///   left; each boundary takes exactly one.
    /// - A boundary frame for which no managed frame is left is kept, so that
    ///   native context is not lost.
    /// - The managed frames left after the walk are appended in their order.
    pub fn merge_python_native_stacks(
        python_stacks: Vec<CallFrame>,
        native_stacks: Vec<CallFrame>,
    ) -> (merged: Vec<CallFrame>)
        ensures
            merged@ == merged_trace(standard_rules(), python_stacks@, native_stacks@),
    {
        let rules = standard_matchers();
        SignalTracer::merge_with(&rules, python_stacks, native_stacks)
    }
}

} // verus!
