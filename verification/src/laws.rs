//! What holds of every merge, proved from the definition of the merged trace.

use crate::boundary::{is_boundary, kind_of, kind_under, MatcherModel};
use crate::stack_trace::{
    boundary_count, consumed, interleaved, merged_trace, slot, substituted_at,
};
use crate::CallFrame;
use vstd::prelude::*;

verus! {

/// A trace holds no more boundaries than frames.
pub proof fn boundary_count_bounded(rules: Seq<MatcherModel>, frames: Seq<CallFrame>)
    ensures
        boundary_count(rules, frames) <= frames.len(),
    decreases frames.len(),
{
    if frames.len() > 0 {
        boundary_count_bounded(rules, frames.drop_last());
    }
}

/// The frames of `frames` that are not boundaries, in their order.
pub open spec fn ordinary_frames(rules: Seq<MatcherModel>, frames: Seq<CallFrame>) -> Seq<
    CallFrame,
> {
    frames.filter(|frame: CallFrame| !is_boundary(rules, frame))
}

/// Every frame of a trace is a boundary or an ordinary frame.
pub proof fn ordinary_and_boundary_partition(rules: Seq<MatcherModel>, frames: Seq<CallFrame>)
    ensures
        ordinary_frames(rules, frames).len() + boundary_count(rules, frames) == frames.len(),
    decreases frames.len(),
{
    reveal(Seq::filter);
    if frames.len() > 0 {
        ordinary_and_boundary_partition(rules, frames.drop_last());
    }
}

/// No frame is lost, by length: the merged trace has one frame for each native
/// frame and one for each managed frame that no boundary took. So it is at
/// least as long as the managed trace, and at least as long as the native
/// trace has ordinary frames.
pub proof fn merged_length(
    rules: Seq<MatcherModel>,
    managed: Seq<CallFrame>,
    native: Seq<CallFrame>,
)
    ensures
        merged_trace(rules, managed, native).len() == native.len() + managed.len() - consumed(
            rules,
            managed,
            native,
        ),
        merged_trace(rules, managed, native).len() >= managed.len(),
        merged_trace(rules, managed, native).len() >= native.len(),
        merged_trace(rules, managed, native).len() >= ordinary_frames(rules, native).len(),
{
    boundary_count_bounded(rules, native);
    ordinary_and_boundary_partition(rules, native);
}

/// The native frames keep their places: every position of the native trace
/// that is not substituted holds the same frame in the merged trace. An
/// ordinary frame is never substituted, so the ordinary frames stand in the
/// merged trace where they stood, in their order.
pub proof fn native_frames_keep_their_places(
    rules: Seq<MatcherModel>,
    managed: Seq<CallFrame>,
    native: Seq<CallFrame>,
    at: int,
)
    requires
        0 <= at < native.len(),
        !substituted_at(rules, managed, native, at),
    ensures
        merged_trace(rules, managed, native)[at] == native[at],
{
}

/// An ordinary frame is kept where it stands.
pub proof fn ordinary_frames_are_kept(
    rules: Seq<MatcherModel>,
    managed: Seq<CallFrame>,
    native: Seq<CallFrame>,
    at: int,
)
    requires
        0 <= at < native.len(),
        !is_boundary(rules, native[at]),
    ensures
        !substituted_at(rules, managed, native, at),
        merged_trace(rules, managed, native)[at] == native[at],
{
}

/// The frames that `trace` holds at the places below `upto` where the native
/// trace holds an ordinary frame, in the order of those places.
pub open spec fn frames_at_ordinary_places(
    rules: Seq<MatcherModel>,
    trace: Seq<CallFrame>,
    native: Seq<CallFrame>,
    upto: int,
) -> Seq<CallFrame>
    decreases upto,
{
    if upto <= 0 {
        Seq::empty()
    } else {
        let earlier = frames_at_ordinary_places(rules, trace, native, upto - 1);
        if is_boundary(rules, native[upto - 1]) {
            earlier
        } else {
            earlier.push(trace[upto - 1])
        }
    }
}

/// The ordinary frames of the first `upto` native frames are found in the
/// merged trace at their places, in their order.
proof fn ordinary_frames_keep_their_order_upto(
    rules: Seq<MatcherModel>,
    managed: Seq<CallFrame>,
    native: Seq<CallFrame>,
    upto: int,
)
    requires
        0 <= upto <= native.len(),
    ensures
        frames_at_ordinary_places(rules, merged_trace(rules, managed, native), native, upto)
            == ordinary_frames(rules, native.take(upto)),
    decreases upto,
{
    reveal(Seq::filter);
    if upto > 0 {
        ordinary_frames_keep_their_order_upto(rules, managed, native, upto - 1);
        assert(native.take(upto).drop_last() == native.take(upto - 1));
        assert(native.take(upto).last() == native[upto - 1]);
    } else {
        assert(native.take(0).len() == 0);
    }
}

/// Order preservation for the native trace: read at the places of the
/// ordinary native frames, the merged trace gives the ordinary native frames,
/// all of them and in their order.
pub proof fn ordinary_frames_keep_their_order(
    rules: Seq<MatcherModel>,
    managed: Seq<CallFrame>,
    native: Seq<CallFrame>,
)
    ensures
        frames_at_ordinary_places(
            rules,
            merged_trace(rules, managed, native),
            native,
            native.len() as int,
        ) == ordinary_frames(rules, native),
{
    ordinary_frames_keep_their_order_upto(rules, managed, native, native.len() as int);
    assert(native.take(native.len() as int) == native);
}

/// When the managed trace is empty, or the native trace has no boundary left
/// to fill, a boundary frame is kept: native context is never dropped.
pub proof fn boundary_without_managed_frame_is_kept(
    rules: Seq<MatcherModel>,
    managed: Seq<CallFrame>,
    native: Seq<CallFrame>,
    at: int,
)
    requires
        0 <= at < native.len(),
        is_boundary(rules, native[at]),
        boundary_count(rules, native.take(at)) >= managed.len(),
    ensures
        merged_trace(rules, managed, native)[at] == native[at],
{
}

/// The frames that the merged trace holds at the substituted positions below
/// `upto`, in the order of their positions.
pub open spec fn substituted_frames(
    rules: Seq<MatcherModel>,
    managed: Seq<CallFrame>,
    native: Seq<CallFrame>,
    upto: int,
) -> Seq<CallFrame>
    decreases upto,
{
    if upto <= 0 {
        Seq::empty()
    } else {
        let earlier = substituted_frames(rules, managed, native, upto - 1);
        if substituted_at(rules, managed, native, upto - 1) {
            earlier.push(merged_trace(rules, managed, native)[upto - 1])
        } else {
            earlier
        }
    }
}

/// Read in the order of their positions, the substituted frames below `upto`
/// are the first managed frames, as many as the prefix of the native trace
/// consumes.
proof fn substituted_frames_are_managed_prefix(
    rules: Seq<MatcherModel>,
    managed: Seq<CallFrame>,
    native: Seq<CallFrame>,
    upto: int,
)
    requires
        0 <= upto <= native.len(),
    ensures
        substituted_frames(rules, managed, native, upto) == managed.take(
            consumed(rules, managed, native.take(upto)) as int,
        ),
    decreases upto,
{
    if upto == 0 {
        assert(native.take(0).len() == 0);
        assert(managed.take(0) =~= Seq::<CallFrame>::empty());
    } else {
        substituted_frames_are_managed_prefix(rules, managed, native, upto - 1);
        assert(native.take(upto).drop_last() == native.take(upto - 1));
        assert(native.take(upto).last() == native[upto - 1]);
        let before = consumed(rules, managed, native.take(upto - 1)) as int;
        if substituted_at(rules, managed, native, upto - 1) {
            assert(managed.take(before).push(managed[before]) =~= managed.take(before + 1));
        }
    }
}

/// Order preservation for the managed trace: the frames at the substituted
/// positions, read in order, followed by what stands behind the native part
/// of the merged trace, are the managed trace, whole and in its order. The
/// frames behind the native part are the managed frames that no boundary
/// took, as one contiguous suffix.
pub proof fn managed_frames_read_back(
    rules: Seq<MatcherModel>,
    managed: Seq<CallFrame>,
    native: Seq<CallFrame>,
)
    ensures
        substituted_frames(rules, managed, native, native.len() as int) == managed.take(
            consumed(rules, managed, native) as int,
        ),
        merged_trace(rules, managed, native).skip(native.len() as int) == managed.skip(
            consumed(rules, managed, native) as int,
        ),
        substituted_frames(rules, managed, native, native.len() as int) + merged_trace(
            rules,
            managed,
            native,
        ).skip(native.len() as int) == managed,
{
    substituted_frames_are_managed_prefix(rules, managed, native, native.len() as int);
    assert(native.take(native.len() as int) == native);
    let taken = consumed(rules, managed, native) as int;
    assert(merged_trace(rules, managed, native).skip(native.len() as int) =~= managed.skip(taken));
    assert(managed.take(taken) + managed.skip(taken) =~= managed);
}

/// Substitution is exact: as many managed frames stand in the place of a
/// boundary as the native trace has boundaries, or as the managed trace has
/// frames, whichever is fewer.
pub proof fn substitution_count(
    rules: Seq<MatcherModel>,
    managed: Seq<CallFrame>,
    native: Seq<CallFrame>,
)
    ensures
        substituted_frames(rules, managed, native, native.len() as int).len() == if boundary_count(
            rules,
            native,
        ) <= managed.len() {
            boundary_count(rules, native)
        } else {
            managed.len()
        },
{
    managed_frames_read_back(rules, managed, native);
}

/// The boundary frames of the native trace that a managed frame replaces, in
/// their order, up to position `upto`.
pub open spec fn replaced_frames(
    rules: Seq<MatcherModel>,
    managed: Seq<CallFrame>,
    native: Seq<CallFrame>,
    upto: int,
) -> Seq<CallFrame>
    decreases upto,
{
    if upto <= 0 {
        Seq::empty()
    } else {
        let earlier = replaced_frames(rules, managed, native, upto - 1);
        if substituted_at(rules, managed, native, upto - 1) {
            earlier.push(native[upto - 1])
        } else {
            earlier
        }
    }
}

/// The merged trace of a prefix of the native trace, against the merged
/// trace of the prefix one frame shorter.
proof fn merged_trace_of_longer_prefix(
    rules: Seq<MatcherModel>,
    managed: Seq<CallFrame>,
    native: Seq<CallFrame>,
    upto: int,
)
    requires
        0 < upto <= native.len(),
    ensures
        substituted_at(rules, managed, native, upto - 1) ==> merged_trace(
            rules,
            managed,
            native.take(upto),
        ).to_multiset() == merged_trace(rules, managed, native.take(upto - 1)).to_multiset(),
        !substituted_at(rules, managed, native, upto - 1) ==> merged_trace(
            rules,
            managed,
            native.take(upto),
        ).to_multiset() == merged_trace(
            rules,
            managed,
            native.take(upto - 1),
        ).to_multiset().insert(native[upto - 1]),
{
    broadcast use vstd::seq_lib::group_to_multiset_ensures;

    let shorter = native.take(upto - 1);
    let longer = native.take(upto);
    let frame = native[upto - 1];
    assert(longer.drop_last() == shorter);
    assert(longer.last() == frame);
    assert(longer.take(upto - 1) == shorter);
    let head = interleaved(rules, managed, shorter);
    let taken = consumed(rules, managed, shorter) as int;
    assert forall|at: int| 0 <= at < upto - 1 implies slot(rules, managed, longer, at) == slot(
        rules,
        managed,
        shorter,
        at,
    ) by {
        assert(longer.take(at) == shorter.take(at));
    }
    boundary_count_bounded(rules, shorter);
    if substituted_at(rules, managed, native, upto - 1) {
        assert(native.take(upto - 1) == shorter);
        let moved = managed[taken];
        assert(merged_trace(rules, managed, longer) =~= head.push(moved) + managed.skip(taken + 1));
        assert(merged_trace(rules, managed, shorter) =~= head + managed.skip(taken));
        assert(managed.skip(taken) =~= seq![moved] + managed.skip(taken + 1));
        vstd::seq_lib::lemma_multiset_commutative(head.push(moved), managed.skip(taken + 1));
        vstd::seq_lib::lemma_multiset_commutative(head, managed.skip(taken));
        vstd::seq_lib::lemma_multiset_commutative(seq![moved], managed.skip(taken + 1));
        assert(seq![moved] =~= Seq::<CallFrame>::empty().push(moved));
        assert(merged_trace(rules, managed, longer).to_multiset() =~= merged_trace(
            rules,
            managed,
            shorter,
        ).to_multiset());
    } else {
        assert(native.take(upto - 1) == shorter);
        assert(merged_trace(rules, managed, longer) =~= head.push(frame) + managed.skip(taken));
        assert(merged_trace(rules, managed, shorter) =~= head + managed.skip(taken));
        vstd::seq_lib::lemma_multiset_commutative(head.push(frame), managed.skip(taken));
        vstd::seq_lib::lemma_multiset_commutative(head, managed.skip(taken));
        assert(merged_trace(rules, managed, longer).to_multiset() =~= merged_trace(
            rules,
            managed,
            shorter,
        ).to_multiset().insert(frame));
    }
}

/// The frames are accounted for up to `upto`: the merged trace of a prefix of
/// the native trace, together with the boundary frames that were replaced,
/// holds each frame as often as the managed trace and that prefix hold it.
proof fn frames_accounted_for_prefix(
    rules: Seq<MatcherModel>,
    managed: Seq<CallFrame>,
    native: Seq<CallFrame>,
    upto: int,
)
    requires
        0 <= upto <= native.len(),
    ensures
        merged_trace(rules, managed, native.take(upto)).to_multiset().add(
            replaced_frames(rules, managed, native, upto).to_multiset(),
        ) == managed.to_multiset().add(native.take(upto).to_multiset()),
    decreases upto,
{
    broadcast use vstd::seq_lib::group_to_multiset_ensures;

    if upto == 0 {
        let none = native.take(0);
        assert(none =~= Seq::<CallFrame>::empty());
        assert(merged_trace(rules, managed, none) =~= managed);
        assert(merged_trace(rules, managed, none).to_multiset().add(
            replaced_frames(rules, managed, native, 0).to_multiset(),
        ) =~= managed.to_multiset().add(none.to_multiset()));
    } else {
        frames_accounted_for_prefix(rules, managed, native, upto - 1);
        merged_trace_of_longer_prefix(rules, managed, native, upto);
        let frame = native[upto - 1];
        let earlier = replaced_frames(rules, managed, native, upto - 1);
        let later = replaced_frames(rules, managed, native, upto);
        let shorter = native.take(upto - 1);
        let longer = native.take(upto);
        let before = merged_trace(rules, managed, shorter).to_multiset();
        let after = merged_trace(rules, managed, longer).to_multiset();
        assert(longer =~= shorter.push(frame));
        shorter.to_multiset_ensures();
        earlier.to_multiset_ensures();
        assert(longer.to_multiset() =~= shorter.to_multiset().insert(frame));
        assert(before.add(earlier.to_multiset()) == managed.to_multiset().add(
            shorter.to_multiset(),
        ));
        if substituted_at(rules, managed, native, upto - 1) {
            assert(later == earlier.push(frame));
            assert(later.to_multiset() =~= earlier.to_multiset().insert(frame));
            assert(after == before);
            assert(after.add(later.to_multiset()) =~= before.add(earlier.to_multiset()).insert(
                frame,
            ));
        } else {
            assert(later == earlier);
            assert(after == before.insert(frame));
            assert(after.add(later.to_multiset()) =~= before.add(earlier.to_multiset()).insert(
                frame,
            ));
        }
        assert(managed.to_multiset().add(longer.to_multiset()) =~= managed.to_multiset().add(
            shorter.to_multiset(),
        ).insert(frame));
    }
}

/// No frame is lost and none is made up: the merged trace, together with the
/// boundary frames that a managed frame replaced, holds each frame exactly as
/// often as the two given traces together hold it. So every managed frame and
/// every ordinary native frame stands in the merged trace once for each time
/// it was given.
pub proof fn frames_accounted_for(
    rules: Seq<MatcherModel>,
    managed: Seq<CallFrame>,
    native: Seq<CallFrame>,
)
    ensures
        merged_trace(rules, managed, native).to_multiset().add(
            replaced_frames(rules, managed, native, native.len() as int).to_multiset(),
        ) == managed.to_multiset().add(native.to_multiset()),
{
    frames_accounted_for_prefix(rules, managed, native, native.len() as int);
    assert(native.take(native.len() as int) == native);
}

/// The merge as one pass over the native trace from its first frame, with a
/// cursor into the managed trace: an ordinary frame is kept; a boundary takes
/// the managed frame under the cursor and moves the cursor on, or is kept
/// when the cursor has passed the last managed frame; at the end the managed
/// frames from the cursor on are appended.
pub open spec fn forward_pass(
    rules: Seq<MatcherModel>,
    managed: Seq<CallFrame>,
    native: Seq<CallFrame>,
    cursor: int,
) -> Seq<CallFrame>
    decreases native.len(),
{
    if native.len() == 0 {
        managed.skip(cursor)
    } else if is_boundary(rules, native.first()) && cursor < managed.len() {
        seq![managed[cursor]] + forward_pass(rules, managed, native.drop_first(), cursor + 1)
    } else {
        seq![native.first()] + forward_pass(rules, managed, native.drop_first(), cursor)
    }
}

/// The boundaries of a trace, counted from its first frame.
proof fn boundary_count_from_front(rules: Seq<MatcherModel>, frames: Seq<CallFrame>)
    requires
        frames.len() > 0,
    ensures
        boundary_count(rules, frames) == boundary_count(rules, frames.drop_first()) + if is_boundary(
            rules,
            frames.first(),
        ) {
            1nat
        } else {
            0nat
        },
    decreases frames.len(),
{
    if frames.len() == 1 {
        assert(frames.drop_last().len() == 0);
        assert(frames.drop_first().len() == 0);
    } else {
        boundary_count_from_front(rules, frames.drop_last());
        assert(frames.drop_last().drop_first() == frames.drop_first().drop_last());
        assert(frames.drop_last().first() == frames.first());
        assert(frames.drop_first().last() == frames.last());
    }
}

/// The merged trace, taken apart at the first native frame.
proof fn merged_trace_from_front(
    rules: Seq<MatcherModel>,
    managed: Seq<CallFrame>,
    native: Seq<CallFrame>,
)
    requires
        native.len() > 0,
    ensures
        is_boundary(rules, native.first()) && managed.len() > 0 ==> merged_trace(
            rules,
            managed,
            native,
        ) == seq![managed[0]] + merged_trace(rules, managed.skip(1), native.drop_first()),
        !(is_boundary(rules, native.first()) && managed.len() > 0) ==> merged_trace(
            rules,
            managed,
            native,
        ) == seq![native.first()] + merged_trace(rules, managed, native.drop_first()),
{
    let rest = native.drop_first();
    let whole = merged_trace(rules, managed, native);
    boundary_count_from_front(rules, native);
    assert(native.take(0).len() == 0);
    assert forall|at: int| 1 <= at <= native.len() implies boundary_count(rules, native.take(at))
        == boundary_count(rules, rest.take(at - 1)) + if is_boundary(rules, native.first()) {
        1nat
    } else {
        0nat
    } by {
        boundary_count_from_front(rules, native.take(at));
        assert(native.take(at).drop_first() == rest.take(at - 1));
        assert(native.take(at).first() == native.first());
    }
    if is_boundary(rules, native.first()) && managed.len() > 0 {
        let fewer = managed.skip(1);
        let other = seq![managed[0]] + merged_trace(rules, fewer, rest);
        assert(consumed(rules, managed, native) == consumed(rules, fewer, rest) + 1);
        assert(whole.len() == other.len());
        assert forall|at: int| 0 <= at < whole.len() implies whole[at] == other[at] by {
            if 1 <= at < native.len() {
                assert(native[at] == rest[at - 1]);
                assert(whole[at] == slot(rules, managed, native, at));
                assert(other[at] == slot(rules, fewer, rest, at - 1));
            }
        }
        assert(whole =~= other);
    } else {
        let other = seq![native.first()] + merged_trace(rules, managed, rest);
        assert(consumed(rules, managed, native) == consumed(rules, managed, rest));
        assert(whole.len() == other.len());
        assert forall|at: int| 0 <= at < whole.len() implies whole[at] == other[at] by {
            if 1 <= at < native.len() {
                assert(native[at] == rest[at - 1]);
                assert(whole[at] == slot(rules, managed, native, at));
                assert(other[at] == slot(rules, managed, rest, at - 1));
            }
        }
        assert(whole =~= other);
    }
}

/// The pass from a cursor is the merge of the managed frames from that cursor
/// on.
pub proof fn forward_pass_from_cursor(
    rules: Seq<MatcherModel>,
    managed: Seq<CallFrame>,
    native: Seq<CallFrame>,
    cursor: int,
)
    requires
        0 <= cursor <= managed.len(),
    ensures
        forward_pass(rules, managed, native, cursor) == merged_trace(
            rules,
            managed.skip(cursor),
            native,
        ),
    decreases native.len(),
{
    let ahead = managed.skip(cursor);
    if native.len() == 0 {
        assert(merged_trace(rules, ahead, native) =~= ahead);
    } else {
        merged_trace_from_front(rules, ahead, native);
        if is_boundary(rules, native.first()) && cursor < managed.len() {
            forward_pass_from_cursor(rules, managed, native.drop_first(), cursor + 1);
            assert(ahead.skip(1) == managed.skip(cursor + 1));
        } else {
            forward_pass_from_cursor(rules, managed, native.drop_first(), cursor);
        }
    }
}

/// The merged trace is what one forward pass over the native trace gives,
/// the cursor starting at the first managed frame.
pub proof fn merged_trace_is_forward_pass(
    rules: Seq<MatcherModel>,
    managed: Seq<CallFrame>,
    native: Seq<CallFrame>,
)
    ensures
        merged_trace(rules, managed, native) == forward_pass(rules, managed, native, 0),
{
    forward_pass_from_cursor(rules, managed, native, 0);
    assert(managed.skip(0) == managed);
}

/// Classification reads the function name and nothing else: two frames of
/// one name are of one kind, under any table and under the standard one.
pub proof fn classification_depends_on_name_only(
    rules: Seq<MatcherModel>,
    first: CallFrame,
    second: CallFrame,
)
    requires
        first.func_name() == second.func_name(),
    ensures
        kind_under(rules, first) == kind_under(rules, second),
        kind_of(first) == kind_of(second),
{
}

} // verus!
