//! What holds of every gap buffer, stated over its model.

use crate::buffer::{grown_cap, GapBuffer};
use vstd::prelude::*;

verus! {

/// In a well-formed buffer the logical sequence has as many elements as the
/// store has slots outside the gap, and the gap lies inside the store.
pub proof fn lemma_length_is_capacity_less_gap<T: Default>(b: GapBuffer<T>)
    requires
        b.wf(),
    ensures
        0 <= b.gap_beg <= b.gap_end <= b.capacity(),
        b.logical_length() == b.capacity() - (b.gap_end - b.gap_beg),
        b@.len() == b.logical_length(),
        b.gap_beg <= b.logical_length(),
{
}

/// The logical sequence is the elements before the cursor followed by the
/// elements behind it, and the cursor is the number of the former.
pub proof fn lemma_cursor_divides_sequence<T: Default>(b: GapBuffer<T>)
    requires
        b.wf(),
    ensures
        b@.subrange(0, b.gap_beg as int) == b.buffer@.subrange(0, b.gap_beg as int),
        b@.subrange(b.gap_beg as int, b@.len() as int) == b.buffer@.subrange(
            b.gap_end as int,
            b.capacity() as int,
        ),
{
    assert(b@.subrange(0, b.gap_beg as int) =~= b.buffer@.subrange(0, b.gap_beg as int));
    assert(b@.subrange(b.gap_beg as int, b@.len() as int) =~= b.buffer@.subrange(
        b.gap_end as int,
        b.capacity() as int,
    ));
}

/// Setting the cursor keeps the buffer well formed, its logical sequence as
/// it was and its gap as large as it was, and a gap of placeholders stays one.
pub proof fn lemma_relocation_keeps_sequence<T: Default>(
    pre: GapBuffer<T>,
    post: GapBuffer<T>,
    pos: int,
)
    requires
        pre.wf(),
        0 <= pos <= pre.logical_length(),
        post.relocated_from(&pre, pos),
    ensures
        post.wf(),
        post@ == pre@,
        post.gap_capacity() == pre.gap_capacity(),
        post.logical_length() == pre.logical_length(),
        pre.vacated() ==> post.vacated(),
{
    assert(post@ =~= pre@);
}

/// Growth alone keeps the buffer well formed and its logical sequence and
/// cursor as they were; the store at least doubles and gains a slot, and the
/// gap gains every slot that the store gains.
pub proof fn lemma_growth_keeps_sequence<T: Default>(pre: GapBuffer<T>, post: GapBuffer<T>)
    requires
        pre.wf(),
        post.grown_from(&pre),
    ensures
        post.wf(),
        post@ == pre@,
        post.gap_beg == pre.gap_beg,
        post.capacity() >= 2 * pre.capacity(),
        post.capacity() > pre.capacity(),
        post.capacity() == grown_cap(pre.capacity()),
        post.gap_capacity() == pre.gap_capacity() + (post.capacity() - pre.capacity()),
        post.logical_length() == pre.logical_length(),
{
    assert(post@ =~= pre@);
}

/// Two buffers with the same elements before the cursor and the same
/// elements behind it have the same logical sequence, wherever their gaps
/// end and whatever their gaps hold.
pub proof fn lemma_sequence_ignores_gap<T: Default>(a: GapBuffer<T>, b: GapBuffer<T>)
    requires
        a.wf(),
        b.wf(),
        a.gap_beg == b.gap_beg,
        a.logical_length() == b.logical_length(),
        forall|i: int| 0 <= i < a.gap_beg ==> a.buffer@[i] == b.buffer@[i],
        forall|i: int|
            a.gap_end <= i < a.capacity() ==> #[trigger] a.buffer@[i] == b.buffer@[i - a.gap_end
                + b.gap_end],
    ensures
        a@ == b@,
{
    assert(a@ =~= b@);
}

} // verus!
