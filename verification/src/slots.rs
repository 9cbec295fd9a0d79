//! Primitives on the slots of a backing store: taking a value out of a slot
//! and relocating a block of values inside one store.

use vstd::prelude::*;

verus! {

/// Whether `v` is a value that `T::default()` may return, that is, a value
/// that may fill a vacated slot.
pub open spec fn is_placeholder<T: Default>(v: T) -> bool {
    call_ensures(T::default, (), v)
}

/// Moves the value out of slot `i` and leaves a placeholder in its place.
pub fn take_slot<T: Default>(buf: &mut Vec<T>, i: usize) -> (v: T)
    requires
        i < old(buf)@.len(),
    ensures
        v == old(buf)@[i as int],
        is_placeholder(final(buf)@[i as int]),
        final(buf)@ == old(buf)@.update(i as int, final(buf)@[i as int]),
{
    let mut v = T::default();
    core::mem::swap(&mut buf[i], &mut v);
    v
}

/// Relocates the block of `len` slots that starts at `src_beg` to the lower
/// position `dst_beg`, lowest index first. Each slot of the destination gets
/// the value `src_beg - dst_beg` places above it; each slot of the source
/// that lies past the destination is left holding a placeholder; every other
/// slot keeps its value.
pub fn copy<T: Default>(buf: &mut Vec<T>, src_beg: usize, dst_beg: usize, len: usize)
    requires
        dst_beg <= src_beg,
        src_beg + len <= old(buf)@.len(),
    ensures
        final(buf)@.len() == old(buf)@.len(),
        forall|i: int|
            dst_beg <= i < dst_beg + len ==> final(buf)@[i] == old(buf)@[i + (src_beg - dst_beg)],
        forall|i: int|
            src_beg <= i < src_beg + len && dst_beg + len <= i ==> is_placeholder(
                #[trigger] final(buf)@[i],
            ),
        forall|i: int|
            0 <= i < old(buf)@.len() && !(dst_beg <= i < dst_beg + len) && !(src_beg <= i < src_beg
                + len) ==> final(buf)@[i] == old(buf)@[i],
{
    let mut k: usize = 0;
    while k < len
        invariant
            k <= len,
            dst_beg <= src_beg,
            src_beg + len <= buf.len(),
            buf@.len() == old(buf)@.len(),
            forall|i: int|
                dst_beg <= i < dst_beg + k ==> buf@[i] == old(buf)@[i + (src_beg - dst_beg)],
            forall|i: int|
                src_beg <= i < src_beg + k && dst_beg + k <= i ==> is_placeholder(
                    #[trigger] buf@[i],
                ),
            forall|i: int|
                0 <= i < buf@.len() && !(dst_beg <= i < dst_beg + k) && !(src_beg <= i < src_beg
                    + k) ==> buf@[i] == old(buf)@[i],
        decreases len - k,
    {
        let v = take_slot(buf, src_beg + k);
        buf.set(dst_beg + k, v);
        k += 1;
    }
}

/// Relocates the block of `len` slots that ends before `src_end` to the
/// higher position that ends before `dst_end`, highest index first. Each slot
/// of the destination gets the value `dst_end - src_end` places below it;
/// each slot of the source that lies before the destination is left holding a
/// placeholder; every other slot keeps its value.
pub fn revcopy<T: Default>(buf: &mut Vec<T>, src_end: usize, dst_end: usize, len: usize)
    requires
        len <= src_end,
        src_end <= dst_end,
        dst_end <= old(buf)@.len(),
    ensures
        final(buf)@.len() == old(buf)@.len(),
        forall|i: int|
            dst_end - len <= i < dst_end ==> final(buf)@[i] == old(buf)@[i - (dst_end - src_end)],
        forall|i: int|
            src_end - len <= i < src_end && i < dst_end - len ==> is_placeholder(
                #[trigger] final(buf)@[i],
            ),
        forall|i: int|
            0 <= i < old(buf)@.len() && !(dst_end - len <= i < dst_end) && !(src_end - len <= i
                < src_end) ==> final(buf)@[i] == old(buf)@[i],
{
    let mut k: usize = 0;
    while k < len
        invariant
            k <= len,
            len <= src_end,
            src_end <= dst_end,
            dst_end <= buf.len(),
            buf@.len() == old(buf)@.len(),
            forall|i: int|
                dst_end - k <= i < dst_end ==> buf@[i] == old(buf)@[i - (dst_end - src_end)],
            forall|i: int|
                src_end - k <= i < src_end && i < dst_end - k ==> is_placeholder(
                    #[trigger] buf@[i],
                ),
            forall|i: int|
                0 <= i < buf@.len() && !(dst_end - k <= i < dst_end) && !(src_end - k <= i
                    < src_end) ==> buf@[i] == old(buf)@[i],
        decreases len - k,
    {
        k += 1;
        let v = take_slot(buf, src_end - k);
        buf.set(dst_end - k, v);
    }
}

} // verus!
