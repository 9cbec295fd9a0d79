//! The gap buffer itself: its model, its invariant and its operations.

use crate::laws::{lemma_growth_keeps_sequence, lemma_relocation_keeps_sequence};
use crate::slots::{copy, is_placeholder, revcopy, take_slot};
use vstd::prelude::*;

verus! {

/// A sequence of `T` kept in one backing store, with a run of unused slots
/// (the gap) at the cursor.
///
/// The slots before `gap_beg` hold the elements before the cursor, the slots
/// from `gap_end` on hold the elements after it, and the slots in between
/// carry no element.
pub struct GapBuffer<T> {
    /// Index of the first slot of the gap; also the cursor, counted in
    /// elements.
    pub gap_beg: usize,
    /// Index one past the last slot of the gap.
    pub gap_end: usize,
    /// The backing store; its length is the capacity.
    pub buffer: Vec<T>,
}

impl<T> View for GapBuffer<T> {
    type V = Seq<T>;

    /// The logical sequence: the slots before the gap, then the slots after it.
    open spec fn view(&self) -> Seq<T> {
        self.buffer@.subrange(0, self.gap_beg as int) + self.buffer@.subrange(
            self.gap_end as int,
            self.buffer@.len() as int,
        )
    }
}

/// The capacity that a store of capacity `cap` grows to: twice as much, and
/// one slot where there was none.
pub open spec fn grown_cap(cap: nat) -> nat {
    if cap == 0 {
        1
    } else {
        2 * cap
    }
}

impl<T: Default> GapBuffer<T> {
    /// The gap lies inside the store.
    pub open spec fn wf(&self) -> bool {
        self.gap_beg <= self.gap_end <= self.buffer@.len()
    }

    /// Every slot of the gap holds a placeholder.
    pub open spec fn vacated(&self) -> bool {
        forall|i: int|
            self.gap_beg <= i < self.gap_end ==> is_placeholder(#[trigger] self.buffer@[i])
    }

    /// The number of slots in the store.
    pub open spec fn capacity(&self) -> nat {
        self.buffer@.len()
    }

    /// The number of slots in the gap.
    pub open spec fn gap_capacity(&self) -> nat {
        (self.gap_end - self.gap_beg) as nat
    }

    /// The number of elements in the logical sequence.
    pub open spec fn logical_length(&self) -> nat {
        (self.capacity() - self.gap_capacity()) as nat
    }

    /// A buffer of `cap` slots, all of them in the gap and holding placeholders.
    pub fn new(cap: usize) -> (r: Self)
        ensures
            r.wf(),
            r.vacated(),
            r.gap_beg == 0,
            r.gap_end == cap,
            r.capacity() == cap,
            r.gap_capacity() == cap,
            r.logical_length() == 0,
            r@ == Seq::<T>::empty(),
    {
        let mut buffer: Vec<T> = Vec::with_capacity(cap);
        let mut k: usize = 0;
        while k < cap
            invariant
                k <= cap,
                buffer@.len() == k,
                forall|i: int| 0 <= i < k ==> is_placeholder(#[trigger] buffer@[i]),
            decreases cap - k,
        {
            buffer.push(T::default());
            k += 1;
        }
        let r = Self { gap_beg: 0, gap_end: cap, buffer };
        assert(r@ =~= Seq::<T>::empty());
        r
    }

    /// The number of slots in the store.
    pub fn cap(&self) -> (r: usize)
        ensures
            r == self.capacity(),
    {
        self.buffer.len()
    }

    /// The number of slots in the gap.
    pub fn gap_cap(&self) -> (r: usize)
        requires
            self.wf(),
        ensures
            r == self.gap_capacity(),
    {
        self.gap_end - self.gap_beg
    }

    /// The number of elements in the logical sequence.
    pub fn len(&self) -> (r: usize)
        requires
            self.wf(),
        ensures
            r == self.logical_length(),
            r == self@.len(),
    {
        self.cap() - self.gap_cap()
    }

    /// Where slot `i` has its value from once the cursor has been set to
    /// `pos`: the index of a slot of the store as it was before, or `None`
    /// for a slot that was emptied and holds a placeholder. A slot of the old
    /// gap that no element moved into keeps what it held.
    pub open spec fn slot_source(&self, pos: int, i: int) -> Option<int> {
        let b = self.gap_beg as int;
        let e = self.gap_end as int;
        let g = e - b;
        if pos < b {
            if i < pos || i >= e {
                Some(i)
            } else if i >= pos + g {
                Some(i - g)
            } else if i < b {
                None
            } else {
                Some(i)
            }
        } else {
            if i < b || i >= pos + g {
                Some(i)
            } else if i < pos {
                Some(i + g)
            } else if i < e {
                Some(i)
            } else {
                None
            }
        }
    }

    /// Whether `self` is `pre` after its cursor has been set to `pos`: the gap
    /// begins at `pos` with the capacity it had, and every slot of the store
    /// holds what `slot_source` says.
    pub open spec fn relocated_from(&self, pre: &Self, pos: int) -> bool {
        &&& self.gap_beg == pos
        &&& self.gap_end == pos + pre.gap_capacity()
        &&& self.capacity() == pre.capacity()
        &&& forall|i: int|
            0 <= i < pre.capacity() ==> match pre.slot_source(pos, i) {
                Some(j) => self.buffer@[i] == pre.buffer@[j],
                None => is_placeholder(#[trigger] self.buffer@[i]),
            }
    }

    /// Sets the cursor to `pos`: the gap then begins at slot `pos` and has
    /// the capacity it had, and the logical sequence is as it was.
    ///
    /// A position before the gap's begin moves the elements between it and
    /// the gap to the gap's end, highest index first. A position past the
    /// gap's begin moves as many elements from behind the gap to its begin as
    /// the cursor advances, lowest index first. Every slot that an element
    /// left and none entered holds a placeholder.
    pub fn set_cursor(&mut self, pos: usize)
        requires
            old(self).wf(),
            pos <= old(self).logical_length(),
        ensures
            final(self).wf(),
            final(self).relocated_from(old(self), pos as int),
            final(self).logical_length() == old(self).logical_length(),
            final(self)@ == old(self)@,
            old(self).vacated() ==> final(self).vacated(),
    {
        let gap_beg: usize = self.gap_beg;
        let gap_end: usize = self.gap_end;
        let gap_cap: usize = self.gap_cap();

        if pos < gap_beg {
            let cpy_len: usize = gap_beg - pos;
            revcopy(&mut self.buffer, gap_beg, gap_end, cpy_len);
        } else {
            let cpy_len: usize = pos - gap_beg;
            assert(gap_end + cpy_len <= self.buffer.len());
            copy(&mut self.buffer, gap_end, gap_beg, cpy_len);
        }

        assert(pos + gap_cap <= self.buffer.len());
        self.gap_beg = pos;
        self.gap_end = pos + gap_cap;

        proof {
            lemma_relocation_keeps_sequence(*old(self), *self, pos as int);
        }
    }

    /// Whether `self` is `pre` after its store has grown: the slots before
    /// the gap are as they were, the slots behind it are as they were and
    /// end the larger store, and the gap has taken up the added slots.
    pub open spec fn grown_from(&self, pre: &Self) -> bool {
        let added = grown_cap(pre.capacity()) - pre.capacity();
        &&& self.capacity() == grown_cap(pre.capacity())
        &&& self.gap_beg == pre.gap_beg
        &&& self.gap_end == pre.gap_end + added
        &&& forall|i: int| 0 <= i < pre.gap_beg ==> self.buffer@[i] == pre.buffer@[i]
        &&& forall|i: int|
            self.gap_end <= i < self.capacity() ==> self.buffer@[i] == pre.buffer@[i - added]
    }

    /// Makes room for one more element. Where the gap has a slot left,
    /// nothing changes; where it has none, the store grows to `grown_cap` of
    /// its capacity, and every slot of the new gap holds a placeholder. The
    /// logical sequence and the cursor stay as they were.
    pub fn extend_gap(&mut self)
        requires
            old(self).wf(),
            old(self).gap_capacity() == 0 ==> grown_cap(old(self).capacity()) <= usize::MAX,
        ensures
            final(self).wf(),
            final(self).gap_capacity() > 0,
            final(self)@ == old(self)@,
            final(self).gap_beg == old(self).gap_beg,
            final(self).logical_length() == old(self).logical_length(),
            old(self).gap_capacity() > 0 ==> *final(self) == *old(self),
            old(self).gap_capacity() == 0 ==> final(self).grown_from(old(self))
                && final(self).vacated(),
            old(self).gap_capacity() == 0 ==> final(self).capacity() >= 2 * old(self).capacity()
                && final(self).capacity() > old(self).capacity(),
            old(self).vacated() ==> final(self).vacated(),
    {
        if self.gap_beg < self.gap_end {
            return ;
        }
        let cur_len: usize = self.buffer.len();
        let new_len: usize = if cur_len == 0 {
            1
        } else {
            cur_len * 2
        };
        let gap_beg: usize = self.gap_beg;
        let gap_end: usize = self.gap_end;
        let mut newbuf: Vec<T> = Vec::with_capacity(new_len);

        let mut i: usize = 0;
        while i < gap_beg
            invariant
                i <= gap_beg <= cur_len,
                old(self).wf(),
                old(self).buffer@.len() == cur_len,
                gap_beg == old(self).gap_beg,
                gap_end == old(self).gap_end,
                self.buffer@.len() == cur_len,
                self.gap_beg == old(self).gap_beg,
                self.gap_end == old(self).gap_end,
                newbuf@ == old(self).buffer@.subrange(0, i as int),
                forall|j: int| i <= j < cur_len ==> self.buffer@[j] == old(self).buffer@[j],
            decreases gap_beg - i,
        {
            let v = take_slot(&mut self.buffer, i);
            newbuf.push(v);
            i += 1;
            assert(newbuf@ =~= old(self).buffer@.subrange(0, i as int));
        }

        let mut k: usize = cur_len;
        while k < new_len
            invariant
                cur_len <= k <= new_len,
                old(self).wf(),
                old(self).buffer@.len() == cur_len,
                gap_beg == old(self).gap_beg,
                gap_end == old(self).gap_end,
                newbuf@.len() == gap_beg + (k - cur_len),
                newbuf@.subrange(0, gap_beg as int) == old(self).buffer@.subrange(
                    0,
                    gap_beg as int,
                ),
                forall|j: int| gap_beg <= j < newbuf@.len() ==> is_placeholder(#[trigger] newbuf@[j]),
            decreases new_len - k,
        {
            newbuf.push(T::default());
            k += 1;
            assert(newbuf@.subrange(0, gap_beg as int) =~= old(self).buffer@.subrange(
                0,
                gap_beg as int,
            ));
        }

        let ghost filled = newbuf@;
        let mut i: usize = gap_end;
        while i < cur_len
            invariant
                gap_end <= i <= cur_len,
                old(self).wf(),
                old(self).buffer@.len() == cur_len,
                gap_beg == old(self).gap_beg,
                gap_end == old(self).gap_end,
                gap_beg == gap_end,
                self.buffer@.len() == cur_len,
                self.gap_beg == old(self).gap_beg,
                self.gap_end == old(self).gap_end,
                filled.len() == gap_beg + (new_len - cur_len),
                newbuf@ == filled + old(self).buffer@.subrange(gap_end as int, i as int),
                forall|j: int| i <= j < cur_len ==> self.buffer@[j] == old(self).buffer@[j],
            decreases cur_len - i,
        {
            let v = take_slot(&mut self.buffer, i);
            newbuf.push(v);
            i += 1;
            assert(newbuf@ =~= filled + old(self).buffer@.subrange(gap_end as int, i as int));
        }

        self.buffer = newbuf;
        self.gap_end = gap_beg + (new_len - cur_len);

        proof {
            assert forall|j: int| 0 <= j < gap_beg implies self.buffer@[j] == old(self).buffer@[j] by {
                assert(filled[j] == filled.subrange(0, gap_beg as int)[j]);
            }
            lemma_growth_keeps_sequence(*old(self), *self);
        }
    }

    /// Inserts `t` at the cursor and moves the cursor behind it. Where the
    /// gap has no slot left, the store grows first.
    pub fn insert(&mut self, t: T)
        requires
            old(self).wf(),
            old(self).gap_capacity() == 0 ==> grown_cap(old(self).capacity()) <= usize::MAX,
        ensures
            final(self).wf(),
            final(self)@ == old(self)@.insert(old(self).gap_beg as int, t),
            final(self).gap_beg == old(self).gap_beg + 1,
            final(self).logical_length() == old(self).logical_length() + 1,
            final(self).gap_capacity() == final(self).capacity() - old(self).capacity() + old(
                self,
            ).gap_capacity() - 1,
            old(self).gap_capacity() == 0 ==> final(self).capacity() >= 2 * old(self).capacity(),
            final(self).buffer@[old(self).gap_beg as int] == t,
            old(self).gap_capacity() > 0 ==> final(self).gap_end == old(self).gap_end
                && final(self).buffer@ == old(self).buffer@.update(old(self).gap_beg as int, t),
            old(self).gap_capacity() == 0 ==> (Self {
                gap_beg: old(self).gap_beg,
                gap_end: final(self).gap_end,
                buffer: final(self).buffer,
            }).grown_from(old(self)) && final(self).vacated(),
            old(self).vacated() ==> final(self).vacated(),
    {
        self.extend_gap();
        self.buffer.set(self.gap_beg, t);
        self.gap_beg += 1;
        proof {
            assert(self@ =~= old(self)@.insert(old(self).gap_beg as int, t));
        }
    }
}

} // verus!
