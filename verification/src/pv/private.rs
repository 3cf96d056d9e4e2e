//! Reference-counted storage that is copied before a shared handle is
//! written to.
//!
//! A handle is cheap to clone: every clone points to the same block. A
//! mutating operation writes in place only where it holds the one handle to
//! the block and the block has room; otherwise it builds a new block and
//! leaves the old one to the other handles.

use std::rc::Rc;
use vstd::prelude::*;
use vstd::std_specs::cmp::PartialEqSpec;

verus! {

/// `Rc::get_mut`. It returns a mutable reference to the value inside the `Rc`
/// where no other `Rc` or `Weak` points to the same allocation, and `None`
/// otherwise. The contract says that the reference, where one is returned,
/// starts at the value held, that what is written through it is what the `Rc`
/// then holds, and that the `Rc` is unchanged where none is returned. Whether
/// the handle is the only one is not something a contract can know, so nothing
/// says which of the two comes back.
#[verifier::external_body]
fn rc_get_mut<T>(this: &mut Rc<T>) -> (r: Option<&mut T>)
    ensures
        match r {
            Some(inner) => *inner == **old(this) && **final(this) == *final(inner),
            None => *final(this) == *old(this),
        },
{
    Rc::get_mut(this)
}

/// Whether `copy` holds, item for item, a clone of what `source` holds.
pub open spec fn clones_of<T: Clone>(source: Seq<T>, copy: Seq<T>) -> bool {
    &&& copy.len() == source.len()
    &&& forall|i: int| 0 <= i < source.len() ==> cloned(#[trigger] source[i], copy[i])
}

/// Whether `after` is `before` with `item` added at the end, the items that
/// were there left as they are or cloned.
pub open spec fn appended<T: Clone>(before: Seq<T>, item: T, after: Seq<T>) -> bool {
    &&& after.len() == before.len() + 1
    &&& clones_of(before, after.take(before.len() as int))
    &&& after[before.len() as int] == item
}

/// Whether `after` is `before` with a clone of each item of `other` added at
/// the end, the items that were there left as they are or cloned.
pub open spec fn concatenated<T: Clone>(before: Seq<T>, other: Seq<T>, after: Seq<T>) -> bool {
    &&& after.len() == before.len() + other.len()
    &&& clones_of(before, after.take(before.len() as int))
    &&& clones_of(other, after.skip(before.len() as int))
}

/// Where cloning an item gives the item itself, a sequence of clones is the
/// sequence it was cloned from.
pub proof fn lemma_clones_are_equal<T: Clone>(source: Seq<T>, copy: Seq<T>)
    requires
        clones_of(source, copy),
        forall|a: T, b: T| #[trigger] cloned(a, b) ==> a == b,
    ensures
        copy == source,
{
    assert(copy =~= source);
}

/// The capacity given to a block that is built to hold `needed` items: twice
/// what is needed, or the largest `usize` where that does not fit.
pub open spec fn grown_size(needed: nat) -> nat {
    if needed * 2 <= usize::MAX {
        needed * 2
    } else {
        usize::MAX as nat
    }
}

fn grown(needed: usize) -> (size: usize)
    ensures
        size == grown_size(needed as nat),
        size >= needed,
{
    match needed.checked_mul(2) {
        Some(doubled) => doubled,
        None => usize::MAX,
    }
}

/// The number of slots behind a buffer after a change that needs `needed`
/// slots. The block is kept, with the slots it has, where the handle is the
/// only one to it and the slots suffice. Otherwise the buffer moves to a
/// block sized for twice what is needed: because there is no room, or because
/// other handles share the block and must not see the change.
pub open spec fn alloc_size_after(unique: bool, alloc_size: nat, needed: nat) -> nat {
    if unique && alloc_size >= needed {
        alloc_size
    } else {
        grown_size(needed)
    }
}

/// The number of slots behind a buffer with `alloc_size` slots after a change
/// that needs `needed` slots, given whether its handle is the only one.
pub fn next_alloc_size(unique: bool, alloc_size: usize, needed: usize) -> (size: usize)
    ensures
        size == alloc_size_after(unique, alloc_size as nat, needed as nat),
        size >= needed,
{
    if unique && alloc_size >= needed {
        alloc_size
    } else {
        grown(needed)
    }
}

/// A single shared value.
#[derive(Debug)]
pub struct PvFixedSize<T> {
    pub(crate) data: Rc<T>,
}

impl<T> View for PvFixedSize<T> {
    type V = T;

    open(crate) spec fn view(&self) -> T {
        *self.data
    }
}

impl<T> PvFixedSize<T> {
    /// A new box that holds `val`, with this handle the only one to it.
    pub fn new(val: T) -> (r: Self)
        ensures
            r@ == val,
    {
        PvFixedSize { data: Rc::new(val) }
    }

    /// The value, for writing, where this is the only handle to it; `None`
    /// where the value is shared, and then nothing changes.
    pub fn get_data_mut(&mut self) -> (r: Option<&mut T>)
        ensures
            match r {
                Some(inner) => *inner == old(self)@ && final(self)@ == *final(inner),
                None => *final(self) == *old(self),
            },
    {
        rc_get_mut(&mut self.data)
    }

    /// The value, for reading.
    pub fn get_data(&self) -> (r: &T)
        ensures
            *r == self@,
    {
        &*self.data
    }
}

impl<T: Clone> PvFixedSize<T> {
    /// A handle that shares the value with no other: this one where it is the
    /// only one, else a handle to a new box with a clone of the value.
    pub fn move_out(self) -> (r: Self)
        ensures
            cloned(self@, r@),
    {
        let mut this = self;

        // Whether another handle shares the box is for `Rc` to say, and no
        // contract can know the answer. What is returned for either answer
        // is stated by `unshared`.
        let unique = rc_get_mut(&mut this.data).is_some();
        this.unshared(unique)
    }
}

impl<T: Copy> PvFixedSize<T> {
    /// As `move_out`, for a value that is copied bit for bit.
    pub fn copy_out(self) -> (r: Self)
        ensures
            r@ == self@,
    {
        let mut this = self;
        let unique = rc_get_mut(&mut this.data).is_some();
        if unique {
            this
        } else {
            PvFixedSize::new(*this.get_data())
        }
    }
}

impl<T: Clone> PvFixedSize<T> {
    /// What `move_out` gives, told whether this handle is the only one to its
    /// box: this handle where it is, else a handle to a new box that holds a
    /// clone of the value.
    pub fn unshared(self, unique: bool) -> (r: Self)
        ensures
            unique ==> r == self,
            !unique ==> vstd::pervasive::strictly_cloned(self@, r@),
    {
        if unique {
            self
        } else {
            PvFixedSize::new(self.get_data().clone())
        }
    }
}

impl<T> Clone for PvFixedSize<T> {
    /// Another handle to the same box.
    fn clone(&self) -> (r: Self)
        ensures
            r == *self,
    {
        PvFixedSize { data: self.data.clone() }
    }
}

impl<T: PartialEq> PartialEq for PvFixedSize<T> {
    fn eq(&self, other: &PvFixedSize<T>) -> (r: bool) {
        *self.get_data() == *other.get_data()
    }
}

impl<T: PartialEq> vstd::std_specs::cmp::PartialEqSpecImpl for PvFixedSize<T> {
    open spec fn obeys_eq_spec() -> bool {
        T::obeys_eq_spec()
    }

    open spec fn eq_spec(&self, other: &PvFixedSize<T>) -> bool {
        self@.eq_spec(&other@)
    }
}

impl<T: Eq> Eq for PvFixedSize<T> {

}

impl<T> From<T> for PvFixedSize<T> {
    fn from(value: T) -> (r: Self)
        ensures
            r@ == value,
    {
        PvFixedSize::new(value)
    }
}

impl<T> vstd::std_specs::convert::FromSpecImpl<T> for PvFixedSize<T> {
    open spec fn obeys_from_spec() -> bool {
        false
    }

    open spec fn from_spec(value: T) -> PvFixedSize<T> {
        arbitrary()
    }
}

/// The block behind a buffer: the items, and the number of slots the block
/// was sized for.
#[derive(Debug)]
pub(crate) struct PvArrayData<T> {
    pub(crate) items: Vec<T>,
    pub(crate) alloc_size: usize,
}

impl<T> PvArrayData<T> {
    #[verifier::type_invariant]
    pub(crate) open spec fn fits(self) -> bool {
        self.items@.len() <= self.alloc_size
    }

    /// An empty block with `size` slots.
    fn new(size: usize) -> (r: Self)
        ensures
            r.items@ == Seq::<T>::empty(),
            r.alloc_size == size,
    {
        PvArrayData { items: Vec::with_capacity(size), alloc_size: size }
    }

    /// Gives the block `newsize` slots and keeps the items where they are.
    fn resize(&mut self, newsize: usize)
        requires
            old(self).items@.len() <= newsize,
        ensures
            final(self).items@ == old(self).items@,
            final(self).alloc_size == newsize,
    {
        let mut items: Vec<T> = Vec::new();
        std::mem::swap(&mut items, &mut self.items);
        let len = items.len();
        if newsize > len {
            items.reserve(newsize - len);
        }
        self.alloc_size = newsize;
        self.items = items;
    }

    /// Writes `value` into the first free slot.
    fn push(&mut self, value: T)
        requires
            old(self).items@.len() < old(self).alloc_size,
        ensures
            final(self).items@ == old(self).items@.push(value),
            final(self).alloc_size == old(self).alloc_size,
    {
        let mut items: Vec<T> = Vec::new();
        std::mem::swap(&mut items, &mut self.items);
        items.push(value);
        self.items = items;
    }

    /// Drops the items from position `len` on.
    fn truncate(&mut self, len: usize)
        requires
            len <= old(self).items@.len(),
        ensures
            final(self).items@ == old(self).items@.take(len as int),
            final(self).alloc_size == old(self).alloc_size,
    {
        proof {
            use_type_invariant(&*self);
        }
        let mut items: Vec<T> = Vec::new();
        std::mem::swap(&mut items, &mut self.items);
        items.truncate(len);
        self.items = items;
    }
}

impl<T: Clone> PvArrayData<T> {
    /// A new block with `newsize` slots that holds a clone of each item.
    fn resized(&self, newsize: usize) -> (r: Self)
        requires
            self.items@.len() <= newsize,
        ensures
            clones_of(self.items@, r.items@),
            r.alloc_size == newsize,
    {
        let mut items: Vec<T> = Vec::with_capacity(newsize);
        items.extend_from_slice(self.items.as_slice());
        PvArrayData { items, alloc_size: newsize }
    }

    /// Writes a clone of each item of `other` into the free slots.
    fn extend(&mut self, other: &[T])
        requires
            old(self).items@.len() + other@.len() <= old(self).alloc_size,
        ensures
            final(self).items@.len() == old(self).items@.len() + other@.len(),
            final(self).items@.take(old(self).items@.len() as int) == old(self).items@,
            clones_of(other@, final(self).items@.skip(old(self).items@.len() as int)),
            final(self).alloc_size == old(self).alloc_size,
    {
        let mut items: Vec<T> = Vec::new();
        std::mem::swap(&mut items, &mut self.items);
        items.extend_from_slice(other);
        self.items = items;
    }
}

/// A growable buffer of `T` behind a shared handle.
#[derive(Debug)]
pub struct PvpArray<T> {
    pub(crate) data: Rc<PvArrayData<T>>,
}

impl<T> View for PvpArray<T> {
    type V = Seq<T>;

    open(crate) spec fn view(&self) -> Seq<T> {
        self.data.items@
    }
}

impl<T> PvpArray<T> {
    /// The number of slots of the block behind this handle.
    pub open(crate) spec fn capacity(&self) -> nat {
        self.data.alloc_size as nat
    }

    /// An empty buffer with room for `size` items.
    pub fn new_empty_sized(size: usize) -> (r: Self)
        ensures
            r@ == Seq::<T>::empty(),
            r.capacity() == size,
    {
        PvpArray { data: Rc::new(PvArrayData::new(size)) }
    }

    /// An empty buffer with room for 16 items.
    pub fn new_empty() -> (r: Self)
        ensures
            r@ == Seq::<T>::empty(),
            r.capacity() == 16,
    {
        PvpArray::new_empty_sized(16)
    }

    /// The items, for reading.
    pub fn get_data(&self) -> (r: &[T])
        ensures
            r@ == self@,
    {
        self.data.items.as_slice()
    }

    /// The number of items.
    pub fn len(&self) -> (n: usize)
        ensures
            n == self@.len(),
            n <= self.capacity(),
    {
        proof {
            use_type_invariant(&*self.data);
        }
        self.data.items.len()
    }

    /// The number of slots.
    pub fn alloc_size(&self) -> (n: usize)
        ensures
            n == self.capacity(),
            self@.len() <= n,
    {
        proof {
            use_type_invariant(&*self.data);
        }
        self.data.alloc_size
    }
}

impl<T: Clone> PvpArray<T> {
    /// A buffer that holds a clone of each item of `pvs`, with twice as many
    /// slots.
    pub fn new(pvs: &[T]) -> (r: Self)
        ensures
            clones_of(pvs@, r@),
            r.capacity() == grown_size(pvs@.len()),
    {
        let mut block: PvArrayData<T> = PvArrayData::new(grown(pvs.len()));
        block.extend(pvs);
        proof {
            assert(block.items@.skip(0) == block.items@);
        }
        PvpArray { data: Rc::new(block) }
    }

    /// Makes this handle the only one to a block with `newsize` slots: the
    /// block it has, resized, where no other handle shares it, else a new
    /// block with a clone of each item.
    pub fn resize_move(&mut self, newsize: usize)
        requires
            old(self)@.len() <= newsize,
        ensures
            clones_of(old(self)@, final(self)@),
            final(self).capacity() == newsize,
    {
        match rc_get_mut(&mut self.data) {
            Some(block) => {
                block.resize(newsize);
            },
            None => {
                let block = self.data.resized(newsize);
                self.data = Rc::new(block);
            },
        }
    }

    /// Adds `other` at the end. The item is written in place where this is
    /// the only handle to the block and a slot is free; otherwise the buffer
    /// moves to a block sized for twice the new length, and every other
    /// handle keeps the old block as it was.
    pub fn append(&mut self, other: T)
        requires
            old(self)@.len() < usize::MAX,
        ensures
            appended(old(self)@, other, final(self)@),
            final(self).capacity() == alloc_size_after(
                true,
                old(self).capacity(),
                old(self)@.len() + 1,
            ) || final(self).capacity() == alloc_size_after(
                false,
                old(self).capacity(),
                old(self)@.len() + 1,
            ),
    {
        let len = self.len();
        match rc_get_mut(&mut self.data) {
            Some(block) => {
                let newsize = next_alloc_size(true, block.alloc_size, len + 1);
                if newsize != block.alloc_size {
                    block.resize(newsize);
                }
                block.push(other);
                proof {
                    assert(block.items@.take(len as int) == old(self)@);
                }
            },
            None => {
                let newsize = next_alloc_size(false, self.data.alloc_size, len + 1);
                let mut block = self.data.resized(newsize);
                block.push(other);
                proof {
                    assert(block.items@.take(len as int) == block.items@.drop_last());
                }
                self.data = Rc::new(block);
            },
        }
    }

    /// Adds a clone of each item of `other` at the end, in place or in a new
    /// block as `append` does, the new block sized for twice the new length.
    pub fn concat(&mut self, other: &PvpArray<T>)
        requires
            old(self)@.len() + other@.len() <= usize::MAX,
        ensures
            concatenated(old(self)@, other@, final(self)@),
            final(self).capacity() == alloc_size_after(
                true,
                old(self).capacity(),
                old(self)@.len() + other@.len(),
            ) || final(self).capacity() == alloc_size_after(
                false,
                old(self).capacity(),
                old(self)@.len() + other@.len(),
            ),
    {
        let len = self.len();
        let needed = len + other.len();
        match rc_get_mut(&mut self.data) {
            Some(block) => {
                let newsize = next_alloc_size(true, block.alloc_size, needed);
                if newsize != block.alloc_size {
                    block.resize(newsize);
                }
                block.extend(other.get_data());
            },
            None => {
                let newsize = next_alloc_size(false, self.data.alloc_size, needed);
                let mut block = self.data.resized(newsize);
                let ghost copied = block.items@;
                block.extend(other.get_data());
                proof {
                    assert(block.items@.take(len as int) == copied);
                }
                self.data = Rc::new(block);
            },
        }
    }

    /// Drops the last item.
    pub fn pop(&mut self)
        requires
            old(self)@.len() > 0,
        ensures
            clones_of(old(self)@.drop_last(), final(self)@),
            final(self).capacity() == old(self).capacity(),
    {
        self.popn(1);
    }

    /// Drops the last `n` items. Where other handles share the block, the
    /// buffer first moves to a block of its own with as many slots.
    pub fn popn(&mut self, n: usize)
        requires
            n <= old(self)@.len(),
        ensures
            clones_of(old(self)@.take(old(self)@.len() - n), final(self)@),
            final(self).capacity() == old(self).capacity(),
    {
        let keep = self.len() - n;
        match rc_get_mut(&mut self.data) {
            Some(block) => {
                block.truncate(keep);
            },
            None => {
                let mut block = self.data.resized(self.data.alloc_size);
                block.truncate(keep);
                self.data = Rc::new(block);
            },
        }
    }

    /// A clone of the item at position `i`.
    pub fn get(&self, i: usize) -> (r: T)
        requires
            i < self@.len(),
        ensures
            cloned(self@[i as int], r),
    {
        self.data.items[i].clone()
    }
}

impl<T> Clone for PvpArray<T> {
    /// Another handle to the same block.
    fn clone(&self) -> (r: Self)
        ensures
            r == *self,
    {
        PvpArray { data: self.data.clone() }
    }
}

impl<T: PartialEq> PartialEq for PvpArray<T> {
    fn eq(&self, other: &PvpArray<T>) -> (r: bool) {
        let n = self.len();
        if n != other.len() {
            return false;
        }
        let mut i: usize = 0;
        while i < n
            invariant
                n == self@.len(),
                n == other@.len(),
                i <= n,
                T::obeys_eq_spec() ==> forall|j: int| 0 <= j < i ==> self@[j].eq_spec(&other@[j]),
            decreases n - i,
        {
            if !(self.data.items[i] == other.data.items[i]) {
                return false;
            }
            i = i + 1;
        }
        true
    }
}

impl<T: PartialEq> vstd::std_specs::cmp::PartialEqSpecImpl for PvpArray<T> {
    open spec fn obeys_eq_spec() -> bool {
        T::obeys_eq_spec()
    }

    /// Two buffers are equal where they hold as many items and the items are
    /// equal, place by place, whatever the capacity of either.
    open spec fn eq_spec(&self, other: &PvpArray<T>) -> bool {
        &&& self@.len() == other@.len()
        &&& forall|j: int| 0 <= j < self@.len() ==> self@[j].eq_spec(&other@[j])
    }
}

impl<T: Eq> Eq for PvpArray<T> {

}

impl<T: Clone> From<&[T]> for PvpArray<T> {
    fn from(value: &[T]) -> (r: Self)
        ensures
            clones_of(value@, r@),
            r.capacity() == grown_size(value@.len()),
    {
        PvpArray::new(value)
    }
}

impl<T: Clone> vstd::std_specs::convert::FromSpecImpl<&[T]> for PvpArray<T> {
    open spec fn obeys_from_spec() -> bool {
        false
    }

    open spec fn from_spec(value: &[T]) -> PvpArray<T> {
        arbitrary()
    }
}

/// A call that adds to a buffer.
pub enum PvpChange<T> {
    /// `append`, with the item.
    Append(T),
    /// `concat`, with the items of the other buffer.
    Concat(Seq<T>),
}

/// Whether a buffer that holds `before` may hold `after` once `change` was
/// made on it.
pub open spec fn changed<T: Clone>(before: Seq<T>, change: PvpChange<T>, after: Seq<T>) -> bool {
    match change {
        PvpChange::Append(item) => appended(before, item, after),
        PvpChange::Concat(other) => concatenated(before, other, after),
    }
}

/// A clone is not touched by what is done to the buffer it was taken from.
/// `kept` is a clone of `buffer`. Then the calls `changes` are made on the
/// buffer, one after the other, and `states[i]` is what the buffer holds
/// after the first `i` of them. The clone goes on holding what the buffer
/// held when the clone was taken, and the buffer keeps those items in front
/// of what it gains. This is stated for items whose clones are the items
/// themselves.
pub proof fn lemma_clone_isolated<T: Clone>(
    buffer: PvpArray<T>,
    kept: PvpArray<T>,
    changes: Seq<PvpChange<T>>,
    states: Seq<Seq<T>>,
)
    requires
        kept == buffer,
        states.len() == changes.len() + 1,
        states[0] == buffer@,
        forall|i: int|
            0 <= i < changes.len() ==> changed(states[i], #[trigger] changes[i], states[i + 1]),
        forall|a: T, b: T| #[trigger] cloned(a, b) ==> a == b,
    ensures
        kept@ == states[0],
        kept.capacity() == buffer.capacity(),
        forall|i: int|
            0 <= i < states.len() ==> kept@.len() <= (#[trigger] states[i]).len() && states[i].take(
                kept@.len() as int,
            ) == kept@,
    decreases changes.len(),
{
    let n = kept@.len() as int;
    if changes.len() == 0 {
        assert(states[0].take(n) == kept@);
    } else {
        let last = changes.len() as int;
        lemma_clone_isolated(buffer, kept, changes.drop_last(), states.drop_last());
        assert(states.drop_last()[last - 1] == states[last - 1]);
        assert(changed(states[last - 1], changes[last - 1], states[last]));
        let before = states[last - 1];
        let after = states[last];
        lemma_clones_are_equal(before, after.take(before.len() as int));
        assert(after.take(n) == before.take(n)) by {
            assert(after.take(before.len() as int).take(n) == after.take(n));
        }
        assert forall|i: int| 0 <= i < states.len() implies kept@.len() <= (
        #[trigger] states[i]).len() && states[i].take(n) == kept@ by {
            if i < last {
                assert(states.drop_last()[i] == states[i]);
            }
        }
    }
}

/// A clone of a buffer has as many items as the buffer and compares equal to
/// it, where each item compares equal to itself.
pub proof fn lemma_clone_compares_equal<T: PartialEq>(buffer: PvpArray<T>, clone: PvpArray<T>)
    requires
        clone == buffer,
        forall|x: T| #[trigger] x.eq_spec(&x),
    ensures
        clone@.len() == buffer@.len(),
        clone.eq_spec(&buffer),
        buffer.eq_spec(&clone),
{
}

}
