//! Lists: a shared buffer of values.

use crate::pv::private::{alloc_size_after, grown_size, PvpArray};
use crate::pv::{items_eq, items_equal, lemma_value_eq_reflexive, values_of, Pv, PvValue};
use std::ops::Add;
use vstd::prelude::*;

verus! {

/// A list of values.
#[derive(Debug)]
pub struct PvArray {
    pub(crate) data: PvpArray<Pv>,
}

impl View for PvArray {
    type V = Seq<PvValue>;

    /// What the items stand for, in order.
    open(crate) spec fn view(&self) -> Seq<PvValue> {
        values_of(self.data@)
    }
}

impl PvArray {
    /// The number of items the storage behind the list has room for.
    pub open(crate) spec fn capacity(&self) -> nat {
        self.data.capacity()
    }

    /// The empty list, with room for `size` items.
    pub fn new_empty_sized(size: usize) -> (r: Self)
        ensures
            r@ == Seq::<PvValue>::empty(),
            r.capacity() == size,
    {
        PvArray { data: PvpArray::new_empty_sized(size) }
    }

    /// The empty list, with room for 16 items.
    pub fn new_empty() -> (r: Self)
        ensures
            r@ == Seq::<PvValue>::empty(),
            r.capacity() == 16,
    {
        PvArray { data: PvpArray::new_empty() }
    }

    /// The list of the values `pvs`, with room for twice as many.
    pub fn new(pvs: &[Pv]) -> (r: Self)
        ensures
            r@ == values_of(pvs@),
            r.capacity() == grown_size(pvs@.len()),
    {
        let data = PvpArray::new(pvs);
        proof {
            assert(data@ =~= pvs@);
        }
        PvArray { data }
    }

    /// The number of items.
    pub fn len(&self) -> (n: usize)
        ensures
            n == self@.len(),
    {
        self.data.len()
    }

    /// The item at position `i`, sharing its storage with the one in the
    /// list.
    pub fn get(&self, i: usize) -> (r: Pv)
        requires
            i < self@.len(),
        ensures
            r@ == self@[i as int],
    {
        self.data.get(i)
    }

    /// The list followed by the items of `other`, written in place where
    /// this is the only handle to the storage and there is room, else in new
    /// storage sized for twice the new length; `other` and every clone of
    /// this list read as before.
    pub fn concat(self, other: &PvArray) -> (r: Self)
        requires
            self@.len() + other@.len() <= usize::MAX,
        ensures
            r@ == self@ + other@,
            r.capacity() == alloc_size_after(true, self.capacity(), self@.len() + other@.len())
                || r.capacity() == alloc_size_after(
                false,
                self.capacity(),
                self@.len() + other@.len(),
            ),
    {
        let mut data = self.data;
        data.concat(&other.data);
        proof {
            let n = self.data@.len() as int;
            assert(data@ =~= self.data@ + other.data@) by {
                assert(forall|i: int| 0 <= i < n ==> data@[i] == data@.take(n)[i]);
                assert(forall|i: int|
                    0 <= i < other.data@.len() ==> data@[n + i] == data@.skip(n)[i]);
            }
            assert(values_of(self.data@ + other.data@) =~= values_of(self.data@) + values_of(
                other.data@,
            ));
        }
        PvArray { data }
    }

    /// Adds `other` at the end, in place where this is the only handle to
    /// the storage and there is room, else in new storage sized for twice the
    /// new length; every clone of this list reads as before.
    pub fn append(&mut self, other: Pv)
        requires
            old(self)@.len() < usize::MAX,
        ensures
            final(self)@ == old(self)@.push(other@),
            final(self).capacity() == alloc_size_after(
                true,
                old(self).capacity(),
                old(self)@.len() + 1,
            ) || final(self).capacity() == alloc_size_after(
                false,
                old(self).capacity(),
                old(self)@.len() + 1,
            ),
    {
        self.data.append(other);
        proof {
            let n = old(self).data@.len() as int;
            assert(final(self).data@ =~= old(self).data@.push(other)) by {
                assert(forall|i: int|
                    0 <= i < n ==> final(self).data@[i] == final(self).data@.take(n)[i]);
            }
            assert(values_of(old(self).data@.push(other)) =~= values_of(old(self).data@).push(
                other@,
            ));
        }
    }
}


impl Clone for PvArray {
    /// Another handle to the same storage.
    fn clone(&self) -> (r: Self)
        ensures
            r == *self,
            items_eq(r@, self@),
    {
        proof {
            lemma_value_eq_reflexive(PvValue::Array(self@));
        }
        PvArray { data: self.data.clone() }
    }
}

impl PartialEq for PvArray {
    fn eq(&self, other: &PvArray) -> (r: bool) {
        items_equal(self, other)
    }
}

impl vstd::std_specs::cmp::PartialEqSpecImpl for PvArray {
    open spec fn obeys_eq_spec() -> bool {
        true
    }

    /// Two lists are equal where they hold as many items, equal place by
    /// place, whatever room either has.
    open spec fn eq_spec(&self, other: &PvArray) -> bool {
        items_eq(self@, other@)
    }
}

impl Eq for PvArray {

}


impl From<&[Pv]> for PvArray {
    fn from(value: &[Pv]) -> (r: Self)
        ensures
            r@ == values_of(value@),
    {
        PvArray::new(value)
    }
}

impl vstd::std_specs::convert::FromSpecImpl<&[Pv]> for PvArray {
    open spec fn obeys_from_spec() -> bool {
        false
    }

    open spec fn from_spec(value: &[Pv]) -> PvArray {
        arbitrary()
    }
}

impl From<PvpArray<Pv>> for PvArray {
    fn from(value: PvpArray<Pv>) -> (r: Self)
        ensures
            r@ == values_of(value@),
            r.capacity() == value.capacity(),
    {
        PvArray { data: value }
    }
}

impl vstd::std_specs::convert::FromSpecImpl<PvpArray<Pv>> for PvArray {
    open spec fn obeys_from_spec() -> bool {
        false
    }

    open spec fn from_spec(value: PvpArray<Pv>) -> PvArray {
        arbitrary()
    }
}

impl Add<&PvArray> for PvArray {
    type Output = PvArray;

    fn add(self, other: &PvArray) -> (r: PvArray)
        ensures
            r@ == self@ + other@,
    {
        self.concat(other)
    }
}

impl vstd::std_specs::ops::AddSpecImpl<&PvArray> for PvArray {
    open spec fn obeys_add_spec() -> bool {
        false
    }

    open spec fn add_req(self, other: &PvArray) -> bool {
        self@.len() + other@.len() <= usize::MAX
    }

    open spec fn add_spec(self, other: &PvArray) -> PvArray {
        arbitrary()
    }
}

impl Add<PvArray> for PvArray {
    type Output = PvArray;

    fn add(self, other: PvArray) -> (r: PvArray)
        ensures
            r@ == self@ + other@,
    {
        self.concat(&other)
    }
}

impl vstd::std_specs::ops::AddSpecImpl<PvArray> for PvArray {
    open spec fn obeys_add_spec() -> bool {
        false
    }

    open spec fn add_req(self, other: PvArray) -> bool {
        self@.len() + other@.len() <= usize::MAX
    }

    open spec fn add_spec(self, other: PvArray) -> PvArray {
        arbitrary()
    }
}

}
