//! Byte strings: a shared buffer of bytes with no meaning attached.

use crate::pv::private::{alloc_size_after, grown_size, PvpArray};
use std::ops::Add;
use vstd::prelude::*;

verus! {

/// A byte string.
#[derive(Debug)]
pub struct PvBytes {
    pub(crate) data: PvpArray<u8>,
}

impl View for PvBytes {
    type V = Seq<u8>;

    open(crate) spec fn view(&self) -> Seq<u8> {
        self.data@
    }
}

impl PvBytes {
    /// The number of bytes the storage behind the byte string has room for.
    pub open(crate) spec fn capacity(&self) -> nat {
        self.data.capacity()
    }

    /// The empty byte string, with room for `size` bytes.
    pub fn new_empty_sized(size: usize) -> (r: Self)
        ensures
            r@ == Seq::<u8>::empty(),
            r.capacity() == size,
    {
        PvpArray::<u8>::new_empty_sized(size).into()
    }

    /// The empty byte string, with room for 16 bytes.
    pub fn new_empty() -> (r: Self)
        ensures
            r@ == Seq::<u8>::empty(),
            r.capacity() == 16,
    {
        PvpArray::<u8>::new_empty().into()
    }

    /// The bytes of `pvs`, with room for twice as many.
    pub fn new(pvs: &[u8]) -> (r: Self)
        ensures
            r@ == pvs@,
            r.capacity() == grown_size(pvs@.len()),
    {
        let data = PvpArray::<u8>::new(pvs);
        proof {
            assert(data@ =~= pvs@);
        }
        data.into()
    }

    /// The number of bytes.
    pub fn len(&self) -> (n: usize)
        ensures
            n == self@.len(),
    {
        self.data.len()
    }

    /// The byte string followed by `other`, written in place where this is
    /// the only handle to the storage and there is room, else in new storage
    /// sized for twice the new length.
    pub fn concat(self, other: &PvBytes) -> (r: Self)
        requires
            self@.len() + other@.len() <= usize::MAX,
        ensures
            r@ == self@ + other@,
            r.capacity() == alloc_size_after(true, self.capacity(), self@.len() + other@.len())
                || r.capacity() == alloc_size_after(
                false,
                self.capacity(),
                self@.len() + other@.len(),
            ),
    {
        let mut data = self.data;
        data.concat(&other.data);
        proof {
            assert(data@ =~= self@ + other@) by {
                assert(forall|i: int|
                    0 <= i < self@.len() ==> data@[i] == data@.take(self@.len() as int)[i]);
                assert(forall|i: int|
                    0 <= i < other@.len() ==> data@[self@.len() + i] == data@.skip(
                        self@.len() as int,
                    )[i]);
            }
        }
        data.into()
    }

    /// Adds the byte `other` at the end, in place where this is the only
    /// handle to the storage and there is room, else in new storage sized for
    /// twice the new length.
    pub fn append(&mut self, other: u8)
        requires
            old(self)@.len() < usize::MAX,
        ensures
            final(self)@ == old(self)@.push(other),
            final(self).capacity() == alloc_size_after(
                true,
                old(self).capacity(),
                old(self)@.len() + 1,
            ) || final(self).capacity() == alloc_size_after(
                false,
                old(self).capacity(),
                old(self)@.len() + 1,
            ),
    {
        self.data.append(other);
        proof {
            assert(final(self)@ =~= old(self)@.push(other)) by {
                assert(forall|i: int|
                    0 <= i < old(self)@.len() ==> final(self)@[i] == final(self)@.take(
                        old(self)@.len() as int,
                    )[i]);
            }
        }
    }
}

impl Clone for PvBytes {
    /// Another handle to the same storage.
    fn clone(&self) -> (r: Self)
        ensures
            r == *self,
    {
        PvBytes { data: self.data.clone() }
    }
}

impl PartialEq for PvBytes {
    fn eq(&self, other: &PvBytes) -> (r: bool) {
        let r = self.data == other.data;
        proof {
            if r {
                assert(self@ =~= other@);
            }
        }
        r
    }
}

impl vstd::std_specs::cmp::PartialEqSpecImpl for PvBytes {
    open spec fn obeys_eq_spec() -> bool {
        true
    }

    /// Two byte strings are equal where their bytes are, whatever room
    /// either has.
    open spec fn eq_spec(&self, other: &PvBytes) -> bool {
        self@ == other@
    }
}

impl Eq for PvBytes {

}

impl From<&[u8]> for PvBytes {
    fn from(value: &[u8]) -> (r: Self)
        ensures
            r@ == value@,
    {
        PvBytes::new(value)
    }
}

impl vstd::std_specs::convert::FromSpecImpl<&[u8]> for PvBytes {
    open spec fn obeys_from_spec() -> bool {
        false
    }

    open spec fn from_spec(value: &[u8]) -> PvBytes {
        arbitrary()
    }
}

impl From<PvpArray<u8>> for PvBytes {
    fn from(value: PvpArray<u8>) -> (r: Self)
        ensures
            r@ == value@,
            r.capacity() == value.capacity(),
    {
        PvBytes { data: value }
    }
}

impl vstd::std_specs::convert::FromSpecImpl<PvpArray<u8>> for PvBytes {
    open spec fn obeys_from_spec() -> bool {
        false
    }

    open spec fn from_spec(value: PvpArray<u8>) -> PvBytes {
        arbitrary()
    }
}

impl Add<&PvBytes> for PvBytes {
    type Output = PvBytes;

    fn add(self, other: &PvBytes) -> (r: PvBytes)
        ensures
            r@ == self@ + other@,
    {
        self.concat(other)
    }
}

impl vstd::std_specs::ops::AddSpecImpl<&PvBytes> for PvBytes {
    open spec fn obeys_add_spec() -> bool {
        false
    }

    open spec fn add_req(self, other: &PvBytes) -> bool {
        self@.len() + other@.len() <= usize::MAX
    }

    open spec fn add_spec(self, other: &PvBytes) -> PvBytes {
        arbitrary()
    }
}

}
