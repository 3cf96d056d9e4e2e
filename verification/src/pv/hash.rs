//! Hashing of values.
//!
//! A value is hashed by what it stands for: its kind, then its contents.
//! Equal values feed a hasher the same bytes. An object cannot be hashed, nor
//! a list that holds one.

use crate::pv::bytes::PvBytes;
use crate::pv::{value_eq, Pv, PvArray, PvBool, PvInt, PvString, PvValue};
use std::collections::hash_map::DefaultHasher;
use std::hash::Hasher;
use vstd::bytes::{spec_u64_to_le_bytes, u64_to_le_bytes};
use vstd::prelude::*;
use vstd::std_specs::hash::DefaultHasherAdditionalSpecFns;

verus! {

/// Whether a value can be hashed: it is no object and holds none.
pub open spec fn hashable(v: PvValue) -> bool
    decreases v, 0nat,
{
    match v {
        PvValue::Object(_) => false,
        PvValue::Array(items) => all_hashable(items),
        _ => true,
    }
}

/// Whether each of `items` can be hashed.
pub open spec fn all_hashable(items: Seq<PvValue>) -> bool
    decreases items, 1nat,
{
    forall|i: int| 0 <= i < items.len() ==> hashable(#[trigger] items[i])
}

/// The number that stands for the word `n` in a hash: `n` itself where it is
/// not negative, else `n` plus two to the power of 64.
pub open spec fn word_code(n: isize) -> u64 {
    if n >= 0 {
        n as u64
    } else {
        (n + 0x1_0000_0000_0000_0000) as u64
    }
}

/// What hashing a boolean feeds the hasher: one byte, 1 for true.
pub open spec fn bool_writes(b: bool) -> Seq<Seq<u8>> {
    seq![seq![if b { 1u8 } else { 0u8 }]]
}

/// What hashing an integer feeds the hasher: its code in eight bytes, lowest
/// first.
pub open spec fn int_writes(n: isize) -> Seq<Seq<u8>> {
    seq![spec_u64_to_le_bytes(word_code(n))]
}

/// What hashing a text feeds the hasher: its bytes, then the byte 255, which
/// no text holds.
pub open spec fn text_writes(bytes: Seq<u8>) -> Seq<Seq<u8>> {
    seq![bytes, seq![0xffu8]]
}

/// What hashing a byte string feeds the hasher: the number of bytes, then
/// the bytes.
pub open spec fn bytes_writes(bytes: Seq<u8>) -> Seq<Seq<u8>> {
    seq![spec_u64_to_le_bytes(bytes.len() as u64), bytes]
}

/// What hashing a list feeds the hasher: the number of items, then each item.
pub open spec fn list_writes(items: Seq<PvValue>) -> Seq<Seq<u8>>
    decreases items, 2nat,
{
    seq![spec_u64_to_le_bytes(items.len() as u64)] + items_writes(items)
}

/// What hashing each of `items` in turn feeds the hasher.
pub open spec fn items_writes(items: Seq<PvValue>) -> Seq<Seq<u8>>
    decreases items, 1nat,
{
    if items.len() == 0 {
        Seq::empty()
    } else {
        items_writes(items.drop_last()) + hash_writes(items.last())
    }
}

/// What hashing a value feeds the hasher: a byte for its kind, then its
/// contents.
pub open spec fn hash_writes(v: PvValue) -> Seq<Seq<u8>>
    decreases v, 0nat,
{
    match v {
        PvValue::Invalid => seq![seq![0u8]],
        PvValue::Null => seq![seq![1u8]],
        PvValue::Bool(b) => seq![seq![2u8]] + bool_writes(b),
        PvValue::Int(n) => seq![seq![3u8]] + int_writes(n),
        PvValue::String(bytes) => seq![seq![4u8]] + text_writes(bytes),
        PvValue::Array(items) => seq![seq![5u8]] + list_writes(items),
        PvValue::Object(_) => seq![seq![6u8]],
    }
}

/// Equal values, where the first can be hashed, are the same value.
pub proof fn lemma_equal_hashable_same(a: PvValue, b: PvValue)
    requires
        hashable(a),
        value_eq(a, b),
    ensures
        a == b,
    decreases a,
{
    match (a, b) {
        (PvValue::Array(x), PvValue::Array(y)) => {
            assert forall|i: int| 0 <= i < x.len() implies x[i] == y[i] by {
                lemma_equal_hashable_same(x[i], y[i]);
            }
            assert(x =~= y);
        },
        _ => {},
    }
}

/// Hashing agrees with equality: of two equal values, where the first can be
/// hashed, so can the second, and both feed a hasher the same bytes.
pub proof fn lemma_hash_respects_eq(a: PvValue, b: PvValue)
    requires
        hashable(a),
        value_eq(a, b),
    ensures
        hashable(b),
        hash_writes(a) == hash_writes(b),
        DefaultHasher::spec_finish(hash_writes(a)) == DefaultHasher::spec_finish(hash_writes(b)),
{
    lemma_equal_hashable_same(a, b);
}

fn write_byte(state: &mut DefaultHasher, byte: u8)
    ensures
        final(state)@ == old(state)@.push(seq![byte]),
{
    let one: [u8; 1] = [byte];
    state.write(one.as_slice());
    proof {
        assert(one@ =~= seq![byte]);
    }
}

fn write_u64(state: &mut DefaultHasher, n: u64)
    ensures
        final(state)@ == old(state)@.push(spec_u64_to_le_bytes(n)),
{
    let bytes = u64_to_le_bytes(n);
    state.write(bytes.as_slice());
}

impl PvBool {
    /// Feeds the boolean to `state`.
    pub fn hash(&self, state: &mut DefaultHasher)
        ensures
            final(state)@ == old(state)@ + bool_writes(self.0),
    {
        write_byte(
            state,
            if self.0 {
                1
            } else {
                0
            },
        );
        proof {
            assert(old(state)@.push(bool_writes(self.0)[0]) =~= old(state)@ + bool_writes(self.0));
        }
    }
}

impl PvInt {
    /// Feeds the integer to `state`.
    pub fn hash(&self, state: &mut DefaultHasher)
        ensures
            final(state)@ == old(state)@ + int_writes(self.0),
    {
        let code: u64 = if self.0 >= 0 {
            self.0 as u64
        } else {
            (self.0 as i128 + 0x1_0000_0000_0000_0000i128) as u64
        };
        write_u64(state, code);
        proof {
            assert(old(state)@.push(int_writes(self.0)[0]) =~= old(state)@ + int_writes(self.0));
        }
    }
}

impl PvString {
    /// Feeds the text to `state`.
    pub fn hash(&self, state: &mut DefaultHasher)
        ensures
            final(state)@ == old(state)@ + text_writes(self@),
    {
        state.write(self.data.get_data());
        write_byte(state, 0xff);
        proof {
            assert(old(state)@.push(self@).push(seq![0xffu8]) =~= old(state)@ + text_writes(
                self@,
            ));
        }
    }
}

impl PvBytes {
    /// Feeds the byte string to `state`.
    pub fn hash(&self, state: &mut DefaultHasher)
        ensures
            final(state)@ == old(state)@ + bytes_writes(self@),
    {
        write_u64(state, self.data.len() as u64);
        state.write(self.data.get_data());
        proof {
            assert(state@ =~= old(state)@ + bytes_writes(self@));
        }
    }
}

impl PvArray {
    /// Whether the list can be hashed: it holds no object, at any depth.
    pub fn is_hashable(&self) -> (r: bool)
        ensures
            r == hashable(PvValue::Array(self@)),
        decreases *self, 1nat,
    {
        let n = self.data.len();
        let mut i: usize = 0;
        while i < n
            invariant
                n == self.data@.len(),
                i <= n,
                forall|k: int| 0 <= k < i ==> hashable(#[trigger] self@[k]),
            decreases n - i,
        {
            if !self.data.get_data()[i].is_hashable() {
                assert(!hashable(self@[i as int]));
                return false;
            }
            i = i + 1;
        }
        true
    }

    /// Feeds the list to `state`.
    pub fn hash(&self, state: &mut DefaultHasher)
        requires
            hashable(PvValue::Array(self@)),
        ensures
            final(state)@ == old(state)@ + list_writes(self@),
        decreases *self, 1nat,
    {
        let n = self.data.len();
        write_u64(state, n as u64);
        let mut i: usize = 0;
        proof {
            assert(self@.take(0) =~= Seq::<PvValue>::empty());
            assert(old(state)@.push(spec_u64_to_le_bytes(n as u64)) =~= old(state)@
                + seq![spec_u64_to_le_bytes(n as u64)] + items_writes(self@.take(0)));
        }
        while i < n
            invariant
                n == self.data@.len(),
                i <= n,
                hashable(PvValue::Array(self@)),
                state@ == old(state)@ + seq![spec_u64_to_le_bytes(n as u64)] + items_writes(
                    self@.take(i as int),
                ),
            decreases n - i,
        {
            let ghost before = state@;
            assert(hashable(self@[i as int]));
            self.data.get_data()[i].hash(state);
            proof {
                let front = self@.take(i + 1);
                assert(front.drop_last() =~= self@.take(i as int));
                assert(front.last() == self@[i as int]);
                assert(before + hash_writes(self@[i as int]) =~= old(state)@
                    + seq![spec_u64_to_le_bytes(n as u64)] + items_writes(front));
            }
            i = i + 1;
        }
        proof {
            assert(self@.take(n as int) =~= self@);
            assert(state@ =~= old(state)@ + list_writes(self@));
        }
    }
}

impl Pv {
    /// Whether the value can be hashed: it is no object and holds none.
    pub fn is_hashable(&self) -> (r: bool)
        ensures
            r == hashable(self@),
        decreases *self, 0nat,
    {
        match self {
            Pv::Object(_) => false,
            Pv::Array(list) => list.is_hashable(),
            _ => true,
        }
    }

    /// Feeds the value to `state`. An object has no hash, so the value must
    /// be one that can be hashed.
    pub fn hash(&self, state: &mut DefaultHasher)
        requires
            hashable(self@),
        ensures
            final(state)@ == old(state)@ + hash_writes(self@),
        decreases *self, 0nat,
    {
        match self {
            Pv::Invalid(_) => {
                write_byte(state, 0);
                proof {
                    assert(state@ =~= old(state)@ + hash_writes(self@));
                }
            },
            Pv::Null(_) => {
                write_byte(state, 1);
                proof {
                    assert(state@ =~= old(state)@ + hash_writes(self@));
                }
            },
            Pv::Bool(b) => {
                write_byte(state, 2);
                b.hash(state);
                proof {
                    assert(state@ =~= old(state)@ + hash_writes(self@));
                }
            },
            Pv::Int(n) => {
                write_byte(state, 3);
                n.hash(state);
                proof {
                    assert(state@ =~= old(state)@ + hash_writes(self@));
                }
            },
            Pv::String(text) => {
                write_byte(state, 4);
                text.hash(state);
                proof {
                    assert(state@ =~= old(state)@ + hash_writes(self@));
                }
            },
            Pv::Array(list) => {
                write_byte(state, 5);
                list.hash(state);
                proof {
                    assert(state@ =~= old(state)@ + hash_writes(self@));
                }
            },
            Pv::Object(_) => vstd::pervasive::unreached(),
        }
    }

    /// The hash of the value.
    pub fn hash_code(&self) -> (r: u64)
        requires
            hashable(self@),
        ensures
            r == DefaultHasher::spec_finish(hash_writes(self@)),
    {
        let mut state = DefaultHasher::new();
        self.hash(&mut state);
        proof {
            assert(state@ =~= hash_writes(self@));
        }
        state.finish()
    }
}

}
