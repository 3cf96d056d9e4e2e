//! Text: a shared byte buffer that always holds valid UTF-8.

use crate::pv::private::{alloc_size_after, grown_size, PvpArray};
use std::ops::Add;
use vstd::prelude::*;
use vstd::string::StringSliceAdditionalSpecFns;
use vstd::utf8::{decode_utf8, encode_utf8, valid_utf8};

verus! {

/// `std::str::from_utf8`. It checks that the bytes are valid UTF-8 and, where
/// they are, returns them as a string slice, else an error, which this wrapper
/// turns into `None`. The contract says exactly that: a slice comes back if
/// and only if the bytes are valid UTF-8, and its bytes are the bytes given.
#[verifier::external_body]
fn str_from_utf8(bytes: &[u8]) -> (r: Option<&str>)
    ensures
        r is Some <==> valid_utf8(bytes@),
        r matches Some(s) ==> s.spec_bytes() == bytes@,
{
    std::str::from_utf8(bytes).ok()
}

/// Encoding two texts one after the other gives the encoding of the joined
/// text.
pub proof fn lemma_encode_concat(a: Seq<char>, b: Seq<char>)
    ensures
        encode_utf8(a + b) == encode_utf8(a) + encode_utf8(b),
    decreases a.len(),
{
    if a.len() == 0 {
        assert(a + b == b);
        assert(encode_utf8(a) + encode_utf8(b) == encode_utf8(b));
    } else {
        lemma_encode_concat(a.drop_first(), b);
        assert((a + b).drop_first() == a.drop_first() + b);
        assert((a + b)[0] == a[0]);
        let first = vstd::utf8::encode_scalar(a[0] as u32);
        assert((first + encode_utf8(a.drop_first())) + encode_utf8(b) == first + (encode_utf8(
            a.drop_first(),
        ) + encode_utf8(b)));
    }
}

/// Two texts, joined and read back, are the first followed by the second.
pub proof fn lemma_concat_round_trip(a: Seq<char>, b: Seq<char>)
    ensures
        valid_utf8(encode_utf8(a) + encode_utf8(b)),
        decode_utf8(encode_utf8(a) + encode_utf8(b)) == a + b,
{
    lemma_encode_concat(a, b);
    vstd::utf8::encode_utf8_valid_utf8(a + b);
    vstd::utf8::encode_utf8_decode_utf8(a + b);
}

/// A text value.
#[derive(Debug)]
pub struct PvString {
    pub(crate) data: PvpArray<u8>,
}

impl View for PvString {
    type V = Seq<u8>;

    /// The bytes of the text.
    open(crate) spec fn view(&self) -> Seq<u8> {
        self.data@
    }
}

impl PvString {
    #[verifier::type_invariant]
    pub(crate) open spec fn is_text(self) -> bool {
        valid_utf8(self.data@)
    }

    /// The number of bytes the storage behind the text has room for.
    pub open(crate) spec fn capacity(&self) -> nat {
        self.data.capacity()
    }

    /// The characters of the text.
    pub open spec fn chars(&self) -> Seq<char> {
        decode_utf8(self@)
    }

    /// The empty text, with room for `size` bytes.
    pub fn new_empty_sized(size: usize) -> (r: Self)
        ensures
            r@ == Seq::<u8>::empty(),
            r.capacity() == size,
    {
        PvString { data: PvpArray::new_empty_sized(size) }
    }

    /// The empty text, with room for 16 bytes.
    pub fn new_empty() -> (r: Self)
        ensures
            r@ == Seq::<u8>::empty(),
            r.capacity() == 16,
    {
        PvString::new_empty_sized(16)
    }

    /// The text `str`, with room for twice as many bytes.
    pub fn new(str: &str) -> (r: Self)
        ensures
            r@ == encode_utf8(str@),
            r.chars() == str@,
            r.capacity() == grown_size(encode_utf8(str@).len()),
    {
        let data = PvpArray::new(str.as_bytes());
        proof {
            assert(data@ =~= str.spec_bytes());
            vstd::utf8::encode_utf8_valid_utf8(str@);
            vstd::utf8::encode_utf8_decode_utf8(str@);
        }
        PvString { data }
    }

    /// The number of bytes of the text.
    pub fn len(&self) -> (n: usize)
        ensures
            n == self@.len(),
    {
        self.data.len()
    }

    /// The text as a string slice.
    pub fn get_str(&self) -> (r: &str)
        ensures
            r@ == self.chars(),
            encode_utf8(r@) == self@,
    {
        proof {
            use_type_invariant(self);
        }
        match str_from_utf8(self.data.get_data()) {
            Some(s) => {
                proof {
                    vstd::utf8::encode_utf8_decode_utf8(s@);
                }
                s
            },
            None => vstd::pervasive::unreached(),
        }
    }

    /// The text in storage of its own with room for `newsize` bytes: the
    /// storage it has, resized, where no other handle shares it, else new
    /// storage with a copy of the bytes.
    pub fn resize_move(self, newsize: usize) -> (r: Self)
        requires
            self@.len() <= newsize,
        ensures
            r@ == self@,
            r.capacity() == newsize,
    {
        proof {
            use_type_invariant(&self);
        }
        let mut data = self.data;
        data.resize_move(newsize);
        proof {
            assert(data@ =~= self@);
        }
        PvString { data }
    }

    /// The text followed by `other`. The bytes of `other` are written behind
    /// those of this text, in place where this is the only handle to the
    /// storage and there is room, else in new storage sized for twice the new
    /// length; `other` and every clone of this text read as before.
    pub fn concat(self, other: &PvString) -> (r: Self)
        requires
            self@.len() + other@.len() <= usize::MAX,
        ensures
            r@ == self@ + other@,
            r.chars() == self.chars() + other.chars(),
            r.capacity() == alloc_size_after(true, self.capacity(), self@.len() + other@.len())
                || r.capacity() == alloc_size_after(
                false,
                self.capacity(),
                self@.len() + other@.len(),
            ),
    {
        proof {
            use_type_invariant(&self);
            use_type_invariant(other);
        }
        let mut data = self.data;
        data.concat(&other.data);
        proof {
            assert(data@ =~= self@ + other@) by {
                assert(forall|i: int|
                    0 <= i < self@.len() ==> data@[i] == data@.take(self@.len() as int)[i]);
                assert(forall|i: int|
                    0 <= i < other@.len() ==> data@[self@.len() + i] == data@.skip(
                        self@.len() as int,
                    )[i]);
            }
            vstd::utf8::valid_utf8_concat(self@, other@);
            lemma_decode_concat(self@, other@);
        }
        PvString { data }
    }
}

/// Decoding two valid byte sequences one after the other gives the joined
/// text.
pub proof fn lemma_decode_concat(a: Seq<u8>, b: Seq<u8>)
    requires
        valid_utf8(a),
        valid_utf8(b),
    ensures
        valid_utf8(a + b),
        decode_utf8(a + b) == decode_utf8(a) + decode_utf8(b),
{
    vstd::utf8::valid_utf8_concat(a, b);
    vstd::utf8::decode_utf8_encode_utf8(a);
    vstd::utf8::decode_utf8_encode_utf8(b);
    lemma_encode_concat(decode_utf8(a), decode_utf8(b));
    vstd::utf8::encode_utf8_decode_utf8(decode_utf8(a) + decode_utf8(b));
}

impl Clone for PvString {
    /// Another handle to the same storage.
    fn clone(&self) -> (r: Self)
        ensures
            r == *self,
    {
        proof {
            use_type_invariant(self);
        }
        PvString { data: self.data.clone() }
    }
}

impl PartialEq for PvString {
    fn eq(&self, other: &PvString) -> (r: bool) {
        let r = self.data == other.data;
        proof {
            if r {
                assert(self@ =~= other@);
            }
        }
        r
    }
}

impl vstd::std_specs::cmp::PartialEqSpecImpl for PvString {
    open spec fn obeys_eq_spec() -> bool {
        true
    }

    /// Two texts are equal where their bytes are, whatever room either has.
    open spec fn eq_spec(&self, other: &PvString) -> bool {
        self@ == other@
    }
}

impl Eq for PvString {

}


impl From<&str> for PvString {
    fn from(value: &str) -> (r: Self)
        ensures
            r@ == encode_utf8(value@),
    {
        PvString::new(value)
    }
}

impl vstd::std_specs::convert::FromSpecImpl<&str> for PvString {
    open spec fn obeys_from_spec() -> bool {
        false
    }

    open spec fn from_spec(value: &str) -> PvString {
        arbitrary()
    }
}

impl Add<&PvString> for PvString {
    type Output = PvString;

    fn add(self, other: &PvString) -> (r: PvString)
        ensures
            r@ == self@ + other@,
    {
        self.concat(other)
    }
}

impl vstd::std_specs::ops::AddSpecImpl<&PvString> for PvString {
    open spec fn obeys_add_spec() -> bool {
        false
    }

    open spec fn add_req(self, other: &PvString) -> bool {
        self@.len() + other@.len() <= usize::MAX
    }

    open spec fn add_spec(self, other: &PvString) -> PvString {
        arbitrary()
    }
}

impl Add<PvString> for PvString {
    type Output = PvString;

    fn add(self, other: PvString) -> (r: PvString)
        ensures
            r@ == self@ + other@,
    {
        self.concat(&other)
    }
}

impl vstd::std_specs::ops::AddSpecImpl<PvString> for PvString {
    open spec fn obeys_add_spec() -> bool {
        false
    }

    open spec fn add_req(self, other: PvString) -> bool {
        self@.len() + other@.len() <= usize::MAX
    }

    open spec fn add_spec(self, other: PvString) -> PvString {
        arbitrary()
    }
}

}
