//! Values and the shared storage behind them.
//!
//! A value is one of seven kinds. Texts, lists and objects keep their
//! contents in shared storage, so a value is cheap to clone; the clone is a
//! value of its own all the same, since storage is copied before a shared
//! handle is written to.

pub mod array;
pub mod bytes;
pub mod convert;
pub mod hash;
pub mod object;
pub mod ops;
pub mod private;
pub mod singletons;
pub mod string;

pub use array::PvArray;
pub use object::PvObject;
pub use singletons::{PvBool, PvInt, PvInvalid, PvNull};
pub use string::PvString;

use vstd::prelude::*;

verus! {

/// A value of the language: one of seven kinds.
#[derive(Debug)]
pub enum Pv {
    Invalid(PvInvalid),
    Null(PvNull),
    Bool(PvBool),
    Int(PvInt),
    String(PvString),
    Array(PvArray),
    Object(PvObject),
}

/// What a value stands for, apart from how it is stored: neither the room
/// its storage has nor the handles that share it are part of it.
pub enum PvValue {
    Invalid,
    Null,
    Bool(bool),
    Int(isize),
    String(Seq<u8>),
    Array(Seq<PvValue>),
    Object(Seq<(PvValue, PvValue)>),
}

/// What each of `items` stands for.
pub open spec fn values_of(items: Seq<Pv>) -> Seq<PvValue>
    decreases items,
{
    Seq::new(
        items.len(),
        |i: int|
            if 0 <= i < items.len() {
                items[i]@
            } else {
                PvValue::Invalid
            },
    )
}

/// What each of `entries` stands for.
pub open spec fn entries_of(entries: Seq<(Pv, Pv)>) -> Seq<(PvValue, PvValue)>
    decreases entries,
{
    Seq::new(
        entries.len(),
        |i: int|
            if 0 <= i < entries.len() {
                (entries[i].0@, entries[i].1@)
            } else {
                (PvValue::Invalid, PvValue::Invalid)
            },
    )
}

impl View for Pv {
    type V = PvValue;

    open(crate) spec fn view(&self) -> PvValue
        decreases self,
    {
        match self {
            Pv::Invalid(_) => PvValue::Invalid,
            Pv::Null(_) => PvValue::Null,
            Pv::Bool(b) => PvValue::Bool(b.0),
            Pv::Int(n) => PvValue::Int(n.0),
            Pv::String(s) => PvValue::String(s@),
            Pv::Array(a) => PvValue::Array(values_of(a.data@)),
            Pv::Object(o) => PvValue::Object(entries_of(o.data@@)),
        }
    }
}

/// Whether two values are equal: they are of the same kind and hold equal
/// contents. Lists are equal item by item; objects are equal where they have
/// as many entries and every entry of the first has its like in the second.
pub open spec fn value_eq(a: PvValue, b: PvValue) -> bool
    decreases a, 0nat,
{
    match (a, b) {
        (PvValue::Invalid, PvValue::Invalid) => true,
        (PvValue::Null, PvValue::Null) => true,
        (PvValue::Bool(x), PvValue::Bool(y)) => x == y,
        (PvValue::Int(x), PvValue::Int(y)) => x == y,
        (PvValue::String(x), PvValue::String(y)) => x == y,
        (PvValue::Array(x), PvValue::Array(y)) => items_eq(x, y),
        (PvValue::Object(x), PvValue::Object(y)) => entries_eq(x, y),
        _ => false,
    }
}

/// Whether two lists hold as many items, equal place by place.
pub open spec fn items_eq(x: Seq<PvValue>, y: Seq<PvValue>) -> bool
    decreases x, 1nat,
{
    &&& x.len() == y.len()
    &&& forall|i: int| 0 <= i < x.len() ==> value_eq(#[trigger] x[i], y[i])
}

/// Whether `y` has an entry with a key equal to that of `entry` and a value
/// equal to its value.
pub open spec fn entry_in(entry: (PvValue, PvValue), y: Seq<(PvValue, PvValue)>) -> bool
    decreases entry, 1nat,
{
    exists|j: int| 0 <= j < y.len() && entry_eq(entry, #[trigger] y[j])
}

/// Whether two entries have equal keys and equal values.
pub open spec fn entry_eq(a: (PvValue, PvValue), b: (PvValue, PvValue)) -> bool
    decreases a, 0nat,
{
    value_eq(a.0, b.0) && value_eq(a.1, b.1)
}

/// Whether two objects have as many entries, each entry of `x` with its like
/// in `y`.
pub open spec fn entries_eq(x: Seq<(PvValue, PvValue)>, y: Seq<(PvValue, PvValue)>) -> bool
    decreases x, 2nat,
{
    &&& x.len() == y.len()
    &&& forall|i: int| 0 <= i < x.len() ==> entry_in(#[trigger] x[i], y)
}

/// Every value equals itself.
pub proof fn lemma_value_eq_reflexive(v: PvValue)
    ensures
        value_eq(v, v),
    decreases v,
{
    match v {
        PvValue::Array(items) => {
            assert forall|i: int| 0 <= i < items.len() implies value_eq(
                #[trigger] items[i],
                items[i],
            ) by {
                lemma_value_eq_reflexive(items[i]);
            }
        },
        PvValue::Object(entries) => {
            assert forall|i: int| 0 <= i < entries.len() implies entry_in(
                #[trigger] entries[i],
                entries,
            ) by {
                lemma_value_eq_reflexive(entries[i].0);
                lemma_value_eq_reflexive(entries[i].1);
                assert(entry_eq(entries[i], entries[i]));
            }
        },
        _ => {},
    }
}

/// Whether the two values are equal.
pub fn values_equal(a: &Pv, b: &Pv) -> (r: bool)
    ensures
        r == value_eq(a@, b@),
    decreases *a, 0nat,
{
    match (a, b) {
        (Pv::Invalid(_), Pv::Invalid(_)) => true,
        (Pv::Null(_), Pv::Null(_)) => true,
        (Pv::Bool(x), Pv::Bool(y)) => x.0 == y.0,
        (Pv::Int(x), Pv::Int(y)) => x.0 == y.0,
        (Pv::String(x), Pv::String(y)) => *x == *y,
        (Pv::Array(x), Pv::Array(y)) => items_equal(x, y),
        (Pv::Object(x), Pv::Object(y)) => entries_equal(x, y),
        _ => false,
    }
}

/// Whether the two lists are equal.
pub(crate) fn items_equal(a: &PvArray, b: &PvArray) -> (r: bool)
    ensures
        r == items_eq(a@, b@),
    decreases *a, 1nat,
{
    let n = a.data.len();
    if n != b.data.len() {
        return false;
    }
    let mut i: usize = 0;
    while i < n
        invariant
            n == a.data@.len(),
            n == b.data@.len(),
            i <= n,
            forall|j: int| 0 <= j < i ==> value_eq(a@[j], b@[j]),
        decreases n - i,
    {
        if !values_equal(&a.data.get_data()[i], &b.data.get_data()[i]) {
            assert(!value_eq(a@[i as int], b@[i as int]));
            return false;
        }
        i = i + 1;
    }
    true
}

/// Whether `b` has an entry equal to `entry`.
fn entry_found(entry: &(Pv, Pv), b: &PvObject) -> (r: bool)
    ensures
        r == entry_in((entry.0@, entry.1@), b@),
    decreases *entry, 1nat,
{
    let entries = b.data.get_data();
    let n = entries.len();
    let mut j: usize = 0;
    while j < n
        invariant
            n == entries@.len(),
            entries@ == b.data@@,
            j <= n,
            forall|k: int| 0 <= k < j ==> !entry_eq((entry.0@, entry.1@), b@[k]),
        decreases n - j,
    {
        if values_equal(&entry.0, &entries[j].0) && values_equal(&entry.1, &entries[j].1) {
            assert(entry_eq((entry.0@, entry.1@), b@[j as int]));
            return true;
        }
        j = j + 1;
    }
    false
}

/// Whether the two objects are equal.
pub(crate) fn entries_equal(a: &PvObject, b: &PvObject) -> (r: bool)
    ensures
        r == entries_eq(a@, b@),
    decreases *a, 2nat,
{
    let entries = a.data.get_data();
    let n = entries.len();
    if n != b.data.get_data().len() {
        return false;
    }
    let mut i: usize = 0;
    while i < n
        invariant
            n == entries@.len(),
            entries@ == a.data@@,
            n == b.data@@.len(),
            i <= n,
            forall|k: int| 0 <= k < i ==> entry_in(a@[k], b@),
        decreases n - i,
    {
        if !entry_found(&entries[i], b) {
            assert(!entry_in(a@[i as int], b@));
            return false;
        }
        i = i + 1;
    }
    true
}

impl Clone for Pv {
    /// The same value, sharing its storage with this one.
    fn clone(&self) -> (r: Self)
        ensures
            r == *self,
            value_eq(r@, self@),
    {
        proof {
            lemma_value_eq_reflexive(self@);
        }
        match self {
            Pv::Invalid(v) => Pv::Invalid(*v),
            Pv::Null(v) => Pv::Null(*v),
            Pv::Bool(v) => Pv::Bool(*v),
            Pv::Int(v) => Pv::Int(*v),
            Pv::String(v) => Pv::String(v.clone()),
            Pv::Array(v) => Pv::Array(v.clone()),
            Pv::Object(v) => Pv::Object(v.clone()),
        }
    }
}

impl PartialEq for Pv {
    fn eq(&self, other: &Pv) -> (r: bool) {
        values_equal(self, other)
    }
}

impl vstd::std_specs::cmp::PartialEqSpecImpl for Pv {
    open spec fn obeys_eq_spec() -> bool {
        true
    }

    open spec fn eq_spec(&self, other: &Pv) -> bool {
        value_eq(self@, other@)
    }
}

impl Eq for Pv {

}

impl Pv {
    /// The invalid value.
    pub fn invalid() -> (r: Self)
        ensures
            r == Pv::Invalid(PvInvalid),
            r@ == PvValue::Invalid,
    {
        Pv::Invalid(PvInvalid::new())
    }

    /// The null value.
    pub fn null() -> (r: Self)
        ensures
            r == Pv::Null(PvNull),
            r@ == PvValue::Null,
    {
        Pv::Null(PvNull::new())
    }

    /// The boolean `value`.
    pub fn bool(value: bool) -> (r: Self)
        ensures
            r == Pv::Bool(PvBool(value)),
            r@ == PvValue::Bool(value),
    {
        Pv::Bool(PvBool::new(value))
    }

    /// The integer `value`.
    pub fn integer(value: isize) -> (r: Self)
        ensures
            r == Pv::Int(PvInt(value)),
            r@ == PvValue::Int(value),
    {
        Pv::Int(PvInt::new(value))
    }

    /// The empty list.
    pub fn array() -> (r: Self)
        ensures
            r@ == PvValue::Array(Seq::empty()),
    {
        let list = PvArray::new_empty();
        proof {
            assert(list@ =~= Seq::<PvValue>::empty());
        }
        Pv::Array(list)
    }

    /// The empty object.
    pub fn object() -> (r: Self)
        ensures
            r@ == PvValue::Object(Seq::empty()),
    {
        let map = PvObject::new_empty();
        proof {
            assert(map@ =~= Seq::<(PvValue, PvValue)>::empty());
        }
        Pv::Object(map)
    }
}

}
