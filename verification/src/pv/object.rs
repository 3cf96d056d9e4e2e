//! Objects: a shared map from values to values.
//!
//! The map is kept as its entries, no two of them with equal keys. An object
//! is compared by what it maps, not by the order of its entries.

use crate::pv::private::PvFixedSize;
use crate::pv::{
    entries_eq, entries_equal, entries_of, lemma_value_eq_reflexive, value_eq, values_equal, Pv,
    PvValue,
};
use vstd::prelude::*;

verus! {

/// Whether `i` is where `key` is found in `m`: the first position whose key
/// equals `key`, or the length of `m` where no key does.
pub open spec fn is_key_position(m: Seq<(PvValue, PvValue)>, key: PvValue, i: int) -> bool {
    &&& 0 <= i <= m.len()
    &&& forall|k: int| 0 <= k < i ==> !value_eq((#[trigger] m[k]).0, key)
    &&& i < m.len() ==> value_eq(m[i].0, key)
}

/// The map `m` with `key` set to `value`: the entry with that key gets the
/// new value and stays where it is, or a new entry is added at the end.
pub open spec fn put(m: Seq<(PvValue, PvValue)>, key: PvValue, value: PvValue) -> Seq<
    (PvValue, PvValue),
> {
    let i = choose|i: int| is_key_position(m, key, i);
    if i < m.len() {
        m.update(i, (m[i].0, value))
    } else {
        m.push((key, value))
    }
}

/// The map that holds `entries`, set one after the other: of two entries with
/// equal keys the later one gives the value.
pub open spec fn collected(entries: Seq<(PvValue, PvValue)>) -> Seq<(PvValue, PvValue)>
    decreases entries.len(),
{
    if entries.len() == 0 {
        Seq::empty()
    } else {
        put(collected(entries.drop_last()), entries.last().0, entries.last().1)
    }
}

/// Whether no two entries of `m` have equal keys.
pub open spec fn unique_keys(m: Seq<(PvValue, PvValue)>) -> bool {
    forall|i: int, j: int|
        0 <= i < j < m.len() ==> !value_eq((#[trigger] m[i]).0, (#[trigger] m[j]).0)
}

/// Setting a key keeps the keys of a map apart.
pub proof fn lemma_put_unique(m: Seq<(PvValue, PvValue)>, key: PvValue, value: PvValue)
    requires
        unique_keys(m),
    ensures
        unique_keys(put(m, key, value)),
{
    lemma_key_position_exists(m, key);
    let i = choose|i: int| is_key_position(m, key, i);
    let after = put(m, key, value);
    assert forall|a: int, b: int| 0 <= a < b < after.len() implies !value_eq(
        (#[trigger] after[a]).0,
        (#[trigger] after[b]).0,
    ) by {
        if i < m.len() {
            assert(after[a].0 == m[a].0);
            assert(after[b].0 == m[b].0);
        } else if b < m.len() {
            assert(after[a] == m[a]);
            assert(after[b] == m[b]);
        } else {
            assert(after[a] == m[a]);
        }
    }
}

/// Every key has a position in every map.
pub proof fn lemma_key_position_exists(m: Seq<(PvValue, PvValue)>, key: PvValue)
    ensures
        exists|i: int| is_key_position(m, key, i),
    decreases m.len(),
{
    if m.len() == 0 {
        assert(is_key_position(m, key, 0));
    } else {
        let front = m.drop_last();
        lemma_key_position_exists(front, key);
        let i = choose|i: int| is_key_position(front, key, i);
        assert forall|k: int| 0 <= k < i implies !value_eq((#[trigger] m[k]).0, key) by {
            assert(front[k] == m[k]);
        }
        if i < front.len() {
            assert(front[i] == m[i]);
            assert(is_key_position(m, key, i));
        } else if value_eq(m.last().0, key) {
            assert(is_key_position(m, key, i));
        } else {
            assert(is_key_position(m, key, m.len() as int));
        }
    }
}

/// A key has one position only.
pub proof fn lemma_key_position_unique(m: Seq<(PvValue, PvValue)>, key: PvValue, i: int, j: int)
    requires
        is_key_position(m, key, i),
        is_key_position(m, key, j),
    ensures
        i == j,
{
    if i < j {
        assert(!value_eq(m[i].0, key));
    } else if j < i {
        assert(!value_eq(m[j].0, key));
    }
}

/// The keys of a map built entry by entry are apart.
pub proof fn lemma_collected_unique(entries: Seq<(PvValue, PvValue)>)
    ensures
        unique_keys(collected(entries)),
    decreases entries.len(),
{
    if entries.len() > 0 {
        lemma_collected_unique(entries.drop_last());
        lemma_put_unique(collected(entries.drop_last()), entries.last().0, entries.last().1);
    }
}

/// A map from values to values.
#[derive(Debug)]
pub struct PvObject {
    pub(crate) data: PvFixedSize<Vec<(Pv, Pv)>>,
}

impl View for PvObject {
    type V = Seq<(PvValue, PvValue)>;

    /// What the entries stand for: key and value, in the order kept.
    open(crate) spec fn view(&self) -> Seq<(PvValue, PvValue)> {
        entries_of(self.data@@)
    }
}

/// Sets `key` to `value` in `entries`.
fn set_entry(entries: &mut Vec<(Pv, Pv)>, key: Pv, value: Pv)
    ensures
        entries_of(final(entries)@) == put(entries_of(old(entries)@), key@, value@),
{
    let ghost before = entries_of(entries@);
    let n = entries.len();
    let mut i: usize = 0;
    while i < n
        invariant
            n == entries@.len(),
            entries@ == old(entries)@,
            before == entries_of(entries@),
            i <= n,
            forall|k: int| 0 <= k < i ==> !value_eq((#[trigger] before[k]).0, key@),
        decreases n - i,
    {
        if values_equal(&entries[i].0, &key) {
            let kept = entries[i].0.clone();
            entries.set(i, (kept, value));
            proof {
                assert(is_key_position(before, key@, i as int));
                let chosen = choose|p: int| is_key_position(before, key@, p);
                lemma_key_position_unique(before, key@, i as int, chosen);
                assert(entries_of(entries@) =~= before.update(i as int, (before[i as int].0, value@)));
            }
            return ;
        }
        i = i + 1;
    }
    entries.push((key, value));
    proof {
        assert(is_key_position(before, key@, n as int));
        let chosen = choose|p: int| is_key_position(before, key@, p);
        lemma_key_position_unique(before, key@, n as int, chosen);
        assert(entries_of(entries@) =~= before.push((key@, value@)));
    }
}

impl PvObject {
    #[verifier::type_invariant]
    pub(crate) open spec fn is_map(self) -> bool {
        unique_keys(entries_of(self.data@@))
    }

    /// The empty object.
    pub fn new_empty() -> (r: Self)
        ensures
            r@ == Seq::<(PvValue, PvValue)>::empty(),
    {
        let entries: Vec<(Pv, Pv)> = Vec::new();
        proof {
            assert(entries_of(entries@) =~= Seq::<(PvValue, PvValue)>::empty());
        }
        PvObject { data: PvFixedSize::new(entries) }
    }

    /// The object that maps each key of `data` to its value. Where `data` has
    /// two entries with equal keys, the later one gives the value.
    pub fn new(data: Vec<(Pv, Pv)>) -> (r: Self)
        ensures
            r@ == collected(entries_of(data@)),
            unique_keys(r@),
    {
        let ghost given = entries_of(data@);
        let mut entries: Vec<(Pv, Pv)> = Vec::new();
        let n = data.len();
        let mut i: usize = 0;
        proof {
            assert(entries_of(entries@) =~= Seq::<(PvValue, PvValue)>::empty());
            assert(given.take(0) =~= Seq::<(PvValue, PvValue)>::empty());
        }
        while i < n
            invariant
                n == data@.len(),
                given == entries_of(data@),
                i <= n,
                entries_of(entries@) == collected(given.take(i as int)),
            decreases n - i,
        {
            let key = data[i].0.clone();
            let value = data[i].1.clone();
            set_entry(&mut entries, key, value);
            proof {
                assert(given.take(i + 1).drop_last() =~= given.take(i as int));
                assert(given.take(i + 1).last() == (key@, value@));
            }
            i = i + 1;
        }
        proof {
            assert(given.take(n as int) =~= given);
            lemma_collected_unique(given);
        }
        PvObject { data: PvFixedSize::new(entries) }
    }

    /// The number of entries.
    pub fn len(&self) -> (n: usize)
        ensures
            n == self@.len(),
    {
        self.data.get_data().len()
    }
}

impl Clone for PvObject {
    /// Another handle to the same map.
    fn clone(&self) -> (r: Self)
        ensures
            r == *self,
            entries_eq(r@, self@),
    {
        proof {
            use_type_invariant(self);
            lemma_value_eq_reflexive(PvValue::Object(self@));
        }
        PvObject { data: self.data.clone() }
    }
}

impl PartialEq for PvObject {
    fn eq(&self, other: &PvObject) -> (r: bool) {
        entries_equal(self, other)
    }
}

impl vstd::std_specs::cmp::PartialEqSpecImpl for PvObject {
    open spec fn obeys_eq_spec() -> bool {
        true
    }

    /// Two objects are equal where they have as many entries and every entry
    /// of the first has its like in the second.
    open spec fn eq_spec(&self, other: &PvObject) -> bool {
        entries_eq(self@, other@)
    }
}

impl Eq for PvObject {

}

}
