//! A store of records filed under addresses.

use vstd::prelude::*;
use crate::pubkey::Pubkey;

verus! {

/// Records filed under addresses, at most one under each address. Its view
/// is the map from the bytes of an address to what the record there holds.
pub struct Table<T> {
    keys: Vec<Pubkey>,
    values: Vec<T>,
}

/// The bytes of each address of a list, in order.
pub open spec fn key_bytes(keys: Seq<Pubkey>) -> Seq<Seq<u8>> {
    Seq::new(keys.len(), |i: int| keys[i]@)
}

/// The map that a list of addresses and the list of their records stand for.
pub open spec fn filed<T: View>(keys: Seq<Pubkey>, values: Seq<T>) -> Map<Seq<u8>, T::V> {
    Map::new(
        |k: Seq<u8>| key_bytes(keys).contains(k),
        |k: Seq<u8>| values[key_bytes(keys).index_of(k)]@,
    )
}

/// Whether two lists can be the addresses and the records of a table.
pub open spec fn well_filed<T>(keys: Seq<Pubkey>, values: Seq<T>) -> bool {
    &&& keys.len() == values.len()
    &&& key_bytes(keys).no_duplicates()
}

proof fn lemma_filed_at<T: View>(keys: Seq<Pubkey>, values: Seq<T>, i: int)
    requires
        well_filed(keys, values),
        0 <= i < keys.len(),
    ensures
        filed(keys, values).dom().contains(keys[i]@),
        filed(keys, values)[keys[i]@] == values[i]@,
        key_bytes(keys).index_of(keys[i]@) == i,
{
    let ks = key_bytes(keys);
    assert(ks[i] == keys[i]@);
    assert(ks.contains(keys[i]@));
    let j = ks.index_of(keys[i]@);
    assert(0 <= j < ks.len() && ks[j] == keys[i]@);
}

proof fn lemma_filed_domain<T: View>(keys: Seq<Pubkey>, values: Seq<T>)
    requires
        well_filed(keys, values),
    ensures
        filed(keys, values).dom().finite(),
        filed(keys, values).dom().len() == keys.len(),
{
    let ks = key_bytes(keys);
    assert(filed(keys, values).dom() =~= ks.to_set());
    vstd::seq_lib::seq_to_set_is_finite(ks);
    ks.unique_seq_to_set();
}

proof fn lemma_filed_push<T: View>(keys: Seq<Pubkey>, values: Seq<T>, key: Pubkey, value: T)
    requires
        well_filed(keys, values),
        !key_bytes(keys).contains(key@),
    ensures
        well_filed(keys.push(key), values.push(value)),
        filed(keys.push(key), values.push(value)) == filed(keys, values).insert(key@, value@),
{
    let ks = key_bytes(keys);
    let keys2 = keys.push(key);
    let values2 = values.push(value);
    let ks2 = key_bytes(keys2);
    assert(ks2 =~= ks.push(key@));
    assert forall|i: int, j: int| 0 <= i < ks2.len() && 0 <= j < ks2.len() && i != j implies ks2[i]
        != ks2[j] by {
        if i < ks.len() {
            assert(ks.contains(ks[i]));
        }
        if j < ks.len() {
            assert(ks.contains(ks[j]));
        }
    }
    let m1 = filed(keys2, values2);
    let m2 = filed(keys, values).insert(key@, value@);
    assert forall|k: Seq<u8>| m1.dom().contains(k) <==> m2.dom().contains(k) by {
        if ks2.contains(k) {
            let i = ks2.index_of(k);
            if i < ks.len() {
                assert(ks[i] == k);
            }
        }
        if ks.contains(k) {
            let i = ks.index_of(k);
            assert(ks2[i] == k);
        }
        assert(ks2[ks.len() as int] == key@);
    }
    assert forall|k: Seq<u8>| m1.dom().contains(k) implies m1[k] == m2[k] by {
        let i = ks2.index_of(k);
        lemma_filed_at(keys2, values2, i);
        if i < ks.len() {
            assert(ks[i] == k);
            lemma_filed_at(keys, values, i);
        }
    }
    assert(m1 =~= m2);
}

proof fn lemma_filed_remove<T: View>(keys: Seq<Pubkey>, values: Seq<T>, i: int)
    requires
        well_filed(keys, values),
        0 <= i < keys.len(),
    ensures
        well_filed(keys.remove(i), values.remove(i)),
        filed(keys.remove(i), values.remove(i)) == filed(keys, values).remove(keys[i]@),
{
    let ks = key_bytes(keys);
    let keys2 = keys.remove(i);
    let values2 = values.remove(i);
    let ks2 = key_bytes(keys2);
    assert(ks2 =~= ks.remove(i));
    assert forall|a: int, b: int| 0 <= a < ks2.len() && 0 <= b < ks2.len() && a != b implies ks2[a]
        != ks2[b] by {
        let a0 = if a < i { a } else { a + 1 };
        let b0 = if b < i { b } else { b + 1 };
        assert(ks2[a] == ks[a0]);
        assert(ks2[b] == ks[b0]);
    }
    let m1 = filed(keys2, values2);
    let m2 = filed(keys, values).remove(keys[i]@);
    assert(ks[i] == keys[i]@);
    assert forall|k: Seq<u8>| m1.dom().contains(k) <==> m2.dom().contains(k) by {
        if ks2.contains(k) {
            let a = ks2.index_of(k);
            let a0 = if a < i { a } else { a + 1 };
            assert(ks[a0] == k);
        }
        if ks.contains(k) && k != keys[i]@ {
            let a0 = ks.index_of(k);
            let a = if a0 < i { a0 } else { a0 - 1 };
            assert(ks2[a] == k);
        }
    }
    assert forall|k: Seq<u8>| m1.dom().contains(k) implies m1[k] == m2[k] by {
        let a = ks2.index_of(k);
        let a0 = if a < i { a } else { a + 1 };
        lemma_filed_at(keys2, values2, a);
        assert(ks[a0] == k);
        lemma_filed_at(keys, values, a0);
        assert(values2[a] == values[a0]);
    }
    assert(m1 =~= m2);
}

impl<T> Table<T> {
    #[verifier::type_invariant]
    spec fn inv(self) -> bool {
        well_filed(self.keys@, self.values@)
    }
}

impl<T: View> View for Table<T> {
    type V = Map<Seq<u8>, T::V>;

    closed spec fn view(&self) -> Map<Seq<u8>, T::V> {
        filed(self.keys@, self.values@)
    }
}

impl<T: View> Table<T> {
    /// A table that holds no record.
    pub fn new() -> (table: Self)
        ensures
            table@ == Map::<Seq<u8>, T::V>::empty(),
    {
        let table = Table { keys: Vec::new(), values: Vec::new() };
        assert(table@ =~= Map::<Seq<u8>, T::V>::empty());
        table
    }

    /// The number of records.
    pub fn len(&self) -> (count: usize)
        ensures
            self@.dom().finite(),
            count == self@.dom().len(),
    {
        proof {
            use_type_invariant(self);
            lemma_filed_domain(self.keys@, self.values@);
        }
        self.keys.len()
    }

    fn position(&self, key: &Pubkey) -> (found: Option<usize>)
        ensures
            match found {
                Some(i) => i < self.keys@.len() && self.keys@[i as int]@ == key@,
                None => !key_bytes(self.keys@).contains(key@),
            },
    {
        let mut i: usize = 0;
        while i < self.keys.len()
            invariant
                i <= self.keys@.len(),
                forall|j: int| 0 <= j < i ==> self.keys@[j]@ != key@,
            decreases self.keys@.len() - i,
        {
            if self.keys[i].same(key) {
                return Some(i);
            }
            i += 1;
        }
        None
    }

    /// Whether a record is filed under the address.
    pub fn contains_key(&self, key: &Pubkey) -> (present: bool)
        ensures
            present == self@.dom().contains(key@),
    {
        proof {
            use_type_invariant(self);
        }
        match self.position(key) {
            Some(i) => {
                proof {
                    lemma_filed_at(self.keys@, self.values@, i as int);
                }
                true
            },
            None => false,
        }
    }

    /// The record filed under the address, if there is one.
    pub fn get(&self, key: &Pubkey) -> (found: Option<&T>)
        ensures
            match found {
                Some(record) => self@.dom().contains(key@) && self@[key@] == record@,
                None => !self@.dom().contains(key@),
            },
    {
        proof {
            use_type_invariant(self);
        }
        match self.position(key) {
            Some(i) => {
                proof {
                    lemma_filed_at(self.keys@, self.values@, i as int);
                }
                Some(&self.values[i])
            },
            None => None,
        }
    }

    /// Files the record under the address unless one stands there already,
    /// and says whether it did.
    pub fn insert(&mut self, key: Pubkey, value: T) -> (fresh: bool)
        ensures
            fresh == !old(self)@.dom().contains(key@),
            fresh ==> final(self)@ == old(self)@.insert(key@, value@),
            !fresh ==> final(self)@ == old(self)@,
    {
        proof {
            use_type_invariant(&*self);
        }
        match self.position(&key) {
            Some(i) => {
                proof {
                    lemma_filed_at(self.keys@, self.values@, i as int);
                }
                false
            },
            None => {
                let mut taken = Table { keys: Vec::new(), values: Vec::new() };
                std::mem::swap(self, &mut taken);
                let Table { mut keys, mut values } = taken;
                proof {
                    lemma_filed_push(keys@, values@, key, value);
                }
                keys.push(key);
                values.push(value);
                *self = Table { keys, values };
                true
            },
        }
    }

    /// Takes the record filed under the address out of the table, if there
    /// is one.
    pub fn take(&mut self, key: &Pubkey) -> (found: Option<T>)
        ensures
            match found {
                Some(record) => {
                    &&& old(self)@.dom().contains(key@)
                    &&& old(self)@[key@] == record@
                    &&& final(self)@ == old(self)@.remove(key@)
                },
                None => !old(self)@.dom().contains(key@) && final(self)@ == old(self)@,
            },
    {
        proof {
            use_type_invariant(&*self);
        }
        match self.position(key) {
            Some(i) => {
                let mut taken = Table { keys: Vec::new(), values: Vec::new() };
                std::mem::swap(self, &mut taken);
                let Table { mut keys, mut values } = taken;
                proof {
                    lemma_filed_at(keys@, values@, i as int);
                    lemma_filed_remove(keys@, values@, i as int);
                }
                keys.remove(i);
                let record = values.remove(i);
                *self = Table { keys, values };
                Some(record)
            },
            None => None,
        }
    }
}

} // verus!
