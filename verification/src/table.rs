use vstd::prelude::*;
use crate::principal::Principal;

verus! {

struct Slot<V> {
    key: Principal,
    value: V,
}

/// A storage partition: at most one value per principal.
///
/// Its view is the map from each identity that has a value to the deep view
/// of that value.
pub struct Table<V> {
    entries: Vec<Slot<V>>,
}

impl<V> Table<V> {
    /// No identity occurs twice among the slots.
    #[verifier::type_invariant]
    spec fn distinct(self) -> bool {
        forall|i: int, j: int|
            0 <= i < j < self.entries@.len() ==> (#[trigger] self.entries@[i]).key@ != (
            #[trigger] self.entries@[j]).key@
    }

    spec fn holds(self, id: Seq<u8>) -> bool {
        exists|i: int| 0 <= i < self.entries@.len() && (#[trigger] self.entries@[i]).key@ == id
    }

    spec fn slot_of(self, id: Seq<u8>) -> int {
        choose|i: int| 0 <= i < self.entries@.len() && (#[trigger] self.entries@[i]).key@ == id
    }
}

impl<V: DeepView> View for Table<V> {
    type V = Map<Seq<u8>, V::V>;

    closed spec fn view(&self) -> Map<Seq<u8>, V::V> {
        Map::new(
            |id: Seq<u8>| self.holds(id),
            |id: Seq<u8>| self.entries@[self.slot_of(id)].value.deep_view(),
        )
    }
}

impl<V: DeepView> Table<V> {
    /// A partition that holds nothing.
    pub fn new() -> (table: Table<V>)
        ensures
            table@ == Map::<Seq<u8>, V::V>::empty(),
    {
        let table = Table { entries: Vec::new() };
        assert(table@ =~= Map::<Seq<u8>, V::V>::empty());
        table
    }

    fn position(&self, key: &Principal) -> (at: Option<usize>)
        ensures
            match at {
                Some(i) => i < self.entries@.len() && self.entries@[i as int].key@ == key@,
                None => !self.holds(key@),
            },
    {
        let mut i: usize = 0;
        while i < self.entries.len()
            invariant
                i <= self.entries@.len(),
                forall|j: int| 0 <= j < i ==> (#[trigger] self.entries@[j]).key@ != key@,
            decreases self.entries@.len() - i,
        {
            if self.entries[i].key.same(key) {
                return Some(i);
            }
            i += 1;
        }
        None
    }

    /// Whether `key` has a value.
    pub fn contains_key(&self, key: &Principal) -> (r: bool)
        ensures
            r == self@.contains_key(key@),
    {
        self.position(key).is_some()
    }

    /// The value of `key`, if it has one.
    pub fn get(&self, key: &Principal) -> (r: Option<&V>)
        ensures
            match r {
                Some(value) => self@.contains_key(key@) && self@[key@] == value.deep_view(),
                None => !self@.contains_key(key@),
            },
    {
        proof {
            use_type_invariant(self);
        }
        match self.position(key) {
            Some(i) => {
                assert(self.holds(key@));
                assert(self.slot_of(key@) == i);
                Some(&self.entries[i].value)
            },
            None => None,
        }
    }

    /// Gives `key` the value `value`, in place of the one it had, if any.
    pub fn insert(&mut self, key: Principal, value: V)
        ensures
            final(self)@ == old(self)@.insert(key@, value.deep_view()),
    {
        proof {
            use_type_invariant(&*self);
        }
        let ghost id = key@;
        let ghost model = value.deep_view();
        match self.position(&key) {
            Some(i) => {
                let mut entries: Vec<Slot<V>> = Vec::new();
                std::mem::swap(&mut entries, &mut self.entries);
                entries.set(i, Slot { key, value });
                self.entries = entries;
                proof {
                    let after = *self;
                    let before = *old(self);
                    assert forall|other: Seq<u8>| after.holds(other) <==> (before.holds(other)
                        || other == id) by {
                        if before.holds(other) {
                            let j = before.slot_of(other);
                            assert(after.entries@[j].key@ == other);
                        }
                        if other == id {
                            assert(after.entries@[i as int].key@ == other);
                        }
                        if after.holds(other) {
                            let j = after.slot_of(other);
                            assert(before.entries@[j].key@ == other);
                        }
                    }
                    assert forall|other: Seq<u8>| after.holds(other) implies #[trigger] after@[other]
                        == old(self)@.insert(id, model)[other] by {
                        let j = after.slot_of(other);
                        if other == id {
                            assert(j == i);
                        } else {
                            assert(before.entries@[j].key@ == other);
                            assert(before.slot_of(other) == j);
                        }
                    }
                    assert(after@ =~= old(self)@.insert(id, model));
                }
            },
            None => {
                let mut entries: Vec<Slot<V>> = Vec::new();
                std::mem::swap(&mut entries, &mut self.entries);
                entries.push(Slot { key, value });
                self.entries = entries;
                proof {
                    let after = *self;
                    let before = *old(self);
                    let n = before.entries@.len() as int;
                    assert forall|other: Seq<u8>| after.holds(other) <==> (before.holds(other)
                        || other == id) by {
                        if before.holds(other) {
                            let j = before.slot_of(other);
                            assert(after.entries@[j].key@ == other);
                        }
                        if other == id {
                            assert(after.entries@[n].key@ == other);
                        }
                        if after.holds(other) {
                            let j = after.slot_of(other);
                            if j < n {
                                assert(before.entries@[j].key@ == other);
                            }
                        }
                    }
                    assert forall|other: Seq<u8>| after.holds(other) implies #[trigger] after@[other]
                        == old(self)@.insert(id, model)[other] by {
                        let j = after.slot_of(other);
                        if other == id {
                            if j < n {
                                assert(before.entries@[j].key@ == other);
                            }
                            assert(j == n);
                        } else {
                            assert(before.entries@[j].key@ == other);
                            assert(before.slot_of(other) == j);
                        }
                    }
                    assert(after@ =~= old(self)@.insert(id, model));
                }
            },
        }
    }

    /// Takes the value of `key` out of the partition, if it has one.
    pub fn take(&mut self, key: &Principal) -> (r: Option<V>)
        ensures
            final(self)@ == old(self)@.remove(key@),
            match r {
                Some(value) => old(self)@.contains_key(key@) && old(self)@[key@]
                    == value.deep_view(),
                None => !old(self)@.contains_key(key@),
            },
    {
        proof {
            use_type_invariant(&*self);
        }
        let ghost id = key@;
        match self.position(key) {
            Some(i) => {
                assert(old(self).holds(id));
                assert(old(self).slot_of(id) == i);
                let mut entries: Vec<Slot<V>> = Vec::new();
                std::mem::swap(&mut entries, &mut self.entries);
                let slot = entries.remove(i);
                self.entries = entries;
                proof {
                    let after = *self;
                    let before = *old(self);
                    assert forall|other: Seq<u8>| after.holds(other) <==> (before.holds(other)
                        && other != id) by {
                        if before.holds(other) && other != id {
                            let j = before.slot_of(other);
                            if j < i {
                                assert(after.entries@[j].key@ == other);
                            } else {
                                assert(after.entries@[j - 1].key@ == other);
                            }
                        }
                        if after.holds(other) {
                            let j = after.slot_of(other);
                            if j < i {
                                assert(before.entries@[j].key@ == other);
                            } else {
                                assert(before.entries@[j + 1].key@ == other);
                            }
                        }
                    }
                    assert forall|other: Seq<u8>| after.holds(other) implies #[trigger] after@[other]
                        == before@[other] by {
                        let j = after.slot_of(other);
                        if j < i {
                            assert(before.entries@[j].key@ == other);
                            assert(before.slot_of(other) == j);
                        } else {
                            assert(before.entries@[j + 1].key@ == other);
                            assert(before.slot_of(other) == j + 1);
                        }
                    }
                    assert(after@ =~= before@.remove(id));
                }
                Some(slot.value)
            },
            None => {
                assert(self@ =~= old(self)@.remove(id));
                None
            },
        }
    }
}

} // verus!
