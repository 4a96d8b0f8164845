use vstd::prelude::*;

verus! {

/// An entity of the host world, identified by the bits of its handle.
#[derive(Clone, Copy, Debug, PartialEq, Eq, Structural, PartialOrd, Ord, Hash)]
pub struct EntityId {
    pub bits: u64,
}

impl EntityId {
    /// The entity with the given bits.
    pub fn from_bits(bits: u64) -> (r: EntityId)
        ensures
            r.bits == bits,
    {
        EntityId { bits }
    }

    /// The bits that identify this entity.
    pub fn to_bits(&self) -> (r: u64)
        ensures
            r == self.bits,
    {
        self.bits
    }
}

/// The position of the first entry of `s` attached to `e`, if any.
pub open spec fn component_index<C>(s: Seq<(EntityId, C)>, e: EntityId) -> Option<int> {
    if exists|i: int| 0 <= i < s.len() && s[i].0 == e && forall|j: int| 0 <= j < i ==> #[trigger] s[j].0 != e {
        Some(choose|i: int| 0 <= i < s.len() && s[i].0 == e && forall|j: int| 0 <= j < i ==> #[trigger] s[j].0 != e)
    } else {
        None
    }
}

/// The component attached to `e` among `entries`, the first if there are several.
pub fn component_of<C>(entries: &Vec<(EntityId, C)>, e: EntityId) -> (r: Option<&C>)
    ensures
        match r {
            Some(c) => component_index(entries@, e) matches Some(i) && *c == entries@[i].1,
            None => component_index(entries@, e) is None,
        },
{
    let mut i: usize = 0;
    while i < entries.len()
        invariant
            i <= entries@.len(),
            forall|j: int| 0 <= j < i ==> #[trigger] entries@[j].0 != e,
        decreases entries@.len() - i,
    {
        if entries[i].0 == e {
            let ghost k = i as int;
            assert(0 <= k < entries@.len() && entries@[k].0 == e && forall|j: int| 0 <= j < k ==> #[trigger] entries@[j].0 != e);
            return Some(&entries[i].1);
        }
        i = i + 1;
    }
    None
}

/// Whether `e` is one of `v`.
pub fn contains_entity(v: &Vec<EntityId>, e: EntityId) -> (r: bool)
    ensures
        r == v@.contains(e),
{
    let mut i: usize = 0;
    while i < v.len()
        invariant
            i <= v@.len(),
            forall|j: int| 0 <= j < i ==> #[trigger] v@[j] != e,
        decreases v@.len() - i,
    {
        if v[i] == e {
            assert(v@[i as int] == e);
            return true;
        }
        i = i + 1;
    }
    false
}

/// The keys of an association list.
pub open spec fn keys_of<V>(s: Seq<(EntityId, V)>) -> Seq<EntityId> {
    s.map_values(|p: (EntityId, V)| p.0)
}

/// A map from entities to values, kept in the order in which keys arrived.
pub struct EntityMap<V> {
    entries: Vec<(EntityId, V)>,
}

impl<V> View for EntityMap<V> {
    type V = Map<EntityId, V>;

    closed spec fn view(&self) -> Map<EntityId, V> {
        Map::new(
            |e: EntityId| component_index(self.entries@, e) is Some,
            |e: EntityId| self.entries@[component_index(self.entries@, e)->0].1,
        )
    }
}

impl<V> EntityMap<V> {
    /// Each key occurs once.
    pub closed spec fn wf(&self) -> bool {
        keys_of(self.entries@).no_duplicates()
    }

    /// The keys in the order in which they arrived.
    pub closed spec fn key_seq(&self) -> Seq<EntityId> {
        keys_of(self.entries@)
    }

    proof fn lemma_index(&self, i: int)
        requires
            self.wf(),
            0 <= i < self.entries@.len(),
        ensures
            component_index(self.entries@, self.entries@[i].0) == Some(i),
    {
        let e = self.entries@[i].0;
        assert(keys_of(self.entries@)[i] == e);
        assert forall|j: int| 0 <= j < i implies #[trigger] self.entries@[j].0 != e by {
            assert(keys_of(self.entries@)[j] == self.entries@[j].0);
        }
        let k = choose|k: int| 0 <= k < self.entries@.len() && self.entries@[k].0 == e && forall|j: int| 0 <= j < k ==> #[trigger] self.entries@[j].0 != e;
        if k != i {
            assert(keys_of(self.entries@)[k] == e);
        }
    }

    proof fn lemma_view(&self)
        requires
            self.wf(),
        ensures
            forall|i: int| 0 <= i < self.entries@.len() ==> self@.contains_key(#[trigger] self.entries@[i].0) && self@[self.entries@[i].0] == self.entries@[i].1,
            forall|e: EntityId| self@.contains_key(e) <==> self.key_seq().contains(e),
    {
        assert forall|i: int| 0 <= i < self.entries@.len() implies self@.contains_key(#[trigger] self.entries@[i].0) && self@[self.entries@[i].0] == self.entries@[i].1 by {
            self.lemma_index(i);
        }
        assert forall|e: EntityId| self@.contains_key(e) <==> self.key_seq().contains(e) by {
            if self.key_seq().contains(e) {
                let i = choose|i: int| 0 <= i < self.key_seq().len() && self.key_seq()[i] == e;
                self.lemma_index(i);
            }
            if self@.contains_key(e) {
                let i = component_index(self.entries@, e)->0;
                assert(self.key_seq()[i] == e);
            }
        }
    }

    /// An empty map.
    pub fn new() -> (r: EntityMap<V>)
        ensures
            r.wf(),
            r@ == Map::<EntityId, V>::empty(),
    {
        let r = EntityMap { entries: Vec::new() };
        assert(keys_of(r.entries@) =~= Seq::<EntityId>::empty());
        assert(r@ =~= Map::<EntityId, V>::empty());
        r
    }

    /// The position of key `e`.
    fn find(&self, e: EntityId) -> (r: Option<usize>)
        requires
            self.wf(),
        ensures
            match r {
                Some(i) => i < self.entries@.len() && self.entries@[i as int].0 == e,
                None => !self@.contains_key(e),
            },
    {
        let mut i: usize = 0;
        while i < self.entries.len()
            invariant
                i <= self.entries@.len(),
                forall|j: int| 0 <= j < i ==> #[trigger] self.entries@[j].0 != e,
            decreases self.entries@.len() - i,
        {
            if self.entries[i].0 == e {
                return Some(i);
            }
            i = i + 1;
        }
        None
    }

    /// The value under key `e`.
    pub fn get(&self, e: EntityId) -> (r: Option<&V>)
        requires
            self.wf(),
        ensures
            match r {
                Some(v) => self@.contains_key(e) && *v == self@[e],
                None => !self@.contains_key(e),
            },
    {
        proof {
            self.lemma_view();
        }
        match self.find(e) {
            Some(i) => Some(&self.entries[i].1),
            None => None,
        }
    }

    /// Whether key `e` is present.
    pub fn contains_key(&self, e: EntityId) -> (r: bool)
        requires
            self.wf(),
        ensures
            r == self@.contains_key(e),
    {
        proof {
            self.lemma_view();
        }
        self.find(e).is_some()
    }

    /// Puts `v` under key `e`; a new key goes last.
    pub fn insert(&mut self, e: EntityId, v: V)
        requires
            old(self).wf(),
        ensures
            final(self).wf(),
            final(self)@ == old(self)@.insert(e, v),
            old(self)@.contains_key(e) ==> final(self).key_seq() == old(self).key_seq(),
            !old(self)@.contains_key(e) ==> final(self).key_seq() == old(self).key_seq().push(e),
    {
        proof {
            self.lemma_view();
        }
        let ghost before = *self;
        match self.find(e) {
            Some(i) => {
                self.entries.set(i, (e, v));
                proof {
                    assert(self.key_seq() =~= before.key_seq());
                    self.lemma_view();
                    assert forall|k: EntityId| #[trigger] self@.contains_key(k) <==> before@.insert(e, v).contains_key(k) by {
                        assert(self.key_seq().contains(k) <==> before.key_seq().contains(k));
                    }
                    assert(self.entries@ == before.entries@.update(i as int, (e, v)));
                    assert forall|k: EntityId| self@.contains_key(k) implies #[trigger] self@[k] == before@.insert(e, v)[k] by {
                        assert(self.key_seq().contains(k));
                        let j = choose|j: int| 0 <= j < self.key_seq().len() && self.key_seq()[j] == k;
                        assert(self.entries@[j].0 == k);
                        assert(self@[k] == self.entries@[j].1);
                        assert(before.key_seq()[i as int] == e);
                        if j != i {
                            assert(before.entries@[j] == self.entries@[j]);
                            assert(before.key_seq()[j] == k);
                            assert(k != e);
                            before.lemma_index(j);
                        } else {
                            assert(k == e);
                        }
                    }
                    assert(self@ =~= before@.insert(e, v));
                }
            },
            None => {
                self.entries.push((e, v));
                proof {
                    assert(self.key_seq() =~= before.key_seq().push(e));
                    assert(!before.key_seq().contains(e));
                    self.lemma_view();
                    assert forall|k: EntityId| #[trigger] self@.contains_key(k) <==> before@.insert(e, v).contains_key(k) by {
                        if self.key_seq().contains(k) && k != e {
                            let j = choose|j: int| 0 <= j < self.key_seq().len() && self.key_seq()[j] == k;
                            assert(before.key_seq()[j] == k);
                        }
                        if before.key_seq().contains(k) {
                            let j = choose|j: int| 0 <= j < before.key_seq().len() && before.key_seq()[j] == k;
                            assert(self.key_seq()[j] == k);
                        }
                        if k == e {
                            assert(self.key_seq()[before.key_seq().len() as int] == k);
                        }
                    }
                    assert(self.entries@ == before.entries@.push((e, v)));
                    assert forall|k: EntityId| self@.contains_key(k) implies #[trigger] self@[k] == before@.insert(e, v)[k] by {
                        assert(self.key_seq().contains(k));
                        let j = choose|j: int| 0 <= j < self.key_seq().len() && self.key_seq()[j] == k;
                        assert(self.entries@[j].0 == k);
                        assert(self@[k] == self.entries@[j].1);
                        if j < before.entries@.len() {
                            assert(before.entries@[j] == self.entries@[j]);
                            before.lemma_index(j);
                        }
                    }
                    assert(self@ =~= before@.insert(e, v));
                }
            },
        }
    }

    /// Takes key `e` out, with its value.
    pub fn remove(&mut self, e: EntityId) -> (r: Option<V>)
        requires
            old(self).wf(),
        ensures
            final(self).wf(),
            final(self)@ == old(self)@.remove(e),
            match r {
                Some(v) => old(self)@.contains_key(e) && v == old(self)@[e],
                None => !old(self)@.contains_key(e),
            },
    {
        proof {
            self.lemma_view();
        }
        let ghost before = *self;
        match self.find(e) {
            Some(i) => {
                let (_, v) = self.entries.remove(i);
                proof {
                    assert(self.key_seq() =~= before.key_seq().remove(i as int));
                    assert forall|a: int, b: int| 0 <= a < b < self.key_seq().len() implies self.key_seq()[a] != self.key_seq()[b] by {
                        let oa = if a < i { a } else { a + 1 };
                        let ob = if b < i { b } else { b + 1 };
                        assert(self.key_seq()[a] == before.key_seq()[oa]);
                        assert(self.key_seq()[b] == before.key_seq()[ob]);
                    }
                    assert(self.wf());
                    self.lemma_view();
                    assert forall|k: EntityId| #[trigger] self@.contains_key(k) <==> before@.remove(e).contains_key(k) by {
                        if self.key_seq().contains(k) {
                            let j = choose|j: int| 0 <= j < self.key_seq().len() && self.key_seq()[j] == k;
                            let oj = if j < i { j } else { j + 1 };
                            assert(before.key_seq()[oj] == k);
                            assert(before.key_seq()[i as int] == e);
                            assert(oj != i);
                            assert(k != e);
                            assert(before.key_seq().contains(k));
                        }
                        if before.key_seq().contains(k) && k != e {
                            let j = choose|j: int| 0 <= j < before.key_seq().len() && before.key_seq()[j] == k;
                            assert(j != i);
                            if j < i {
                                assert(self.key_seq()[j] == k);
                            } else {
                                assert(self.key_seq()[j - 1] == k);
                            }
                        }
                    }
                    assert(self.entries@ == before.entries@.remove(i as int));
                    assert forall|k: EntityId| self@.contains_key(k) implies #[trigger] self@[k] == before@.remove(e)[k] by {
                        assert(self.key_seq().contains(k));
                        let j = choose|j: int| 0 <= j < self.key_seq().len() && self.key_seq()[j] == k;
                        assert(self.entries@[j].0 == k);
                        assert(self@[k] == self.entries@[j].1);
                        let oj = if j < i { j } else { j + 1 };
                        assert(before.entries@[oj] == self.entries@[j]);
                        before.lemma_index(oj);
                    }
                    assert(self@ =~= before@.remove(e));
                }
                Some(v)
            },
            None => {
                assert(self@ =~= before@.remove(e));
                None
            },
        }
    }

    /// The keys, in the order in which they arrived.
    pub fn keys(&self) -> (r: Vec<EntityId>)
        requires
            self.wf(),
        ensures
            r@ == self.key_seq(),
            r@.no_duplicates(),
            forall|e: EntityId| self@.contains_key(e) <==> r@.contains(e),
    {
        proof {
            self.lemma_view();
        }
        let mut out: Vec<EntityId> = Vec::new();
        let mut i: usize = 0;
        while i < self.entries.len()
            invariant
                i <= self.entries@.len(),
                out@ == self.key_seq().subrange(0, i as int),
            decreases self.entries@.len() - i,
        {
            out.push(self.entries[i].0);
            proof {
                assert(out@ =~= self.key_seq().subrange(0, i + 1));
            }
            i = i + 1;
        }
        proof {
            assert(out@ =~= self.key_seq());
        }
        out
    }
}

} // verus!
