//! A small map from entity ids to values, kept as two parallel vectors with
//! pairwise-distinct keys and viewed as a mathematical `Map<u64, V>`.
use vstd::prelude::*;

verus! {

/// The map that a key sequence and a value sequence of equal length spell
/// out, later entries winning.
pub open spec fn map_of<V>(keys: Seq<u64>, vals: Seq<V>) -> Map<u64, V>
    decreases keys.len(),
{
    if keys.len() == 0 || vals.len() == 0 {
        Map::empty()
    } else {
        map_of(keys.drop_last(), vals.drop_last()).insert(keys.last(), vals.last())
    }
}

/// True when no id occurs twice in `keys`.
pub open spec fn distinct_ids(keys: Seq<u64>) -> bool {
    forall|i: int, j: int| 0 <= i < j < keys.len() ==> keys[i] != keys[j]
}

/// A map from entity ids to values.
pub struct EntityMap<V> {
    pub keys: Vec<u64>,
    pub vals: Vec<V>,
}

impl<V> View for EntityMap<V> {
    type V = Map<u64, V>;

    open spec fn view(&self) -> Map<u64, V> {
        map_of(self.keys@, self.vals@)
    }
}

proof fn lemma_map_of_contains<V>(keys: Seq<u64>, vals: Seq<V>, k: u64)
    requires
        keys.len() == vals.len(),
    ensures
        map_of(keys, vals).contains_key(k) <==> keys.contains(k),
    decreases keys.len(),
{
    if keys.len() > 0 {
        lemma_map_of_contains(keys.drop_last(), vals.drop_last(), k);
        if keys.last() == k {
            assert(keys[keys.len() - 1] == k);
        } else if keys.drop_last().contains(k) {
            let i = choose|i: int| 0 <= i < keys.drop_last().len() && keys.drop_last()[i] == k;
            assert(keys[i] == k);
        } else if keys.contains(k) {
            let i = choose|i: int| 0 <= i < keys.len() && keys[i] == k;
            assert(i < keys.len() - 1 ==> keys.drop_last()[i] == k);
        }
    }
}

proof fn lemma_map_of_index<V>(keys: Seq<u64>, vals: Seq<V>, i: int)
    requires
        keys.len() == vals.len(),
        distinct_ids(keys),
        0 <= i < keys.len(),
    ensures
        map_of(keys, vals).contains_key(keys[i]),
        map_of(keys, vals)[keys[i]] == vals[i],
    decreases keys.len(),
{
    if i == keys.len() - 1 {
    } else {
        assert(keys.drop_last()[i] == keys[i]);
        lemma_map_of_index(keys.drop_last(), vals.drop_last(), i);
        assert(keys.last() != keys[i]);
    }
}

proof fn lemma_map_of_finite_dom<V>(keys: Seq<u64>, vals: Seq<V>)
    requires
        keys.len() == vals.len(),
        distinct_ids(keys),
    ensures
        map_of(keys, vals).dom().finite(),
        map_of(keys, vals).dom().len() == keys.len(),
    decreases keys.len(),
{
    if keys.len() > 0 {
        lemma_map_of_finite_dom(keys.drop_last(), vals.drop_last());
        lemma_map_of_contains(keys.drop_last(), vals.drop_last(), keys.last());
        assert(!keys.drop_last().contains(keys.last())) by {
            assert(forall|i: int|
                0 <= i < keys.len() - 1 ==> #[trigger] keys[i] != keys[keys.len() - 1]);
        }
        assert(map_of(keys, vals).dom()
            =~= map_of(keys.drop_last(), vals.drop_last()).dom().insert(keys.last()));
    }
}

proof fn lemma_map_of_update<V>(keys: Seq<u64>, vals: Seq<V>, i: int, v: V)
    requires
        keys.len() == vals.len(),
        distinct_ids(keys),
        0 <= i < keys.len(),
    ensures
        map_of(keys, vals.update(i, v)) == map_of(keys, vals).insert(keys[i], v),
    decreases keys.len(),
{
    if i == keys.len() - 1 {
        assert(vals.update(i, v).drop_last() =~= vals.drop_last());
        assert(vals.update(i, v).last() == v);
        assert(map_of(keys.drop_last(), vals.drop_last()).insert(keys.last(), vals.last()).insert(
            keys.last(),
            v,
        ) =~= map_of(keys.drop_last(), vals.drop_last()).insert(keys.last(), v));
    } else {
        assert(vals.update(i, v).drop_last() =~= vals.drop_last().update(i, v));
        assert(keys.drop_last()[i] == keys[i]);
        lemma_map_of_update(keys.drop_last(), vals.drop_last(), i, v);
        assert(keys.last() != keys[i]);
        assert(map_of(keys.drop_last(), vals.drop_last()).insert(keys[i], v).insert(
            keys.last(),
            vals.last(),
        ) =~= map_of(keys.drop_last(), vals.drop_last()).insert(keys.last(), vals.last()).insert(
            keys[i],
            v,
        ));
    }
}

proof fn lemma_map_of_update_all<V>(keys: Seq<u64>, vals: Seq<V>, i: int)
    requires
        keys.len() == vals.len(),
        distinct_ids(keys),
        0 <= i < keys.len(),
    ensures
        forall|v: V| map_of(keys, #[trigger] vals.update(i, v)) == map_of(keys, vals).insert(
            keys[i],
            v,
        ),
{
    assert forall|v: V| map_of(keys, #[trigger] vals.update(i, v)) == map_of(keys, vals).insert(
        keys[i],
        v,
    ) by {
        lemma_map_of_update(keys, vals, i, v);
    }
}

impl<V> EntityMap<V> {
    /// Both vectors run in step and no id occurs twice.
    pub open spec fn wf(&self) -> bool {
        self.keys@.len() == self.vals@.len() && distinct_ids(self.keys@)
    }

    /// An empty map.
    pub fn new() -> (r: EntityMap<V>)
        ensures
            r.wf(),
            r@ == Map::<u64, V>::empty(),
    {
        EntityMap { keys: Vec::new(), vals: Vec::new() }
    }

    /// How many ids are mapped.
    pub fn len(&self) -> (r: usize)
        requires
            self.wf(),
        ensures
            r == self@.dom().len(),
    {
        proof {
            lemma_map_of_finite_dom(self.keys@, self.vals@);
        }
        self.keys.len()
    }

    fn find_index(&self, id: u64) -> (r: Option<usize>)
        ensures
            match r {
                Some(i) => i < self.keys@.len() && self.keys@[i as int] == id,
                None => !self.keys@.contains(id),
            },
    {
        let n = self.keys.len();
        let mut i: usize = 0;
        while i < n
            invariant
                n == self.keys@.len(),
                0 <= i <= n,
                forall|j: int| 0 <= j < i ==> self.keys@[j] != id,
            decreases n - i,
        {
            if self.keys[i] == id {
                return Some(i);
            }
            i = i + 1;
        }
        None
    }

    /// Whether `id` is mapped.
    pub fn contains_key(&self, id: u64) -> (r: bool)
        requires
            self.wf(),
        ensures
            r == self@.contains_key(id),
    {
        proof {
            lemma_map_of_contains(self.keys@, self.vals@, id);
        }
        match self.find_index(id) {
            Some(i) => {
                proof {
                    assert(self.keys@.contains(id)) by {
                        assert(self.keys@[i as int] == id);
                    }
                }
                true
            },
            None => false,
        }
    }

    /// The value mapped to `id`, if any.
    pub fn get(&self, id: u64) -> (r: Option<&V>)
        requires
            self.wf(),
        ensures
            match r {
                Some(v) => self@.contains_key(id) && *v == self@[id],
                None => !self@.contains_key(id),
            },
    {
        proof {
            lemma_map_of_contains(self.keys@, self.vals@, id);
        }
        match self.find_index(id) {
            Some(i) => {
                proof {
                    lemma_map_of_index(self.keys@, self.vals@, i as int);
                }
                Some(&self.vals[i])
            },
            None => None,
        }
    }

    /// A mutable borrow of the value mapped to `id`, if any; the map ends
    /// up with whatever the borrower leaves there.
    pub fn get_mut(&mut self, id: u64) -> (r: Option<&mut V>)
        requires
            old(self).wf(),
        ensures
            final(self).wf(),
            r.is_some() ==> old(self)@.contains_key(id) && *r.unwrap() == old(self)@[id]
                && final(self)@ == old(self)@.insert(id, *final(r.unwrap())),
            r.is_none() ==> !old(self)@.contains_key(id) && *final(self) == *old(self),
    {
        proof {
            lemma_map_of_contains(self.keys@, self.vals@, id);
        }
        match self.find_index(id) {
            Some(i) => {
                proof {
                    lemma_map_of_index(self.keys@, self.vals@, i as int);
                    lemma_map_of_update_all(self.keys@, self.vals@, i as int);
                }
                Some(&mut self.vals[i])
            },
            None => None,
        }
    }

    /// Maps `id` to `v`, replacing any earlier value.
    pub fn insert(&mut self, id: u64, v: V)
        requires
            old(self).wf(),
        ensures
            final(self).wf(),
            final(self)@ == old(self)@.insert(id, v),
    {
        proof {
            lemma_map_of_contains(self.keys@, self.vals@, id);
        }
        match self.find_index(id) {
            Some(i) => {
                proof {
                    lemma_map_of_update(self.keys@, self.vals@, i as int, v);
                }
                self.vals.set(i, v);
            },
            None => {
                self.keys.push(id);
                self.vals.push(v);
                proof {
                    assert(self.keys@.drop_last() =~= old(self).keys@);
                    assert(self.vals@.drop_last() =~= old(self).vals@);
                    assert(forall|j: int| 0 <= j < old(self).keys@.len()
                        ==> old(self).keys@[j] != id);
                }
            },
        }
    }

    /// Drops every id that `keep` does not hold.
    pub fn retain_ids(&mut self, keep: &Vec<u64>)
        requires
            old(self).wf(),
        ensures
            final(self).wf(),
            final(self)@ == old(self)@.restrict(keep@.to_set()),
    {
        let ghost orig_keys = old(self).keys@;
        let ghost orig_vals = old(self).vals@;
        let ghost n = orig_keys.len() as int;
        let ghost mut i: int = 0;
        let mut new_keys: Vec<u64> = Vec::new();
        let mut new_vals: Vec<V> = Vec::new();
        while self.keys.len() > 0
            invariant
                orig_keys.len() == orig_vals.len(),
                distinct_ids(orig_keys),
                n == orig_keys.len(),
                0 <= i <= n,
                self.keys@ == orig_keys.subrange(i, n),
                self.vals@ == orig_vals.subrange(i, n),
                new_keys@.len() == new_vals@.len(),
                distinct_ids(new_keys@),
                forall|j: int| 0 <= j < new_keys@.len()
                    ==> orig_keys.subrange(0, i).contains(#[trigger] new_keys@[j]),
                map_of(new_keys@, new_vals@) == map_of(
                    orig_keys.subrange(0, i),
                    orig_vals.subrange(0, i),
                ).restrict(keep@.to_set()),
            decreases self.keys@.len(),
        {
            let ghost prev_keys = new_keys@;
            let ghost prev_vals = new_vals@;
            let ghost done_keys = orig_keys.subrange(0, i);
            let ghost done_vals = orig_vals.subrange(0, i);
            let id = self.keys.remove(0);
            let v = self.vals.remove(0);
            let ghost gv = orig_vals[i];
            proof {
                assert(orig_keys.subrange(i, n).remove(0) =~= orig_keys.subrange(i + 1, n));
                assert(orig_vals.subrange(i, n).remove(0) =~= orig_vals.subrange(i + 1, n));
                assert(id == orig_keys[i]);
                assert(v == gv);
                assert(orig_keys.subrange(0, i + 1) =~= done_keys.push(id));
                assert(orig_vals.subrange(0, i + 1) =~= done_vals.push(gv));
                assert(map_of(done_keys.push(id), done_vals.push(gv)) == map_of(
                    done_keys,
                    done_vals,
                ).insert(id, gv)) by {
                    assert(done_keys.push(id).drop_last() =~= done_keys);
                    assert(done_vals.push(gv).drop_last() =~= done_vals);
                }
            }
            if contains_id(keep, id) {
                new_keys.push(id);
                new_vals.push(v);
                proof {
                    assert(!prev_keys.contains(id)) by {
                        assert forall|j: int| 0 <= j < prev_keys.len()
                            implies prev_keys[j] != id by {
                            let l = choose|l: int| 0 <= l < done_keys.len() && done_keys[l]
                                == prev_keys[j];
                            assert(orig_keys[l] == prev_keys[j]);
                            assert(orig_keys[l] != orig_keys[i]);
                        }
                    }
                    assert(new_keys@.drop_last() =~= prev_keys);
                    assert(new_vals@.drop_last() =~= prev_vals);
                    assert(map_of(new_keys@, new_vals@) == map_of(prev_keys, prev_vals).insert(
                        id,
                        gv,
                    ));
                    assert(map_of(done_keys, done_vals).insert(id, gv).restrict(keep@.to_set())
                        =~= map_of(done_keys, done_vals).restrict(keep@.to_set()).insert(id, gv));
                    assert(forall|j: int| 0 <= j < new_keys@.len()
                        ==> orig_keys.subrange(0, i + 1).contains(#[trigger] new_keys@[j]));
                    i = i + 1;
                }
            } else {
                proof {
                    assert(map_of(done_keys, done_vals).insert(id, gv).restrict(keep@.to_set())
                        =~= map_of(done_keys, done_vals).restrict(keep@.to_set()));
                    assert(forall|j: int| 0 <= j < new_keys@.len()
                        ==> orig_keys.subrange(0, i + 1).contains(#[trigger] new_keys@[j]));
                    i = i + 1;
                }
            }
        }
        proof {
            assert(i == n);
            assert(orig_keys.subrange(0, n) =~= orig_keys);
            assert(orig_vals.subrange(0, n) =~= orig_vals);
        }
        self.keys = new_keys;
        self.vals = new_vals;
    }
}

/// Whether `ids` holds `id`.
pub fn contains_id(ids: &Vec<u64>, id: u64) -> (r: bool)
    ensures
        r == ids@.contains(id),
{
    let n = ids.len();
    let mut i: usize = 0;
    while i < n
        invariant
            n == ids@.len(),
            0 <= i <= n,
            forall|j: int| 0 <= j < i ==> ids@[j] != id,
        decreases n - i,
    {
        if ids[i] == id {
            assert(ids@[i as int] == id);
            return true;
        }
        i = i + 1;
    }
    false
}

} // verus!
