//! The measurement cache: measured sizes by item key, kept across index remapping.
use vstd::prelude::*;
use std::collections::HashMap;
use crate::types::ItemKey;

verus! {

broadcast use vstd::std_specs::hash::group_hash_axioms;

/// The map that a sequence of `(key, size)` entries gives when inserted in order: a
/// later entry for a key replaces an earlier one.
pub open spec fn entries_map(s: Seq<(ItemKey, u32)>) -> Map<ItemKey, u32>
    decreases s.len(),
{
    if s.len() == 0 {
        Map::empty()
    } else {
        entries_map(s.drop_last()).insert(s.last().0, s.last().1)
    }
}

/// Key to measured size, remembering the order in which keys first arrived.
pub struct MeasurementCache {
    map: HashMap<ItemKey, u32>,
    order: Vec<ItemKey>,
}

impl View for MeasurementCache {
    type V = Map<ItemKey, u32>;

    closed spec fn view(&self) -> Map<ItemKey, u32> {
        self.map@
    }
}

impl MeasurementCache {
    pub closed spec fn wf(&self) -> bool {
        &&& self.order@.no_duplicates()
        &&& forall|k: ItemKey| self.map@.contains_key(k) <==> self.order@.contains(k)
    }

    pub fn new() -> (r: MeasurementCache)
        ensures
            r.wf(),
            r@ == Map::<ItemKey, u32>::empty(),
    {
        let r = MeasurementCache { map: HashMap::new(), order: Vec::new() };
        assert(r.map@ =~= Map::<ItemKey, u32>::empty());
        r
    }

    pub fn get(&self, key: ItemKey) -> (r: Option<u32>)
        requires
            self.wf(),
        ensures
            r == (if self@.contains_key(key) { Some(self@[key]) } else { None::<u32> }),
    {
        match self.map.get(&key) {
            Some(v) => Some(*v),
            None => None,
        }
    }

    pub fn insert(&mut self, key: ItemKey, size: u32)
        requires
            old(self).wf(),
        ensures
            final(self).wf(),
            final(self)@ == old(self)@.insert(key, size),
    {
        if !self.map.contains_key(&key) {
            proof {
                assert(!self.order@.contains(key));
            }
            self.order.push(key);
            proof {
                assert forall|k: ItemKey| #![auto] self.order@.contains(k) <==> (old(self).order@.contains(k) || k == key) by {
                    if self.order@.contains(k) {
                        let i = choose|i: int| 0 <= i < self.order@.len() && self.order@[i] == k;
                        if i < old(self).order@.len() {
                            assert(old(self).order@[i] == k);
                        }
                    }
                    if old(self).order@.contains(k) {
                        let i = choose|i: int| 0 <= i < old(self).order@.len() && old(self).order@[i] == k;
                        assert(self.order@[i] == k);
                    }
                    if k == key {
                        assert(self.order@[self.order@.len() - 1] == k);
                    }
                }
            }
        }
        self.map.insert(key, size);
    }

    pub fn len(&self) -> (r: usize)
        requires
            self.wf(),
        ensures
            r == self@.dom().len(),
    {
        self.map.len()
    }

    pub fn clear(&mut self)
        ensures
            final(self).wf(),
            final(self)@ == Map::<ItemKey, u32>::empty(),
    {
        self.map = HashMap::new();
        self.order = Vec::new();
        assert(self.map@ =~= Map::<ItemKey, u32>::empty());
    }

    /// The entries in the order their keys first arrived.
    pub fn entries(&self) -> (r: Vec<(ItemKey, u32)>)
        requires
            self.wf(),
        ensures
            entries_map(r@) == self@,
            r@.map_values(|e: (ItemKey, u32)| e.0).no_duplicates(),
            r@.len() == self@.dom().len(),
    {
        let mut out: Vec<(ItemKey, u32)> = Vec::new();
        let n = self.order.len();
        let mut i: usize = 0;
        while i < n
            invariant
                self.wf(),
                n == self.order@.len(),
                i <= n,
                out@.len() == i,
                forall|j: int| 0 <= j < i ==> (#[trigger] out@[j]).0 == self.order@[j],
                forall|j: int| 0 <= j < i ==> (#[trigger] out@[j]).1 == self.map@[self.order@[j]],
                entries_map(out@) == Map::new(
                    |k: ItemKey| self.order@.subrange(0, i as int).contains(k),
                    |k: ItemKey| self.map@[k],
                ),
            decreases n - i,
        {
            let k = self.order[i];
            proof {
                assert(self.order@.contains(k));
            }
            let v = *self.map.get(&k).unwrap();
            let ghost prev = out@;
            out.push((k, v));
            proof {
                assert(out@.drop_last() =~= prev);
                let sub = self.order@.subrange(0, i as int);
                let sub2 = self.order@.subrange(0, i + 1);
                assert forall|x: ItemKey| sub2.contains(x) <==> (sub.contains(x) || x == k) by {
                    if sub2.contains(x) {
                        let j = choose|j: int| 0 <= j < sub2.len() && sub2[j] == x;
                        if j < i {
                            assert(sub[j] == x);
                        }
                    }
                    if sub.contains(x) {
                        let j = choose|j: int| 0 <= j < sub.len() && sub[j] == x;
                        assert(sub2[j] == x);
                    }
                    if x == k {
                        assert(sub2[i as int] == x);
                    }
                }
                assert(entries_map(out@) =~= Map::new(
                    |x: ItemKey| sub2.contains(x),
                    |x: ItemKey| self.map@[x],
                ));
            }
            i = i + 1;
        }
        proof {
            assert(self.order@.subrange(0, n as int) =~= self.order@);
            assert(entries_map(out@) =~= self.map@);
            let keys = out@.map_values(|e: (ItemKey, u32)| e.0);
            assert(keys =~= self.order@);
            assert(self.map@.dom() =~= self.order@.to_set());
            self.order@.unique_seq_to_set();
        }
        out
    }
}

} // verus!
