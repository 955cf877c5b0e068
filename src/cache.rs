use vstd::prelude::*;
use std::collections::HashMap;
use crate::common::{Channel, FeedView};

verus! {

/// The cache, mathematically: the snapshot of each channel id, and the ids
/// in the order in which they were first inserted.
pub struct CacheView {
    pub entries: Map<u128, FeedView>,
    pub order: Seq<u128>,
}

pub open spec fn cache_wf(c: CacheView) -> bool {
    &&& c.order.no_duplicates()
    &&& forall|k: u128| c.entries.contains_key(k) <==> c.order.contains(k)
}

pub open spec fn cache_cleared() -> CacheView {
    CacheView { entries: Map::empty(), order: Seq::empty() }
}

pub open spec fn cache_insert(c: CacheView, id: u128, f: FeedView) -> CacheView {
    CacheView {
        entries: c.entries.insert(id, f),
        order: if c.entries.contains_key(id) { c.order } else { c.order.push(id) },
    }
}

/// Every snapshot, in order of first insertion.
pub open spec fn all_snapshots(c: CacheView) -> Seq<FeedView> {
    c.order.map_values(|k: u128| c.entries[k])
}

/// Channel id to last fetched snapshot.
pub struct FeedCache {
    map: HashMap<u128, Channel>,
    order: Vec<u128>,
}

impl View for FeedCache {
    type V = CacheView;

    closed spec fn view(&self) -> CacheView {
        CacheView { entries: self.map@.map_values(|c: Channel| c@), order: self.order@ }
    }
}

impl FeedCache {
    pub open spec fn wf(&self) -> bool {
        cache_wf(self@)
    }

    pub fn new() -> (r: Self)
        ensures
            r.wf(),
            r@ == cache_cleared(),
    {
        let r = FeedCache { map: HashMap::new(), order: Vec::new() };
        assert(r@.entries =~= Map::empty());
        r
    }

    /// Drops every snapshot.
    pub fn clear(&mut self)
        ensures
            final(self).wf(),
            final(self)@ == cache_cleared(),
    {
        self.map.clear();
        self.order.clear();
        assert(self@.entries =~= Map::empty());
        assert(self@.order =~= Seq::empty());
    }

    /// Puts `snapshot` under `id`, replacing any earlier one.
    pub fn insert(&mut self, id: u128, snapshot: Channel)
        requires
            old(self).wf(),
        ensures
            final(self).wf(),
            final(self)@ == cache_insert(old(self)@, id, snapshot@),
    {
        let ghost f = snapshot@;
        let prev = self.map.insert(id, snapshot);
        if prev.is_none() {
            assert(!old(self)@.order.contains(id));
            self.order.push(id);
            assert(self@.order.no_duplicates()) by {
                assert forall|a: int, b: int|
                    0 <= a < b < self@.order.len() implies self@.order[a] != self@.order[b] by {
                    if b == self@.order.len() - 1 {
                        assert(old(self)@.order[a] == self@.order[a]);
                    }
                }
            }
            assert forall|k: u128| self@.entries.contains_key(k) <==> self@.order.contains(k) by {
                if k != id {
                    assert(old(self)@.order.contains(k) ==> self@.order.contains(k)) by {
                        if old(self)@.order.contains(k) {
                            let j = choose|j: int| 0 <= j < old(self)@.order.len() && old(self)@.order[j] == k;
                            assert(self@.order[j] == k);
                        }
                    }
                    assert(self@.order.contains(k) ==> old(self)@.order.contains(k)) by {
                        if self@.order.contains(k) {
                            let j = choose|j: int| 0 <= j < self@.order.len() && self@.order[j] == k;
                            assert(old(self)@.order[j] == k);
                        }
                    }
                } else {
                    assert(self@.order[self@.order.len() - 1] == id);
                }
            }
        }
        assert(self@.entries =~= old(self)@.entries.insert(id, f));
    }

    /// The snapshot of channel `id`, if this cache holds one.
    pub fn read_snapshot(&self, id: u128) -> (r: Option<&Channel>)
        ensures
            match r {
                Some(c) => self@.entries.contains_key(id) && c@ == self@.entries[id],
                None => !self@.entries.contains_key(id),
            },
    {
        self.map.get(&id)
    }

    /// Every snapshot, in order of first insertion.
    pub fn read_all(&self) -> (r: Vec<&Channel>)
        requires
            self.wf(),
        ensures
            r@.len() == all_snapshots(self@).len(),
            forall|i: int| 0 <= i < r@.len() ==> r@[i]@ == #[trigger] all_snapshots(self@)[i],
    {
        let mut r: Vec<&Channel> = Vec::new();
        let mut i: usize = 0;
        while i < self.order.len()
            invariant
                self.wf(),
                i <= self.order@.len(),
                r@.len() == i,
                forall|j: int| 0 <= j < i ==> r@[j]@ == self@.entries[self@.order[j]],
            decreases self.order@.len() - i,
        {
            let k = self.order[i];
            assert(self@.order.contains(k));
            match self.map.get(&k) {
                Some(c) => {
                    r.push(c);
                },
                None => {
                    assert(false);
                },
            }
            i = i + 1;
        }
        r
    }

    pub fn len(&self) -> (r: usize)
        requires
            self.wf(),
        ensures
            r == self@.order.len(),
    {
        self.order.len()
    }
}

} // verus!
