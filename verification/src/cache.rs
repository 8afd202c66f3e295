//! The item-presence cache: an in-memory snapshot of the listings
//! seen in the most recent successful fetch.
//!
//! The cache models "currently listed", not history: after each
//! `apply` its keys are exactly the ids of the latest page, so an item
//! that is de-listed and later re-listed counts as new again.

use std::collections::HashMap;

use vstd::prelude::*;

use crate::types::Item;

verus! {

broadcast use vstd::std_specs::hash::group_hash_axioms;

/// The ids of a page of items, in the order received.
pub open spec fn id_seq(items: Seq<Item>) -> Seq<i64> {
    items.map_values(|it: Item| it.id)
}

/// The ids of a page of items, as a set.
pub open spec fn id_set(items: Seq<Item>) -> Set<i64> {
    Set::new(|x: i64| id_seq(items).contains(x))
}

/// The mapping a page of items denotes: each id to its item, the last
/// occurrence winning when an id repeats within the page.
pub open spec fn map_of(items: Seq<Item>) -> Map<i64, Item>
    decreases items.len(),
{
    if items.len() == 0 {
        Map::empty()
    } else {
        map_of(items.drop_last()).insert(items.last().id, items.last())
    }
}

/// The items of a page whose id is neither among `known` nor among the
/// ids earlier in the page: the "new since last time" delta, in the
/// order received, one entry per id.
pub open spec fn fresh_items(known: Set<i64>, items: Seq<Item>) -> Seq<Item>
    decreases items.len(),
{
    if items.len() == 0 {
        Seq::empty()
    } else {
        let before = fresh_items(known, items.drop_last());
        let it = items.last();
        if !known.contains(it.id) && !id_seq(items.drop_last()).contains(it.id) {
            before.push(it)
        } else {
            before
        }
    }
}

/// The cache law behind the page mapping: its key set is exactly the
/// id set of the page it was built from — no stale ids survive, no
/// extra ids appear.
pub proof fn lemma_map_of_dom(items: Seq<Item>)
    ensures
        map_of(items).dom() == id_set(items),
    decreases items.len(),
{
    if items.len() == 0 {
        assert(map_of(items).dom() =~= id_set(items));
    } else {
        let prefix = items.drop_last();
        lemma_map_of_dom(prefix);
        assert(id_seq(items) =~= id_seq(prefix).push(items.last().id));
        assert forall|x: i64|
            id_set(items).contains(x) <==> map_of(items).dom().contains(x) by {
            if id_seq(items).contains(x) {
                let k = choose|k: int| 0 <= k < id_seq(items).len() && id_seq(items)[k] == x;
                if k < prefix.len() {
                    assert(id_seq(prefix)[k] == x);
                }
            }
            if id_seq(prefix).contains(x) {
                let k = choose|k: int| 0 <= k < id_seq(prefix).len() && id_seq(prefix)[k] == x;
                assert(id_seq(items)[k] == x);
            }
            if x == items.last().id {
                assert(id_seq(items)[items.len() - 1] == x);
            }
        }
        assert(map_of(items).dom() =~= id_set(items));
    }
}

/// `push` extends what a sequence of ids contains by the pushed id.
proof fn lemma_push_contains(s: Seq<i64>, x: i64, y: i64)
    ensures
        s.push(x).contains(y) <==> (s.contains(y) || y == x),
{
    if s.push(x).contains(y) {
        let k = choose|k: int| 0 <= k < s.push(x).len() && s.push(x)[k] == y;
        if k < s.len() {
            assert(s[k] == y);
        }
    }
    if s.contains(y) {
        let k = choose|k: int| 0 <= k < s.len() && s[k] == y;
        assert(s.push(x)[k] == y);
    }
    if y == x {
        assert(s.push(x)[s.len() as int] == y);
    }
}

/// The delta law: the reported items carry exactly the ids of the
/// page that were not already known, and each such id once.
pub proof fn lemma_fresh_items_ids(known: Set<i64>, items: Seq<Item>)
    ensures
        forall|x: i64|
            #[trigger] id_seq(fresh_items(known, items)).contains(x) <==> (id_seq(
                items,
            ).contains(x) && !known.contains(x)),
        id_seq(fresh_items(known, items)).no_duplicates(),
    decreases items.len(),
{
    if items.len() == 0 {
        assert forall|x: i64| !(#[trigger] id_seq(fresh_items(known, items)).contains(x)) by {
            assert(id_seq(fresh_items(known, items)).len() == 0);
        }
        assert forall|x: i64| !(#[trigger] id_seq(items).contains(x)) by {
            assert(id_seq(items).len() == 0);
        }
    } else {
        let prefix = items.drop_last();
        let it = items.last();
        lemma_fresh_items_ids(known, prefix);
        assert(id_seq(items) =~= id_seq(prefix).push(it.id));
        let picked = !known.contains(it.id) && !id_seq(prefix).contains(it.id);
        if picked {
            assert(id_seq(fresh_items(known, items)) =~= id_seq(
                fresh_items(known, prefix),
            ).push(it.id));
            assert(!id_seq(fresh_items(known, prefix)).contains(it.id));
            let before = id_seq(fresh_items(known, prefix));
            assert forall|i: int, j: int|
                0 <= i < before.push(it.id).len() && 0 <= j < before.push(it.id).len() && i
                    != j implies before.push(it.id)[i] != before.push(it.id)[j] by {
                if i < before.len() && j < before.len() {
                } else if i < before.len() {
                    assert(before.contains(before[i]));
                } else if j < before.len() {
                    assert(before.contains(before[j]));
                }
            }
        }
        assert forall|x: i64|
            #[trigger] id_seq(fresh_items(known, items)).contains(x) <==> (id_seq(
                items,
            ).contains(x) && !known.contains(x)) by {
            lemma_push_contains(id_seq(prefix), it.id, x);
            if picked {
                lemma_push_contains(id_seq(fresh_items(known, prefix)), it.id, x);
            }
        }
    }
}

/// In-memory snapshot of previously observed items, keyed by id, plus
/// the explicit flag telling the first (baseline) population apart
/// from later cycles.
pub struct ItemCache {
    map: HashMap<i64, Item>,
    primed: bool,
}

impl ItemCache {
    /// What the cache holds, by id.
    pub closed spec fn contents(self) -> Map<i64, Item> {
        self.map@
    }

    /// The ids currently cached.
    pub open spec fn keys(self) -> Set<i64> {
        self.contents().dom()
    }

    /// Whether a baseline population has already happened.
    pub closed spec fn spec_primed(self) -> bool {
        self.primed
    }

    /// An empty, unprimed cache.
    pub fn new() -> (c: Self)
        ensures
            c.contents() == Map::<i64, Item>::empty(),
            !c.spec_primed(),
    {
        ItemCache { map: HashMap::new(), primed: false }
    }

    /// Whether a baseline population has already happened.
    pub fn is_primed(&self) -> (r: bool)
        ensures
            r == self.spec_primed(),
    {
        self.primed
    }

    /// How many ids are cached.
    pub fn len(&self) -> (r: usize)
        ensures
            r == self.keys().len(),
    {
        self.map.len()
    }

    /// Whether `id` is currently cached.
    pub fn contains_id(&self, id: i64) -> (r: bool)
        ensures
            r == self.keys().contains(id),
    {
        self.map.contains_key(&id)
    }

    /// The cached item under `id`, if any.
    pub fn get(&self, id: i64) -> (r: Option<&Item>)
        ensures
            match r {
                Some(it) => self.contents().contains_key(id) && *it == self.contents()[id],
                None => !self.contents().contains_key(id),
            },
    {
        self.map.get(&id)
    }

    /// Applies one successful fetch: reports the items not cached
    /// before this call (first occurrence per id, in the order
    /// received), then replaces the snapshot so the keys are exactly
    /// the ids of `items` — stale ids are purged, repeated ids within
    /// the page resolve last-write-wins. On the very first call the
    /// report is empty: the baseline population is not "new".
    pub fn apply(&mut self, items: &Vec<Item>) -> (new_items: Vec<Item>)
        ensures
            final(self).spec_primed(),
            final(self).contents() == map_of(items@),
            final(self).keys() == id_set(items@),
            !old(self).spec_primed() ==> new_items@ == Seq::<Item>::empty(),
            old(self).spec_primed() ==> new_items@ == fresh_items(old(self).keys(), items@),
    {
        let ghost old_keys = self.map@.dom();
        let mut fresh: HashMap<i64, Item> = HashMap::new();
        let mut new_items: Vec<Item> = Vec::new();
        let mut i: usize = 0;
        while i < items.len()
            invariant
                i <= items@.len(),
                self == old(self),
                old_keys == old(self).keys(),
                fresh@ == map_of(items@.take(i as int)),
                old(self).spec_primed() ==> new_items@ == fresh_items(
                    old_keys,
                    items@.take(i as int),
                ),
                !old(self).spec_primed() ==> new_items@ == Seq::<Item>::empty(),
            decreases items@.len() - i,
        {
            let it = &items[i];
            let known_before = self.map.contains_key(&it.id);
            let seen_this_page = fresh.contains_key(&it.id);
            proof {
                lemma_map_of_dom(items@.take(i as int));
                assert(items@.take(i + 1).drop_last() =~= items@.take(i as int));
                assert(items@.take(i + 1).last() == items@[i as int]);
            }
            if !known_before && !seen_this_page && self.primed {
                new_items.push(it.clone());
            }
            fresh.insert(it.id, it.clone());
            i = i + 1;
        }
        proof {
            assert(items@.take(items@.len() as int) =~= items@);
            lemma_map_of_dom(items@);
        }
        self.map = fresh;
        self.primed = true;
        new_items
    }
}

} // verus!
