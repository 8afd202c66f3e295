//! The proxy pool: candidate egress addresses, selection, and
//! permanent failure eviction.
//!
//! An evicted address is never selected again within the process
//! lifetime; when every candidate is evicted the pool is exhausted,
//! which is fatal for the poller.

use vstd::prelude::*;
use vstd::seq_lib::*;

use crate::errors::PoolExhausted;

verus! {

/// Holds the candidate egress addresses and the set of addresses
/// evicted so far.
pub struct ProxyPool {
    candidates: Vec<String>,
    evicted: Vec<String>,
}

/// The predicate selecting addresses other than `addr`.
pub open spec fn other_than(addr: Seq<char>) -> spec_fn(Seq<char>) -> bool {
    |p: Seq<char>| p != addr
}

impl ProxyPool {
    /// The ordered candidate list, each address as its characters.
    pub closed spec fn candidates_view(self) -> Seq<Seq<char>> {
        self.candidates.deep_view()
    }

    /// Whether `a` has been evicted.
    pub closed spec fn is_evicted(self, a: Seq<char>) -> bool {
        self.evicted.deep_view().contains(a)
    }

    /// The predicate selecting the addresses still usable.
    pub open spec fn live_pred(self) -> spec_fn(Seq<char>) -> bool {
        |a: Seq<char>| !self.is_evicted(a)
    }

    /// The candidates still usable, in candidate order.
    pub open spec fn live(self) -> Seq<Seq<char>> {
        self.candidates_view().filter(self.live_pred())
    }

    /// A fresh pool: every candidate usable, nothing evicted.
    pub fn new(candidates: Vec<String>) -> (p: Self)
        ensures
            p.candidates_view() == candidates.deep_view(),
            forall|a: Seq<char>| !(#[trigger] p.is_evicted(a)),
    {
        let p = ProxyPool { candidates, evicted: Vec::new() };
        proof {
            assert forall|a: Seq<char>| !(#[trigger] p.is_evicted(a)) by {
                assert(p.evicted.deep_view().len() == 0);
            }
        }
        p
    }

    /// The still-usable candidates, cloned in candidate order.
    fn live_list(&self) -> (r: Vec<String>)
        ensures
            r.deep_view() == self.live(),
    {
        let mut live: Vec<String> = Vec::new();
        let mut i: usize = 0;
        while i < self.candidates.len()
            invariant
                i <= self.candidates@.len(),
                live.deep_view() == self.candidates_view().take(i as int).filter(
                    self.live_pred(),
                ),
            decreases self.candidates@.len() - i,
        {
            let ghost prev = live.deep_view();
            let c = &self.candidates[i];
            if !contains_string(&self.evicted, c) {
                live.push(c.clone());
                proof {
                    assert(live.deep_view() =~= prev.push(c@));
                }
            }
            proof {
                lemma_filter_take_step(self.candidates_view(), self.live_pred(), i as int);
                assert(self.candidates_view()[i as int] == c@);
            }
            i = i + 1;
        }
        proof {
            assert(self.candidates_view().take(self.candidates@.len() as int) =~= self
                .candidates_view());
        }
        live
    }

    /// Selects a still-usable candidate, drawn by `entropy` so that
    /// selection has no memory of prior picks; fails exactly when all
    /// candidates are evicted.
    pub fn select(&self, entropy: u64) -> (r: Result<String, PoolExhausted>)
        ensures
            (r is Err) <==> self.live().len() == 0,
            r matches Ok(p) ==> p@ == self.live()[entropy as int % self.live().len() as int],
            r matches Ok(p) ==> self.live().contains(p@) && !self.is_evicted(p@),
    {
        let live = self.live_list();
        if live.len() == 0 {
            Err(PoolExhausted)
        } else {
            let len64: u64 = live.len() as u64;
            let idx: usize = (entropy % len64) as usize;
            let pick = live[idx].clone();
            proof {
                assert(live.deep_view()[idx as int] == live@[idx as int]@);
                assert(self.live().contains(pick@)) by {
                    assert(self.live()[idx as int] == pick@);
                }
                lemma_live_not_evicted(*self, idx as int);
            }
            Ok(pick)
        }
    }

    /// Marks `addr` permanently unusable for this pool. Idempotent:
    /// evicting twice changes nothing further; candidates are kept.
    pub fn evict(&mut self, addr: &String)
        ensures
            final(self).candidates_view() == old(self).candidates_view(),
            forall|a: Seq<char>|
                #[trigger] final(self).is_evicted(a) <==> (old(self).is_evicted(a) || a
                    == addr@),
    {
        if !contains_string(&self.evicted, addr) {
            let ghost prev = self.evicted.deep_view();
            self.evicted.push(addr.clone());
            proof {
                assert(self.evicted.deep_view() =~= prev.push(addr@));
                assert forall|a: Seq<char>|
                    #[trigger] self.evicted.deep_view().contains(a) <==> (prev.contains(a) || a
                        == addr@) by {
                    let cur = self.evicted.deep_view();
                    if cur.contains(a) {
                        let k = choose|k: int| 0 <= k < cur.len() && cur[k] == a;
                        if k < prev.len() {
                            assert(prev[k] == a);
                        }
                    }
                    if prev.contains(a) {
                        let k = choose|k: int| 0 <= k < prev.len() && prev[k] == a;
                        assert(cur[k] == a);
                    }
                    if a == addr@ {
                        assert(cur[prev.len() as int] == a);
                    }
                }
            }
        }
    }

    /// Whether no usable candidate remains: the fatal condition.
    pub fn exhausted(&self) -> (r: bool)
        ensures
            r == (self.live().len() == 0),
    {
        let live = self.live_list();
        live.len() == 0
    }
}

/// A live candidate is never an evicted one: what `select` draws from
/// excludes every address that a proxy-attributable failure removed.
pub proof fn lemma_evicted_never_live(p: ProxyPool, a: Seq<char>)
    requires
        p.is_evicted(a),
    ensures
        !p.live().contains(a),
{
    if p.live().contains(a) {
        let i = choose|i: int| 0 <= i < p.live().len() && p.live()[i] == a;
        p.candidates_view().lemma_filter_pred(p.live_pred(), i);
        assert(p.live_pred()(a));
    }
}

/// Each entry of the live list satisfies the live predicate.
proof fn lemma_live_not_evicted(p: ProxyPool, i: int)
    requires
        0 <= i < p.live().len(),
    ensures
        !p.is_evicted(p.live()[i]),
{
    p.candidates_view().lemma_filter_pred(p.live_pred(), i);
    assert(p.live_pred()(p.live()[i]));
}

/// Drops every copy of `proxy` from the list, keeping the order of
/// the remaining entries.
pub fn remove_proxy(proxies: &mut Vec<String>, proxy: &String)
    ensures
        final(proxies).deep_view() == old(proxies).deep_view().filter(other_than(proxy@)),
{
    let mut kept: Vec<String> = Vec::new();
    let mut i: usize = 0;
    while i < proxies.len()
        invariant
            i <= proxies@.len(),
            proxies == old(proxies),
            kept.deep_view() == proxies.deep_view().take(i as int).filter(other_than(proxy@)),
        decreases proxies@.len() - i,
    {
        let ghost prev = kept.deep_view();
        let p = &proxies[i];
        if !(*p == *proxy) {
            kept.push(p.clone());
            proof {
                assert(kept.deep_view() =~= prev.push(p@));
            }
        }
        proof {
            lemma_filter_take_step(proxies.deep_view(), other_than(proxy@), i as int);
            assert(proxies.deep_view()[i as int] == p@);
        }
        i = i + 1;
    }
    proof {
        assert(proxies.deep_view().take(proxies@.len() as int) =~= proxies.deep_view());
    }
    *proxies = kept;
}

/// Whether some entry of `list` spells the same address as `a`.
fn contains_string(list: &Vec<String>, a: &String) -> (r: bool)
    ensures
        r == list.deep_view().contains(a@),
{
    let mut i: usize = 0;
    while i < list.len()
        invariant
            i <= list@.len(),
            forall|k: int| 0 <= k < i ==> list.deep_view()[k] != a@,
        decreases list@.len() - i,
    {
        if list[i] == *a {
            proof {
                assert(list.deep_view()[i as int] == a@);
            }
            return true;
        }
        i = i + 1;
    }
    false
}

/// `filter` over one more element of a prefix: the element is kept
/// exactly when it satisfies the predicate.
proof fn lemma_filter_take_step<A>(s: Seq<A>, pred: spec_fn(A) -> bool, i: int)
    requires
        0 <= i < s.len(),
    ensures
        s.take(i + 1).filter(pred) == if pred(s[i]) {
            s.take(i).filter(pred).push(s[i])
        } else {
            s.take(i).filter(pred)
        },
{
    assert(s.take(i + 1) =~= s.take(i) + seq![s[i]]);
    Seq::filter_distributes_over_add(s.take(i), seq![s[i]], pred);
    lemma_filter_singleton(s[i], pred);
    if pred(s[i]) {
        assert(s.take(i).filter(pred) + seq![s[i]] =~= s.take(i).filter(pred).push(s[i]));
    } else {
        assert(s.take(i).filter(pred) + Seq::<A>::empty() =~= s.take(i).filter(pred));
    }
}

/// `filter` of a one-element sequence keeps or drops that element.
proof fn lemma_filter_singleton<A>(x: A, pred: spec_fn(A) -> bool)
    ensures
        seq![x].filter(pred) == if pred(x) {
            seq![x]
        } else {
            Seq::<A>::empty()
        },
{
    reveal(Seq::filter);
    let s = seq![x];
    assert(s.drop_last() =~= Seq::<A>::empty());
    assert(Seq::<A>::empty().filter(pred) =~= Seq::<A>::empty());
    assert(s.last() == x);
    if pred(x) {
        assert(Seq::<A>::empty().push(x) =~= seq![x]);
    }
}

} // verus!
