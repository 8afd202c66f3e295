//! The poll loop's state: one fetch cycle runs select-proxy →
//! ensure-session → fetch → classify → remediate → sleep.
//!
//! The poller owns the proxy pool, the session and the item cache;
//! the driver around it performs the transport work and hands back
//! plain values. Each [`FailureKind`] maps to exactly one remediation
//! action, declared once in [`Poller::finish_cycle`].

use vstd::pervasive::unreached;
use vstd::prelude::*;

use crate::cache::fresh_items;
use crate::cache::id_set;
use crate::cache::map_of;
use crate::cache::ItemCache;
use crate::db::param_views;
use crate::db::query_model;
use crate::db::ItemsFilters;
use crate::db::QueryValue;
use crate::errors::FailureKind;
use crate::errors::PoolExhausted;
use crate::errors::SessionError;
use crate::proxy::ProxyPool;
use crate::session::token_of;
use crate::session::Session;
use crate::types::Item;
use crate::types::Pagination;

verus! {

/// The regular pause between two cycles, in seconds.
pub const POLL_INTERVAL_SECS: u64 = 5;

/// The longer pause after the server throttled us, in seconds.
pub const COOLDOWN_SECS: u64 = 10;

/// The classified result of one catalog request.
pub enum FetchOutcome {
    Success(Vec<Item>, Pagination),
    Failure(FailureKind),
}

/// How long to wait before the next cycle: retry promptly with
/// another proxy, pause the regular interval, or cool down after
/// throttling.
#[derive(Clone, Copy, Debug, PartialEq, Eq, Structural)]
pub enum Pace {
    Immediate,
    Normal,
    Cooldown,
}

/// The seconds each pace stands for.
pub open spec fn pace_seconds_spec(p: Pace) -> u64 {
    match p {
        Pace::Immediate => 0,
        Pace::Normal => POLL_INTERVAL_SECS,
        Pace::Cooldown => COOLDOWN_SECS,
    }
}

/// The seconds each pace stands for.
pub fn pace_seconds(p: &Pace) -> (r: u64)
    ensures
        r == pace_seconds_spec(*p),
{
    match p {
        Pace::Immediate => 0,
        Pace::Normal => POLL_INTERVAL_SECS,
        Pace::Cooldown => COOLDOWN_SECS,
    }
}

/// What one cycle came to: the items to announce, the classified
/// failure if any, and how long to pause before the next cycle.
pub struct CycleReport {
    pub new_items: Vec<Item>,
    pub failure: Option<FailureKind>,
    pub pace: Pace,
}

/// What to do when the ensure-session step fails: end the process, or
/// treat the failure as a transport failure of this one cycle.
#[derive(Clone, Copy, Debug, PartialEq, Eq, Structural)]
pub enum SessionFailureAction {
    Fatal,
    ContinueAsTransport,
}

/// The poll loop's state: filter configuration, proxy pool, session
/// and item cache, owned exclusively by one logical poller.
pub struct Poller {
    filters: ItemsFilters,
    pool: ProxyPool,
    session: Session,
    cache: ItemCache,
    current_proxy: Option<String>,
    had_session: bool,
}

impl Poller {
    /// The filter configuration.
    pub closed spec fn spec_filters(self) -> ItemsFilters {
        self.filters
    }

    /// The proxy pool.
    pub closed spec fn spec_pool(self) -> ProxyPool {
        self.pool
    }

    /// The session.
    pub closed spec fn spec_session(self) -> Session {
        self.session
    }

    /// The item cache.
    pub closed spec fn spec_cache(self) -> ItemCache {
        self.cache
    }

    /// The proxy selected for the cycle under way, if any.
    pub closed spec fn spec_current_proxy(self) -> Option<String> {
        self.current_proxy
    }

    /// Whether a session was ever acquired in this process.
    pub closed spec fn spec_had_session(self) -> bool {
        self.had_session
    }

    /// Whether the ensure-session step must refresh before a fetch:
    /// exactly when no token is stored.
    pub open spec fn needs_refresh_spec(self) -> bool {
        self.spec_session().spec_token().len() == 0
    }

    /// A fresh poller: full proxy pool, no session yet, empty and
    /// unprimed cache, no cycle under way.
    pub fn new(filters: ItemsFilters, proxies: Vec<String>) -> (p: Self)
        ensures
            p.spec_filters() == filters,
            p.spec_pool().candidates_view() == proxies.deep_view(),
            forall|a: Seq<char>| !(#[trigger] p.spec_pool().is_evicted(a)),
            p.needs_refresh_spec(),
            !p.spec_had_session(),
            p.spec_cache().contents() == Map::<i64, Item>::empty(),
            !p.spec_cache().spec_primed(),
            p.spec_current_proxy() is None,
    {
        Poller {
            filters,
            pool: ProxyPool::new(proxies),
            session: Session::new(),
            cache: ItemCache::new(),
            current_proxy: None,
            had_session: false,
        }
    }

    /// The select-proxy step: draws a still-usable proxy by `entropy`
    /// and remembers it for the cycle. Fails with [`PoolExhausted`]
    /// exactly when every candidate is evicted — the unrecoverable
    /// condition on which the driver ends the process.
    pub fn start_cycle(&mut self, entropy: u64) -> (r: Result<String, PoolExhausted>)
        ensures
            final(self).spec_filters() == old(self).spec_filters(),
            final(self).spec_pool() == old(self).spec_pool(),
            final(self).spec_session() == old(self).spec_session(),
            final(self).spec_cache() == old(self).spec_cache(),
            final(self).spec_had_session() == old(self).spec_had_session(),
            (r is Err) <==> old(self).spec_pool().live().len() == 0,
            r matches Ok(p) ==> {
                &&& p@ == old(self).spec_pool().live()[entropy as int % old(
                    self,
                ).spec_pool().live().len() as int]
                &&& old(self).spec_pool().live().contains(p@)
                &&& !old(self).spec_pool().is_evicted(p@)
                &&& final(self).spec_current_proxy() matches Some(q) && q@ == p@
            },
            r is Err ==> final(self).spec_current_proxy() is None,
    {
        match self.pool.select(entropy) {
            Ok(p) => {
                self.current_proxy = Some(p.clone());
                Ok(p)
            },
            Err(e) => {
                self.current_proxy = None;
                Err(e)
            },
        }
    }

    /// The ensure-session check: whether a refresh must run before
    /// the fetch of this cycle.
    pub fn needs_refresh(&self) -> (r: bool)
        ensures
            r == self.needs_refresh_spec(),
    {
        !self.session.has_token()
    }

    /// The stored session token; empty when not yet authenticated.
    pub fn current_token(&self) -> (r: &str)
        ensures
            r@ == self.spec_session().spec_token(),
    {
        self.session.current_token()
    }

    /// The query parameters of the configured filter set.
    pub fn query(&self) -> (r: Vec<(String, QueryValue)>)
        ensures
            param_views(r@) == query_model(self.spec_filters()),
    {
        self.filters.to_query()
    }

    /// The ensure-session step proper: extracts and installs the
    /// token from a fetched bootstrap document. A document without
    /// the markers fails with `TokenNotFound` and leaves the stored
    /// token unchanged.
    pub fn refresh_session(&mut self, body: &str) -> (r: Result<String, SessionError>)
        ensures
            final(self).spec_filters() == old(self).spec_filters(),
            final(self).spec_pool() == old(self).spec_pool(),
            final(self).spec_cache() == old(self).spec_cache(),
            final(self).spec_current_proxy() == old(self).spec_current_proxy(),
            token_of(body@) matches Some(t) ==> {
                &&& r matches Ok(tok) && tok@ == t
                &&& final(self).spec_session().spec_token() == t
                &&& final(self).spec_had_session()
            },
            token_of(body@) is None ==> {
                &&& r == Result::<String, SessionError>::Err(SessionError::TokenNotFound)
                &&& final(self).spec_session() == old(self).spec_session()
                &&& final(self).spec_had_session() == old(self).spec_had_session()
            },
    {
        match self.session.refresh(body) {
            Ok(tok) => {
                self.had_session = true;
                Ok(tok)
            },
            Err(e) => Err(e),
        }
    }

    /// What a failed ensure-session step means: fatal only for a
    /// missing token during the mandatory initial bootstrap; any
    /// later failure is carried as a transport failure of this one
    /// cycle.
    pub fn session_failure_action(&self, e: &SessionError) -> (r: SessionFailureAction)
        ensures
            (r == SessionFailureAction::Fatal) <==> (*e == SessionError::TokenNotFound
                && !self.spec_had_session()),
    {
        match e {
            SessionError::TokenNotFound => {
                if !self.had_session {
                    SessionFailureAction::Fatal
                } else {
                    SessionFailureAction::ContinueAsTransport
                }
            },
            SessionError::TransportError => SessionFailureAction::ContinueAsTransport,
        }
    }

    /// The classify → remediate step closing one cycle. Each failure
    /// kind maps to exactly one action: a proxy-attributable failure
    /// evicts the selected proxy and retries promptly; 401 clears the
    /// token so the next cycle must refresh; 429 cools down; other
    /// transport or parse failures change nothing. Success applies
    /// the item cache and reports the new items in the order
    /// received.
    pub fn finish_cycle(&mut self, outcome: FetchOutcome) -> (r: CycleReport)
        requires
            old(self).spec_current_proxy() is Some,
        ensures
            final(self).spec_filters() == old(self).spec_filters(),
            final(self).spec_had_session() == old(self).spec_had_session(),
            final(self).spec_current_proxy() is None,
            outcome matches FetchOutcome::Success(items, _) ==> {
                &&& final(self).spec_pool() == old(self).spec_pool()
                &&& final(self).spec_session() == old(self).spec_session()
                &&& final(self).spec_cache().spec_primed()
                &&& final(self).spec_cache().contents() == map_of(items@)
                &&& final(self).spec_cache().keys() == id_set(items@)
                &&& r.new_items@ == if old(self).spec_cache().spec_primed() {
                    fresh_items(old(self).spec_cache().keys(), items@)
                } else {
                    Seq::<Item>::empty()
                }
                &&& r.failure is None
                &&& r.pace == Pace::Normal
            },
            outcome matches FetchOutcome::Failure(k) ==> (old(self).spec_current_proxy()
                matches Some(cur) ==> {
                &&& r.failure == Some(k)
                &&& r.new_items@ == Seq::<Item>::empty()
                &&& final(self).spec_cache() == old(self).spec_cache()
                &&& (k == FailureKind::ProxyUnreachable ==> {
                    &&& final(self).spec_pool().candidates_view() == old(
                        self,
                    ).spec_pool().candidates_view()
                    &&& forall|a: Seq<char>|
                        #[trigger] final(self).spec_pool().is_evicted(a) <==> (old(
                            self,
                        ).spec_pool().is_evicted(a) || a == cur@)
                    &&& final(self).spec_session() == old(self).spec_session()
                    &&& r.pace == Pace::Immediate
                })
                &&& (k != FailureKind::ProxyUnreachable ==> final(self).spec_pool() == old(
                    self,
                ).spec_pool())
                &&& (k == FailureKind::Unauthorized ==> {
                    &&& final(self).spec_session().spec_token() == Seq::<char>::empty()
                    &&& final(self).needs_refresh_spec()
                    &&& r.pace == Pace::Normal
                })
                &&& (k == FailureKind::RateLimited ==> final(self).spec_session() == old(
                    self,
                ).spec_session() && r.pace == Pace::Cooldown)
                &&& ((k matches FailureKind::Transport(_) || k == FailureKind::Malformed)
                    ==> final(self).spec_session() == old(self).spec_session() && r.pace
                    == Pace::Normal)
            }),
    {
        let cur = self.current_proxy.take();
        match outcome {
            FetchOutcome::Success(items, _pagination) => {
                let new_items = self.cache.apply(&items);
                CycleReport { new_items, failure: None, pace: Pace::Normal }
            },
            FetchOutcome::Failure(kind) => {
                let pace = match kind {
                    FailureKind::ProxyUnreachable => {
                        match &cur {
                            Some(p) => self.pool.evict(p),
                            None => unreached(),
                        }
                        Pace::Immediate
                    },
                    FailureKind::Unauthorized => {
                        self.session.clear();
                        Pace::Normal
                    },
                    FailureKind::RateLimited => Pace::Cooldown,
                    FailureKind::Transport(_) => Pace::Normal,
                    FailureKind::Malformed => Pace::Normal,
                };
                CycleReport { new_items: Vec::new(), failure: Some(kind), pace }
            },
        }
    }
}

/// An empty token forces the ensure-session step: after an
/// `Unauthorized` remediation cleared the session, the next cycle
/// must invoke a refresh before it attempts a fetch.
pub proof fn lemma_unauthorized_forces_refresh(p: Poller)
    requires
        p.spec_session().spec_token().len() == 0,
    ensures
        p.needs_refresh_spec(),
{
}

} // verus!
