//! Choosing the provider that serves a request: among the providers that
//! offer the capability and whose circuit lets calls through, the one the
//! routing strategy picks.

use vstd::prelude::*;
use crate::constants::{DEFAULT_CIRCUIT_FAILURE_THRESHOLD, DEFAULT_CIRCUIT_SUCCESS_THRESHOLD};
use crate::providers::{CircuitBreaker, CircuitBreakerConfig, CircuitState, CircuitView, after_success, after_failure,
    after_check, call_allowed};
use crate::text::owned;

verus! {

/// How a provider is chosen among those available.
#[derive(Debug, Clone, Copy, PartialEq, Eq, Structural)]
pub enum RoutingStrategy {
    /// The first available provider.
    First,
    /// Available providers in turn, by a counter that each selection advances.
    RoundRobin,
    /// An available provider picked by a random number.
    Random,
    /// The available provider with the lowest measured latency.
    LeastLatency,
    /// The first available provider offering the capability.
    Capability,
}

/// What the selection needs to know of one registered provider.
#[derive(Debug, Clone, Copy, PartialEq, Eq, Structural)]
pub struct ProviderCandidate {
    /// The provider offers the requested capability.
    pub offers_capability: bool,
    /// The provider's circuit breaker allows a call.
    pub circuit_allows: bool,
    /// The latency of the provider's last health check, if any.
    pub latency_ms: Option<u64>,
}

/// Why no provider could be chosen.
#[derive(Debug, Clone, Copy, PartialEq, Eq, Structural)]
pub enum RoutingError {
    /// No available provider offers the capability.
    ProviderNotConfigured,
}

/// A candidate can serve the request.
pub open spec fn usable(c: ProviderCandidate) -> bool {
    c.offers_capability && c.circuit_allows
}

/// The positions of the usable candidates, in order.
pub open spec fn available(cs: Seq<ProviderCandidate>) -> Seq<int>
    decreases cs.len(),
{
    if cs.len() == 0 {
        Seq::empty()
    } else if usable(cs.last()) {
        available(cs.drop_last()).push(cs.len() - 1)
    } else {
        available(cs.drop_last())
    }
}

/// The latency a candidate is ranked by: unmeasured ones rank last.
pub open spec fn latency_key(c: ProviderCandidate) -> u64 {
    match c.latency_ms {
        Some(l) => l,
        None => u64::MAX,
    }
}

/// The candidate at position `j` of the available ones is the first of
/// those with the lowest latency.
pub open spec fn first_fastest(cs: Seq<ProviderCandidate>, avail: Seq<int>, j: int) -> bool {
    &&& 0 <= j < avail.len()
    &&& forall|k: int| 0 <= k < avail.len() ==> latency_key(cs[avail[j]]) <= latency_key(#[trigger] cs[avail[k]])
    &&& forall|k: int| 0 <= k < j ==> latency_key(#[trigger] cs[avail[k]]) > latency_key(cs[avail[j]])
}

/// The position, among the available candidates, that a strategy picks,
/// given the round-robin counter and the random number.
pub open spec fn picks(cs: Seq<ProviderCandidate>, strategy: RoutingStrategy, counter: u64, random: u64, j: int) -> bool {
    let avail = available(cs);
    match strategy {
        RoutingStrategy::First | RoutingStrategy::Capability => j == 0,
        RoutingStrategy::RoundRobin => j == counter % (avail.len() as u64),
        RoutingStrategy::Random => j == random % (avail.len() as u64),
        RoutingStrategy::LeastLatency => first_fastest(cs, avail, j),
    }
}

proof fn lemma_available_bounds(cs: Seq<ProviderCandidate>)
    ensures
        forall|k: int| 0 <= k < available(cs).len() ==> 0 <= #[trigger] available(cs)[k] < cs.len(),
        available(cs).len() <= cs.len(),
    decreases cs.len(),
{
    if cs.len() > 0 {
        lemma_available_bounds(cs.drop_last());
    }
}

/// The candidates a request may be routed to are exactly those that offer
/// the capability and whose circuit allows a call, listed in their order:
/// every listed position holds such a candidate, every such candidate is
/// listed, and the positions increase.
pub proof fn lemma_available_exactly_usable(cs: Seq<ProviderCandidate>)
    ensures
        forall|k: int| 0 <= k < available(cs).len() ==> 0 <= #[trigger] available(cs)[k] < cs.len()
            && cs[available(cs)[k]].offers_capability && cs[available(cs)[k]].circuit_allows,
        forall|i: int| 0 <= i < cs.len() && cs[i].offers_capability && cs[i].circuit_allows
            ==> #[trigger] available(cs).contains(i),
        forall|k1: int, k2: int| 0 <= k1 < k2 < available(cs).len()
            ==> #[trigger] available(cs)[k1] < #[trigger] available(cs)[k2],
    decreases cs.len(),
{
    if cs.len() > 0 {
        let prev = cs.drop_last();
        lemma_available_exactly_usable(prev);
        lemma_available_bounds(prev);
        let a = available(cs);
        let p = available(prev);
        assert forall|k: int| 0 <= k < a.len() implies 0 <= #[trigger] a[k] < cs.len()
            && cs[a[k]].offers_capability && cs[a[k]].circuit_allows by {
            if k < p.len() {
                assert(a[k] == p[k]);
                assert(cs[p[k]] == prev[p[k]]);
            }
        }
        assert forall|i: int| 0 <= i < cs.len() && cs[i].offers_capability && cs[i].circuit_allows
            implies #[trigger] a.contains(i) by {
            if i == cs.len() - 1 {
                assert(a[a.len() - 1] == i);
            } else {
                assert(prev[i] == cs[i]);
                assert(p.contains(i));
                let k = choose|k: int| 0 <= k < p.len() && p[k] == i;
                assert(a[k] == p[k]);
            }
        }
        assert forall|k1: int, k2: int| 0 <= k1 < k2 < a.len() implies #[trigger] a[k1] < #[trigger] a[k2] by {
            assert(a[k1] == p[k1]);
            if k2 < p.len() {
                assert(a[k2] == p[k2]);
            } else {
                assert(p[k1] < prev.len());
            }
        }
    }
}

/// Whatever the strategy, where some candidate is usable the one picked
/// offers the capability and its circuit allows the call.
pub proof fn lemma_pick_is_usable(cs: Seq<ProviderCandidate>, strategy: RoutingStrategy, counter: u64, random: u64, j: int)
    requires
        cs.len() <= u64::MAX,
        available(cs).len() > 0,
        picks(cs, strategy, counter, random, j),
    ensures
        0 <= j < available(cs).len(),
        0 <= available(cs)[j] < cs.len(),
        cs[available(cs)[j]].offers_capability,
        cs[available(cs)[j]].circuit_allows,
{
    lemma_available_exactly_usable(cs);
    lemma_available_bounds(cs);
    let n = available(cs).len() as u64;
    assert(n == available(cs).len());
    assert(counter % n < n) by (nonlinear_arith) requires n > 0;
    assert(random % n < n) by (nonlinear_arith) requires n > 0;
}

/// The positions of the usable candidates.
fn available_positions(cs: &Vec<ProviderCandidate>) -> (v: Vec<usize>)
    ensures
        v@.len() == available(cs@).len(),
        forall|k: int| 0 <= k < v@.len() ==> v@[k] as int == #[trigger] available(cs@)[k],
{
    let mut v: Vec<usize> = Vec::new();
    let mut i: usize = 0;
    while i < cs.len()
        invariant
            i <= cs@.len(),
            v@.len() == available(cs@.take(i as int)).len(),
            forall|k: int| 0 <= k < v@.len() ==> v@[k] as int == #[trigger] available(cs@.take(i as int))[k],
        decreases cs@.len() - i,
    {
        assert(cs@.take(i + 1).drop_last() =~= cs@.take(i as int));
        assert(cs@.take(i + 1).last() == cs@[i as int]);
        if cs[i].offers_capability && cs[i].circuit_allows {
            v.push(i);
        }
        i = i + 1;
    }
    assert(cs@.take(cs@.len() as int) =~= cs@);
    v
}

/// Select the candidate that serves a request: among the usable ones (in
/// order), the one the strategy picks; `counter` is the round-robin counter
/// before this selection and `random` a random number.
pub fn select_provider(cs: &Vec<ProviderCandidate>, strategy: RoutingStrategy, counter: u64, random: u64) -> (r: Result<usize, RoutingError>)
    ensures
        available(cs@).len() == 0 <==> r == Err::<usize, RoutingError>(RoutingError::ProviderNotConfigured),
        r matches Ok(i) ==> exists|j: int| picks(cs@, strategy, counter, random, j) && available(cs@)[j] == i as int,
        r matches Ok(i) ==> i < cs@.len() && usable(cs@[i as int]),
{
    let avail = available_positions(cs);
    proof { lemma_available_bounds(cs@); }
    let n = avail.len();
    if n == 0 {
        return Err(RoutingError::ProviderNotConfigured);
    }
    let j: usize = match strategy {
        RoutingStrategy::First | RoutingStrategy::Capability => 0,
        RoutingStrategy::RoundRobin => (counter % (n as u64)) as usize,
        RoutingStrategy::Random => (random % (n as u64)) as usize,
        RoutingStrategy::LeastLatency => {
            let mut best: usize = 0;
            let mut k: usize = 1;
            while k < n
                invariant
                    1 <= k <= n,
                    n == avail@.len(),
                    n == available(cs@).len(),
                    best < k,
                    forall|m: int| 0 <= m < n ==> avail@[m] as int == #[trigger] available(cs@)[m],
                    forall|m: int| 0 <= m < n ==> 0 <= #[trigger] available(cs@)[m] < cs@.len(),
                    forall|m: int| 0 <= m < k ==> latency_key(cs@[available(cs@)[best as int]]) <= latency_key(#[trigger] cs@[available(cs@)[m]]),
                    forall|m: int| 0 <= m < best ==> latency_key(#[trigger] cs@[available(cs@)[m]]) > latency_key(cs@[available(cs@)[best as int]]),
                decreases n - k,
            {
                assert(avail@[best as int] as int == available(cs@)[best as int]);
                assert(avail@[k as int] as int == available(cs@)[k as int]);
                assert(0 <= available(cs@)[best as int] < cs@.len());
                assert(0 <= available(cs@)[k as int] < cs@.len());
                let kb = match cs[avail[best]].latency_ms { Some(l) => l, None => u64::MAX };
                let kk = match cs[avail[k]].latency_ms { Some(l) => l, None => u64::MAX };
                if kk < kb {
                    best = k;
                }
                k = k + 1;
            }
            best
        },
    };
    let i = avail[j];
    proof {
        assert(picks(cs@, strategy, counter, random, j as int));
        assert(available(cs@)[j as int] == i as int);
        lemma_available_usable(cs@, j as int);
    }
    Ok(i)
}

proof fn lemma_available_usable(cs: Seq<ProviderCandidate>, k: int)
    requires
        0 <= k < available(cs).len(),
    ensures
        usable(cs[available(cs)[k]]),
    decreases cs.len(),
{
    lemma_available_bounds(cs.drop_last());
    if k < available(cs.drop_last()).len() {
        lemma_available_usable(cs.drop_last(), k);
        lemma_available_bounds(cs.drop_last());
        assert(cs.drop_last()[available(cs.drop_last())[k]] == cs[available(cs)[k]]);
    }
}

/// The round-robin counter after a selection: advanced by one, wrapping.
pub fn next_round_robin(counter: u64) -> (n: u64)
    ensures
        n == counter.wrapping_add(1),
{
    counter.wrapping_add(1)
}


/// The circuit of a newly registered provider: closed, nothing counted, the
/// default thresholds.
pub open spec fn fresh_circuit(v: CircuitView) -> bool {
    &&& v.state == CircuitState::Closed
    &&& v.failure_count == 0
    &&& v.success_count == 0
    &&& !v.failed_before
    &&& v.failure_threshold == DEFAULT_CIRCUIT_FAILURE_THRESHOLD
    &&& v.success_threshold == DEFAULT_CIRCUIT_SUCCESS_THRESHOLD
}

/// Some entry carries this provider ID.
pub open spec fn has_id(e: Seq<(String, CircuitBreaker)>, id: Seq<char>) -> bool {
    exists|i: int| 0 <= i < e.len() && #[trigger] e[i].0@ == id
}

/// No two entries carry the same provider ID.
pub open spec fn distinct_ids(e: Seq<(String, CircuitBreaker)>) -> bool {
    forall|i: int, j: int| 0 <= i < e.len() && 0 <= j < e.len() && i != j ==> #[trigger] e[i].0@ != #[trigger] e[j].0@
}

/// The position of the entry carrying this provider ID.
pub open spec fn index_of(e: Seq<(String, CircuitBreaker)>, id: Seq<char>) -> int {
    choose|i: int| 0 <= i < e.len() && #[trigger] e[i].0@ == id
}

/// The circuits of the registered providers, by ID.
pub open spec fn circuits(e: Seq<(String, CircuitBreaker)>) -> Map<Seq<char>, CircuitView> {
    Map::new(|id: Seq<char>| has_id(e, id), |id: Seq<char>| e[index_of(e, id)].1@)
}

/// The registered providers, each with its circuit breaker.
pub struct ProviderRoster {
    entries: Vec<(String, CircuitBreaker)>,
}

impl View for ProviderRoster {
    type V = Map<Seq<char>, CircuitView>;

    closed spec fn view(&self) -> Map<Seq<char>, CircuitView> {
        circuits(self.entries@)
    }
}

/// The entry at `i` carries `id`, so it is the one `index_of` picks.
proof fn lemma_index_of(e: Seq<(String, CircuitBreaker)>, id: Seq<char>, i: int)
    requires
        distinct_ids(e),
        0 <= i < e.len(),
        e[i].0@ == id,
    ensures
        has_id(e, id),
        index_of(e, id) == i,
{
    assert(has_id(e, id));
    let j = index_of(e, id);
    assert(e[j].0@ == id);
}

impl ProviderRoster {
    #[verifier::type_invariant]
    spec fn inv(self) -> bool {
        distinct_ids(self.entries@)
    }

    /// A roster with no providers.
    pub fn new() -> (r: Self)
        ensures
            r@ == Map::<Seq<char>, CircuitView>::empty(),
    {
        let r = ProviderRoster { entries: Vec::new() };
        assert(r@ =~= Map::<Seq<char>, CircuitView>::empty());
        r
    }

    /// The position of the provider with this ID.
    fn find(&self, id: &str) -> (r: Option<usize>)
        ensures
            match r {
                Some(i) => i < self.entries@.len() && self.entries@[i as int].0@ == id@,
                None => !has_id(self.entries@, id@),
            },
    {
        let mut i: usize = 0;
        while i < self.entries.len()
            invariant
                i <= self.entries@.len(),
                forall|j: int| 0 <= j < i ==> #[trigger] self.entries@[j].0@ != id@,
            decreases self.entries@.len() - i,
        {
            if crate::text::str_eq(self.entries[i].0.as_str(), id) {
                return Some(i);
            }
            i = i + 1;
        }
        None
    }

    /// Register a provider; one already registered under the ID gets a fresh
    /// circuit breaker.
    pub fn register(&mut self, id: &str)
        ensures
            final(self)@.dom() == old(self)@.dom().insert(id@),
            fresh_circuit(final(self)@[id@]),
            forall|k: Seq<char>| k != id@ && #[trigger] old(self)@.contains_key(k) ==> final(self)@[k] == old(self)@[k],
    {
        proof { use_type_invariant(&*self); }
        let cb = CircuitBreaker::new(CircuitBreakerConfig::default());
        let ghost old_e = self.entries@;
        match self.find(id) {
            Some(i) => {
                let mut entries: Vec<(String, CircuitBreaker)> = Vec::new();
                std::mem::swap(&mut entries, &mut self.entries);
                entries.set(i, (owned(id), cb));
                let ghost e = entries@;
                assert forall|a: int, b: int| 0 <= a < e.len() && 0 <= b < e.len() && a != b implies #[trigger] e[a].0@ != #[trigger] e[b].0@ by {
                    if a != i && b != i {
                        assert(e[a] == old_e[a] && e[b] == old_e[b]);
                    } else if a == i {
                        assert(e[b] == old_e[b]);
                        assert(old_e[i as int].0@ == id@);
                    } else {
                        assert(e[a] == old_e[a]);
                        assert(old_e[i as int].0@ == id@);
                    }
                }
                self.entries = entries;
                proof {
                    lemma_index_of(e, id@, i as int);
                    assert forall|k: Seq<char>| #![auto] has_id(e, k) <==> (has_id(old_e, k) || k == id@) by {
                        if has_id(e, k) {
                            let j = choose|j: int| 0 <= j < e.len() && #[trigger] e[j].0@ == k;
                            if j != i { assert(old_e[j] == e[j]); }
                            else { assert(old_e[j].0@ == id@); }
                        }
                        if has_id(old_e, k) {
                            let j = choose|j: int| 0 <= j < old_e.len() && #[trigger] old_e[j].0@ == k;
                            if j != i { assert(old_e[j] == e[j]); }
                        }
                    }
                    assert(circuits(e).dom() =~= circuits(old_e).dom().insert(id@));
                    assert forall|k: Seq<char>| k != id@ && #[trigger] circuits(old_e).contains_key(k) implies circuits(e)[k] == circuits(old_e)[k] by {
                        let j = index_of(old_e, k);
                        assert(old_e[j].0@ == k);
                        assert(j != i);
                        assert(e[j] == old_e[j]);
                        lemma_index_of(e, k, j);
                    }
                }
            },
            None => {
                let mut entries: Vec<(String, CircuitBreaker)> = Vec::new();
                std::mem::swap(&mut entries, &mut self.entries);
                entries.push((owned(id), cb));
                let ghost e = entries@;
                assert forall|a: int, b: int| 0 <= a < e.len() && 0 <= b < e.len() && a != b implies #[trigger] e[a].0@ != #[trigger] e[b].0@ by {
                    if a < old_e.len() && b < old_e.len() {
                        assert(e[a] == old_e[a] && e[b] == old_e[b]);
                    } else if a < old_e.len() {
                        assert(e[a] == old_e[a]);
                    } else {
                        assert(e[b] == old_e[b]);
                    }
                }
                self.entries = entries;
                proof {
                    let n = old_e.len() as int;
                    lemma_index_of(e, id@, n);
                    assert forall|k: Seq<char>| #![auto] has_id(e, k) <==> (has_id(old_e, k) || k == id@) by {
                        if has_id(e, k) {
                            let j = choose|j: int| 0 <= j < e.len() && #[trigger] e[j].0@ == k;
                            if j < n { assert(old_e[j] == e[j]); }
                        }
                        if has_id(old_e, k) {
                            let j = choose|j: int| 0 <= j < old_e.len() && #[trigger] old_e[j].0@ == k;
                            assert(old_e[j] == e[j]);
                        }
                    }
                    assert(circuits(e).dom() =~= circuits(old_e).dom().insert(id@));
                    assert forall|k: Seq<char>| k != id@ && #[trigger] circuits(old_e).contains_key(k) implies circuits(e)[k] == circuits(old_e)[k] by {
                        let j = index_of(old_e, k);
                        assert(old_e[j].0@ == k);
                        assert(e[j] == old_e[j]);
                        lemma_index_of(e, k, j);
                    }
                }
            },
        }
    }

    /// Unregister a provider by ID.
    pub fn unregister(&mut self, id: &str)
        ensures
            final(self)@ == old(self)@.remove(id@),
    {
        proof { use_type_invariant(&*self); }
        let ghost old_e = self.entries@;
        match self.find(id) {
            Some(i) => {
                let mut entries: Vec<(String, CircuitBreaker)> = Vec::new();
                std::mem::swap(&mut entries, &mut self.entries);
                entries.remove(i);
                let ghost e = entries@;
                assert forall|a: int| 0 <= a < e.len() implies #[trigger] e[a] == (if a < i { old_e[a] } else { old_e[a + 1] }) by {}
                assert forall|a: int, b: int| 0 <= a < e.len() && 0 <= b < e.len() && a != b implies #[trigger] e[a].0@ != #[trigger] e[b].0@ by {
                    let oa = if a < i { a } else { a + 1 };
                    let ob = if b < i { b } else { b + 1 };
                    assert(e[a] == old_e[oa] && e[b] == old_e[ob]);
                }
                self.entries = entries;
                proof {
                    assert forall|k: Seq<char>| #![auto] has_id(e, k) <==> (has_id(old_e, k) && k != id@) by {
                        if has_id(e, k) {
                            let j = choose|j: int| 0 <= j < e.len() && #[trigger] e[j].0@ == k;
                            let oj = if j < i { j } else { j + 1 };
                            assert(e[j] == old_e[oj]);
                            assert(oj != i);
                        }
                        if has_id(old_e, k) && k != id@ {
                            let j = choose|j: int| 0 <= j < old_e.len() && #[trigger] old_e[j].0@ == k;
                            assert(j != i);
                            let nj = if j < i { j } else { j - 1 };
                            assert(e[nj] == old_e[j]);
                        }
                    }
                    assert forall|k: Seq<char>| #[trigger] circuits(e).contains_key(k) implies circuits(e)[k] == circuits(old_e)[k] by {
                        let j = index_of(e, k);
                        let oj = if j < i { j } else { j + 1 };
                        assert(e[j] == old_e[oj]);
                        lemma_index_of(old_e, k, oj);
                    }
                    assert(circuits(e) =~= circuits(old_e).remove(id@));
                }
            },
            None => {
                assert(circuits(old_e) =~= circuits(old_e).remove(id@));
            },
        }
    }

    /// The IDs of the registered providers.
    pub fn provider_ids(&self) -> (ids: Vec<String>)
        ensures
            ids@.map_values(|s: String| s@).to_set() == self@.dom(),
            ids@.len() == self@.dom().len(),
    {
        proof { use_type_invariant(&*self); }
        let mut ids: Vec<String> = Vec::new();
        let mut i: usize = 0;
        while i < self.entries.len()
            invariant
                i <= self.entries@.len(),
                ids@.len() == i,
                forall|j: int| 0 <= j < i ==> #[trigger] ids@[j]@ == self.entries@[j].0@,
            decreases self.entries@.len() - i,
        {
            ids.push(self.entries[i].0.clone());
            i = i + 1;
        }
        proof {
            let e = self.entries@;
            let s = ids@.map_values(|s: String| s@);
            assert forall|k: Seq<char>| s.contains(k) <==> has_id(e, k) by {
                if s.contains(k) {
                    let j = choose|j: int| 0 <= j < s.len() && s[j] == k;
                    assert(e[j].0@ == k);
                }
                if has_id(e, k) {
                    let j = choose|j: int| 0 <= j < e.len() && #[trigger] e[j].0@ == k;
                    assert(s[j] == k);
                }
            }
            assert(s.to_set() =~= circuits(e).dom());
            assert(s.no_duplicates()) by {
                assert forall|a: int, b: int| 0 <= a < s.len() && 0 <= b < s.len() && a != b implies s[a] != s[b] by {
                    assert(e[a].0@ != e[b].0@);
                }
            }
            s.unique_seq_to_set();
        }
        ids
    }

    /// Whether any providers are registered.
    pub fn has_providers(&self) -> (b: bool)
        ensures
            b == (self@.dom().len() > 0),
    {
        let ids = self.provider_ids();
        proof {
            if ids@.len() == 0 {
                assert(ids@.map_values(|s: String| s@) =~= Seq::<Seq<char>>::empty());
            }
        }
        ids.len() > 0
    }

    /// Record a successful call to a registered provider.
    pub fn record_success(&mut self, id: &str)
        ensures
            old(self)@.contains_key(id@) ==> final(self)@ == old(self)@.insert(id@, after_success(old(self)@[id@])),
            !old(self)@.contains_key(id@) ==> final(self)@ == old(self)@,
    {
        proof { use_type_invariant(&*self); }
        let ghost old_e = self.entries@;
        if let Some(i) = self.find(id) {
            let mut entries: Vec<(String, CircuitBreaker)> = Vec::new();
            std::mem::swap(&mut entries, &mut self.entries);
            let (name, mut cb) = entries.remove(i);
            cb.record_success();
            entries.insert(i, (name, cb));
            let ghost e = entries@;
            assert forall|a: int| 0 <= a < e.len() && a != i implies #[trigger] e[a] == old_e[a] by {}
            assert(e[i as int].0@ == old_e[i as int].0@);
            assert forall|a: int, b: int| 0 <= a < e.len() && 0 <= b < e.len() && a != b implies #[trigger] e[a].0@ != #[trigger] e[b].0@ by {
                assert(e[a].0@ == old_e[a].0@ && e[b].0@ == old_e[b].0@);
            }
            self.entries = entries;
            proof { lemma_replaced_circuit(old_e, e, i as int, id@); }
        } else {
            assert(circuits(old_e) =~= circuits(self.entries@));
        }
    }

    /// Record a failed call to a registered provider.
    pub fn record_failure(&mut self, id: &str)
        requires
            old(self)@.contains_key(id@) ==> old(self)@[id@].failure_count < u32::MAX,
        ensures
            old(self)@.contains_key(id@) ==> final(self)@ == old(self)@.insert(id@, after_failure(old(self)@[id@])),
            !old(self)@.contains_key(id@) ==> final(self)@ == old(self)@,
    {
        proof { use_type_invariant(&*self); }
        let ghost old_e = self.entries@;
        if let Some(i) = self.find(id) {
            proof { lemma_index_of(old_e, id@, i as int); }
            let mut entries: Vec<(String, CircuitBreaker)> = Vec::new();
            std::mem::swap(&mut entries, &mut self.entries);
            let (name, mut cb) = entries.remove(i);
            cb.record_failure();
            entries.insert(i, (name, cb));
            let ghost e = entries@;
            assert forall|a: int| 0 <= a < e.len() && a != i implies #[trigger] e[a] == old_e[a] by {}
            assert(e[i as int].0@ == old_e[i as int].0@);
            assert forall|a: int, b: int| 0 <= a < e.len() && 0 <= b < e.len() && a != b implies #[trigger] e[a].0@ != #[trigger] e[b].0@ by {
                assert(e[a].0@ == old_e[a].0@ && e[b].0@ == old_e[b].0@);
            }
            self.entries = entries;
            proof { lemma_replaced_circuit(old_e, e, i as int, id@); }
        } else {
            assert(circuits(old_e) =~= circuits(self.entries@));
        }
    }

    /// Whether a registered provider's circuit lets a call through (an
    /// unregistered provider is let through); see `CircuitBreaker::is_allowed`.
    pub fn is_allowed(&mut self, id: &str) -> (b: bool)
        ensures
            !old(self)@.contains_key(id@) ==> b && final(self)@ == old(self)@,
            old(self)@.contains_key(id@) ==> exists|timed_out: bool|
                b == call_allowed(old(self)@[id@], timed_out)
                && final(self)@ == old(self)@.insert(id@, after_check(old(self)@[id@], timed_out)),
    {
        proof { use_type_invariant(&*self); }
        let ghost old_e = self.entries@;
        if let Some(i) = self.find(id) {
            proof { lemma_index_of(old_e, id@, i as int); }
            let mut entries: Vec<(String, CircuitBreaker)> = Vec::new();
            std::mem::swap(&mut entries, &mut self.entries);
            let (name, mut cb) = entries.remove(i);
            let ghost before = cb@;
            let b = cb.is_allowed();
            let ghost after = cb@;
            entries.insert(i, (name, cb));
            let ghost e = entries@;
            assert forall|a: int| 0 <= a < e.len() && a != i implies #[trigger] e[a] == old_e[a] by {}
            assert(e[i as int].0@ == old_e[i as int].0@);
            assert forall|a: int, b: int| 0 <= a < e.len() && 0 <= b < e.len() && a != b implies #[trigger] e[a].0@ != #[trigger] e[b].0@ by {
                assert(e[a].0@ == old_e[a].0@ && e[b].0@ == old_e[b].0@);
            }
            self.entries = entries;
            proof {
                lemma_replaced_circuit(old_e, e, i as int, id@);
                assert(before == old_e[i as int].1@);
                assert(circuits(old_e)[id@] == before);
                let t = choose|t: bool| b == call_allowed(before, t) && after == after_check(before, t);
                assert(e[i as int].1@ == after);
                assert(b == call_allowed(old(self)@[id@], t)
                    && self@ == old(self)@.insert(id@, after_check(old(self)@[id@], t)));
            }
            b
        } else {
            assert(circuits(old_e) =~= circuits(self.entries@));
            true
        }
    }
}

/// Replacing the breaker of the entry at `i` (keeping its ID) changes the
/// circuits at that ID only.
proof fn lemma_replaced_circuit(old_e: Seq<(String, CircuitBreaker)>, e: Seq<(String, CircuitBreaker)>, i: int, id: Seq<char>)
    requires
        distinct_ids(old_e),
        distinct_ids(e),
        e.len() == old_e.len(),
        0 <= i < e.len(),
        old_e[i].0@ == id,
        e[i].0@ == id,
        forall|a: int| 0 <= a < e.len() && a != i ==> #[trigger] e[a] == old_e[a],
    ensures
        circuits(e) == circuits(old_e).insert(id, e[i].1@),
{
    lemma_index_of(old_e, id, i);
    lemma_index_of(e, id, i);
    assert forall|k: Seq<char>| #![auto] has_id(e, k) <==> has_id(old_e, k) by {
        if has_id(e, k) {
            let j = choose|j: int| 0 <= j < e.len() && #[trigger] e[j].0@ == k;
            if j != i { assert(old_e[j] == e[j]); }
        }
        if has_id(old_e, k) {
            let j = choose|j: int| 0 <= j < old_e.len() && #[trigger] old_e[j].0@ == k;
            if j != i { assert(old_e[j] == e[j]); }
        }
    }
    assert forall|k: Seq<char>| k != id && #[trigger] circuits(e).contains_key(k) implies circuits(e)[k] == circuits(old_e)[k] by {
        let j = index_of(e, k);
        assert(e[j].0@ == k);
        assert(j != i);
        assert(e[j] == old_e[j]);
        lemma_index_of(old_e, k, j);
    }
    assert(circuits(e) =~= circuits(old_e).insert(id, e[i].1@));
}

} // verus!
