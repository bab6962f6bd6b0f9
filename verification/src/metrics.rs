use vstd::prelude::*;
use crate::signals::MarketSignal;

verus! {

/// Nanoseconds in the longest span a `Latency` can hold: as many whole seconds as a
/// `u64` counts, and 999_999_999 nanoseconds.
pub const MAX_LATENCY_NANOS: u128 = 18_446_744_073_709_551_615_999_999_999;

/// Nanoseconds in a second.
pub const NANOS_PER_SEC: u128 = 1_000_000_000;

/// A span of time, to the nanosecond.
#[derive(Debug, Clone, Copy, PartialEq, Eq, Structural)]
pub struct Latency {
    nanos: u128,
}

impl View for Latency {
    type V = u128;

    /// The span in nanoseconds.
    closed spec fn view(&self) -> u128 {
        self.nanos
    }
}

impl Latency {
    #[verifier::type_invariant]
    spec fn within_range(self) -> bool {
        self.nanos <= MAX_LATENCY_NANOS
    }

    /// The empty span.
    pub fn zero() -> (l: Latency)
        ensures
            l@ == 0,
    {
        Latency { nanos: 0 }
    }

    /// A span of `nanos` nanoseconds.
    pub fn from_nanos(nanos: u64) -> (l: Latency)
        ensures
            l@ == nanos,
    {
        Latency { nanos: nanos as u128 }
    }

    /// A span of `micros` microseconds.
    pub fn from_micros(micros: u64) -> (l: Latency)
        ensures
            l@ == micros * 1000,
    {
        assert(micros * 1000 <= MAX_LATENCY_NANOS) by (nonlinear_arith)
            requires
                micros <= u64::MAX,
        ;
        Latency { nanos: (micros as u128) * 1000 }
    }

    /// A span of `millis` milliseconds.
    pub fn from_millis(millis: u64) -> (l: Latency)
        ensures
            l@ == millis * 1_000_000,
    {
        assert(millis * 1_000_000 <= MAX_LATENCY_NANOS) by (nonlinear_arith)
            requires
                millis <= u64::MAX,
        ;
        Latency { nanos: (millis as u128) * 1_000_000 }
    }

    /// A span of `secs` whole seconds and `nanos` nanoseconds; `nanos` may exceed a second.
    pub fn new(secs: u64, nanos: u32) -> (l: Latency)
        requires
            secs * NANOS_PER_SEC + nanos <= MAX_LATENCY_NANOS,
        ensures
            l@ == secs * NANOS_PER_SEC + nanos,
    {
        Latency { nanos: (secs as u128) * NANOS_PER_SEC + (nanos as u128) }
    }

    /// The span in nanoseconds.
    pub fn as_nanos(&self) -> (n: u128)
        ensures
            n == self@,
            n <= MAX_LATENCY_NANOS,
    {
        proof {
            use_type_invariant(self);
        }
        self.nanos
    }

    /// The whole seconds of the span.
    pub fn as_secs(&self) -> (s: u64)
        ensures
            s == self@ / NANOS_PER_SEC,
    {
        proof {
            use_type_invariant(self);
        }
        (self.nanos / NANOS_PER_SEC) as u64
    }

    /// The nanoseconds of the span beyond its whole seconds.
    pub fn subsec_nanos(&self) -> (n: u32)
        ensures
            n == self@ % NANOS_PER_SEC,
    {
        (self.nanos % NANOS_PER_SEC) as u32
    }
}

/// The sum of a sequence of spans, in nanoseconds.
pub open spec fn sum_of(s: Seq<u128>) -> nat
    decreases s.len(),
{
    if s.len() == 0 {
        0
    } else {
        sum_of(s.drop_last()) + s.last() as nat
    }
}

/// `v` is the least element of `s`.
pub open spec fn is_least(s: Seq<u128>, v: u128) -> bool {
    &&& s.contains(v)
    &&& forall|j: int| 0 <= j < s.len() ==> v <= s[j]
}

/// `v` is the greatest element of `s`.
pub open spec fn is_greatest(s: Seq<u128>, v: u128) -> bool {
    &&& s.contains(v)
    &&& forall|j: int| 0 <= j < s.len() ==> s[j] <= v
}

/// `t` is in ascending order.
pub open spec fn ascending(t: Seq<u128>) -> bool {
    forall|i: int, j: int| 0 <= i <= j < t.len() ==> t[i] <= t[j]
}

/// The mean of the spans, in whole nanoseconds, cut to the low 64 bits as the
/// nanosecond count of a `u64`; nothing for no spans.
pub open spec fn mean_nanos(s: Seq<u128>) -> u64 {
    if s.len() == 0 {
        0
    } else {
        (sum_of(s) / s.len()) as u64
    }
}

/// Processing latencies of handled messages: how many, their total, least and greatest,
/// and each of them in the order recorded.
pub struct LatencyMetrics {
    message_count: u64,
    total_latency: Latency,
    min_latency: Option<Latency>,
    max_latency: Option<Latency>,
    latencies: Vec<u128>,
}

impl View for LatencyMetrics {
    type V = Seq<u128>;

    /// The recorded latencies in nanoseconds, oldest first.
    closed spec fn view(&self) -> Seq<u128> {
        self.latencies@
    }
}

impl LatencyMetrics {
    /// The counters agree with the recorded latencies.
    pub closed spec fn wf(self) -> bool {
        &&& self.message_count == self.latencies@.len()
        &&& self.total_latency@ == sum_of(self.latencies@)
        &&& sum_of(self.latencies@) <= MAX_LATENCY_NANOS
        &&& match self.min_latency {
            Some(m) => self.latencies@.len() > 0 && is_least(self.latencies@, m@),
            None => self.latencies@.len() == 0,
        }
        &&& match self.max_latency {
            Some(m) => self.latencies@.len() > 0 && is_greatest(self.latencies@, m@),
            None => self.latencies@.len() == 0,
        }
    }

    /// Metrics with nothing recorded.
    pub fn new() -> (m: Self)
        ensures
            m.wf(),
            m@ == Seq::<u128>::empty(),
    {
        LatencyMetrics {
            message_count: 0,
            total_latency: Latency::zero(),
            min_latency: None,
            max_latency: None,
            latencies: Vec::new(),
        }
    }

    /// Adds the latency of one more message.
    pub fn record(&mut self, latency: Latency)
        requires
            old(self).wf(),
            old(self)@.len() < u64::MAX,
            sum_of(old(self)@) + latency@ <= MAX_LATENCY_NANOS,
        ensures
            final(self).wf(),
            final(self)@ == old(self)@.push(latency@),
    {
        let ghost before = self.latencies@;
        let nanos = latency.as_nanos();
        let total = self.total_latency.as_nanos() + nanos;
        self.message_count = self.message_count + 1;
        self.total_latency = Latency { nanos: total };
        self.latencies.push(nanos);
        let new_min = match self.min_latency {
            Some(current) => if nanos < current.as_nanos() { latency } else { current },
            None => latency,
        };
        let new_max = match self.max_latency {
            Some(current) => if current.as_nanos() < nanos { latency } else { current },
            None => latency,
        };
        self.min_latency = Some(new_min);
        self.max_latency = Some(new_max);
        proof {
            let after = self.latencies@;
            assert(after.drop_last() =~= before);
            assert(after.contains(nanos)) by {
                assert(after[after.len() - 1] == nanos);
            }
            assert forall|v: u128| before.contains(v) implies after.contains(v) by {
                let j = choose|j: int| 0 <= j < before.len() && before[j] == v;
                assert(after[j] == v);
            }
        }
    }

    /// How many latencies have been recorded.
    pub fn message_count(&self) -> (n: u64)
        requires
            self.wf(),
        ensures
            n == self@.len(),
    {
        self.message_count
    }

    /// Whether a summary is due: some message has been recorded and their number is a
    /// multiple of `interval`.
    pub fn should_report(&self, interval: u64) -> (r: bool)
        requires
            self.wf(),
            self@.len() == 0 || interval > 0,
        ensures
            r == (self@.len() > 0 && self@.len() % (interval as nat) == 0),
    {
        self.message_count > 0 && self.message_count % interval == 0
    }

    /// The mean latency, in whole nanoseconds cut to a `u64` count; zero before any record.
    pub fn average_latency(&self) -> (l: Latency)
        requires
            self.wf(),
        ensures
            l@ == mean_nanos(self@),
            self@.len() == 0 ==> l@ == 0,
            self@.len() > 0 && sum_of(self@) < (u64::MAX + 1) * self@.len() ==> {
                &&& l@ * self@.len() <= sum_of(self@)
                &&& sum_of(self@) < (l@ + 1) * self@.len()
            },
    {
        proof {
            if self@.len() > 0 && sum_of(self@) < (u64::MAX + 1) * self@.len() {
                lemma_mean_is_total_over_count(self@);
            }
        }
        if self.message_count == 0 {
            return Latency::zero();
        }
        Latency::from_nanos((self.total_latency.as_nanos() / (self.message_count as u128)) as u64)
    }

    /// The latency at place `index` of the recorded latencies in ascending order; zero
    /// before any record. (Percentiles pick their place from the number of records.)
    pub fn latency_at_rank(&self, index: usize) -> (l: Latency)
        requires
            self.wf(),
            self@.len() == 0 || index < self@.len(),
        ensures
            self@.len() == 0 ==> l@ == 0,
            self@.len() > 0 ==> exists|sorted: Seq<u128>| {
                &&& sorted.to_multiset() == self@.to_multiset()
                &&& ascending(sorted)
                &&& l@ == sorted[index as int]
            },
    {
        if self.latencies.len() == 0 {
            return Latency::zero();
        }
        let mut sorted: Vec<u128> = Vec::new();
        let mut i: usize = 0;
        while i < self.latencies.len()
            invariant
                i <= self.latencies@.len(),
                sorted@ == self.latencies@.take(i as int),
            decreases self.latencies@.len() - i,
        {
            sorted.push(self.latencies[i]);
            proof {
                assert(self.latencies@.take(i + 1) =~= self.latencies@.take(i as int).push(self.latencies@[i as int]));
            }
            i = i + 1;
        }
        proof {
            assert(self.latencies@.take(self.latencies@.len() as int) =~= self.latencies@);
        }
        let ghost unsorted = sorted@;
        sort_ascending(&mut sorted);
        proof {
            vstd::seq_lib::to_multiset_len(unsorted);
            vstd::seq_lib::to_multiset_len(sorted@);
        }
        let v = sorted[index];
        proof {
            assert(sorted@[index as int] == v);
            lemma_element_bounded_by_sum(self.latencies@, v, sorted@);
        }
        Latency { nanos: v }
    }

    /// The sum of the recorded latencies.
    pub fn total_latency(&self) -> (t: Latency)
        requires
            self.wf(),
        ensures
            t@ == sum_of(self@),
    {
        self.total_latency
    }

    /// The least recorded latency, if any.
    pub fn min_latency(&self) -> (m: Option<Latency>)
        requires
            self.wf(),
        ensures
            m is None <==> self@.len() == 0,
            m matches Some(l) ==> is_least(self@, l@),
    {
        self.min_latency
    }

    /// The greatest recorded latency, if any.
    pub fn max_latency(&self) -> (m: Option<Latency>)
        requires
            self.wf(),
        ensures
            m is None <==> self@.len() == 0,
            m matches Some(l) ==> is_greatest(self@, l@),
    {
        self.max_latency
    }
}

impl Default for LatencyMetrics {
    /// Metrics with nothing recorded.
    fn default() -> (m: Self)
        ensures
            m.wf(),
            m@ == Seq::<u128>::empty(),
    {
        LatencyMetrics::new()
    }
}

/// How many signals have been emitted, in all and by kind. Price moves up and down
/// share one count.
pub struct SignalCounts {
    pub total: nat,
    pub tight_spread: nat,
    pub spread_tightened: nat,
    pub price_move: nat,
    pub large_trade: nat,
}

impl SignalCounts {
    /// The counts after one more signal: the total and the signal's own kind go up by one.
    pub open spec fn count(self, signal: MarketSignal) -> SignalCounts {
        match signal {
            MarketSignal::TightSpread { .. } => SignalCounts { total: self.total + 1, tight_spread: self.tight_spread + 1, ..self },
            MarketSignal::SpreadTightened { .. } => SignalCounts {
                total: self.total + 1,
                spread_tightened: self.spread_tightened + 1,
                ..self
            },
            MarketSignal::PriceMoveUp { .. } => SignalCounts { total: self.total + 1, price_move: self.price_move + 1, ..self },
            MarketSignal::PriceMoveDown { .. } => SignalCounts { total: self.total + 1, price_move: self.price_move + 1, ..self },
            MarketSignal::LargeTrade { .. } => SignalCounts { total: self.total + 1, large_trade: self.large_trade + 1, ..self },
        }
    }
}

/// Counts of emitted signals.
pub struct SignalMetrics {
    total: u64,
    tight_spread: u64,
    spread_tightened: u64,
    price_move: u64,
    large_trade: u64,
}

impl View for SignalMetrics {
    type V = SignalCounts;

    closed spec fn view(&self) -> SignalCounts {
        SignalCounts {
            total: self.total as nat,
            tight_spread: self.tight_spread as nat,
            spread_tightened: self.spread_tightened as nat,
            price_move: self.price_move as nat,
            large_trade: self.large_trade as nat,
        }
    }
}

impl SignalMetrics {
    /// Every signal is of exactly one kind: the total is the sum of the kinds' counts.
    #[verifier::type_invariant]
    spec fn total_is_sum(self) -> bool {
        self.total == self.tight_spread + self.spread_tightened + self.price_move + self.large_trade
    }

    /// No signal counted yet.
    pub fn new() -> (m: Self)
        ensures
            m@ == (SignalCounts { total: 0, tight_spread: 0, spread_tightened: 0, price_move: 0, large_trade: 0 }),
    {
        SignalMetrics { total: 0, tight_spread: 0, spread_tightened: 0, price_move: 0, large_trade: 0 }
    }

    /// Counts one more signal.
    pub fn record(&mut self, signal: &MarketSignal)
        requires
            old(self)@.total < u64::MAX,
        ensures
            final(self)@ == old(self)@.count(*signal),
            final(self)@.total == old(self)@.total + 1,
            final(self)@.tight_spread == old(self)@.tight_spread + if *signal is TightSpread { 1nat } else { 0nat },
            final(self)@.spread_tightened == old(self)@.spread_tightened + if *signal is SpreadTightened { 1nat } else { 0nat },
            final(self)@.price_move == old(self)@.price_move + if *signal is PriceMoveUp || *signal is PriceMoveDown { 1nat } else { 0nat },
            final(self)@.large_trade == old(self)@.large_trade + if *signal is LargeTrade { 1nat } else { 0nat },
    {
        proof {
            lemma_count_raises_own_kind(old(self)@, *signal);
        }
        proof {
            use_type_invariant(&*self);
        }
        let total = self.total + 1;
        match signal {
            MarketSignal::TightSpread { .. } => {
                *self = SignalMetrics { total, tight_spread: self.tight_spread + 1, ..*self };
            },
            MarketSignal::SpreadTightened { .. } => {
                *self = SignalMetrics { total, spread_tightened: self.spread_tightened + 1, ..*self };
            },
            MarketSignal::PriceMoveUp { .. } | MarketSignal::PriceMoveDown { .. } => {
                *self = SignalMetrics { total, price_move: self.price_move + 1, ..*self };
            },
            MarketSignal::LargeTrade { .. } => {
                *self = SignalMetrics { total, large_trade: self.large_trade + 1, ..*self };
            },
        }
    }

    /// How many signals have been counted; always the sum of the counts by kind.
    pub fn total(&self) -> (n: u64)
        ensures
            n == self@.total,
            self@.total == self@.tight_spread + self@.spread_tightened + self@.price_move + self@.large_trade,
    {
        proof {
            use_type_invariant(self);
        }
        self.total
    }

    /// How many tight-spread signals have been counted.
    pub fn tight_spread(&self) -> (n: u64)
        ensures
            n == self@.tight_spread,
    {
        self.tight_spread
    }

    /// How many spread-tightened signals have been counted.
    pub fn spread_tightened(&self) -> (n: u64)
        ensures
            n == self@.spread_tightened,
    {
        self.spread_tightened
    }

    /// How many price moves, up or down, have been counted.
    pub fn price_move(&self) -> (n: u64)
        ensures
            n == self@.price_move,
    {
        self.price_move
    }

    /// How many large-trade signals have been counted.
    pub fn large_trade(&self) -> (n: u64)
        ensures
            n == self@.large_trade,
    {
        self.large_trade
    }
}

impl Default for SignalMetrics {
    /// No signal counted yet.
    fn default() -> (m: Self)
        ensures
            m@ == (SignalCounts { total: 0, tight_spread: 0, spread_tightened: 0, price_move: 0, large_trade: 0 }),
    {
        SignalMetrics::new()
    }
}

/// The mean is the total divided by the count, rounded down: `mean * count <= total <
/// (mean + 1) * count`, wherever the quotient fits a `u64` count of nanoseconds.
pub proof fn lemma_mean_is_total_over_count(s: Seq<u128>)
    requires
        s.len() > 0,
        sum_of(s) < (u64::MAX + 1) * s.len(),
    ensures
        mean_nanos(s) * s.len() <= sum_of(s),
        sum_of(s) < (mean_nanos(s) + 1) * s.len(),
{
    let n = s.len() as int;
    let total = sum_of(s) as int;
    let q = total / n;
    vstd::arithmetic::div_mod::lemma_fundamental_div_mod(total, n);
    assert(0 <= total % n < n) by {
        vstd::arithmetic::div_mod::lemma_mod_pos_bound(total, n);
    }
    assert(q < u64::MAX + 1) by (nonlinear_arith)
        requires
            total == n * q + total % n,
            0 <= total % n,
            total < (u64::MAX + 1) * n,
            n > 0,
    ;
    assert(q >= 0) by (nonlinear_arith)
        requires
            total == n * q + total % n,
            total % n < n,
            total >= 0,
            n > 0,
    ;
    assert(q * n <= total && total < (q + 1) * n) by (nonlinear_arith)
        requires
            total == n * q + total % n,
            0 <= total % n < n,
    ;
}

/// Counting a signal raises the total and the count of the signal's own kind by one
/// (price moves up and down share a count) and leaves every other kind's count as it was.
pub proof fn lemma_count_raises_own_kind(c: SignalCounts, signal: MarketSignal)
    ensures
        c.count(signal).total == c.total + 1,
        c.count(signal).tight_spread == c.tight_spread + if signal is TightSpread { 1nat } else { 0nat },
        c.count(signal).spread_tightened == c.spread_tightened + if signal is SpreadTightened { 1nat } else { 0nat },
        c.count(signal).price_move == c.price_move + if signal is PriceMoveUp || signal is PriceMoveDown { 1nat } else { 0nat },
        c.count(signal).large_trade == c.large_trade + if signal is LargeTrade { 1nat } else { 0nat },
{
}

/// `n` times the least element of a sequence is at most its sum, and its sum at most `n`
/// times its greatest element, for `n` its length.
pub proof fn lemma_sum_between_bounds(s: Seq<u128>, lo: u128, hi: u128)
    requires
        forall|j: int| 0 <= j < s.len() ==> lo <= #[trigger] s[j] <= hi,
    ensures
        s.len() * lo <= sum_of(s) <= s.len() * hi,
    decreases s.len(),
{
    if s.len() > 0 {
        lemma_sum_between_bounds(s.drop_last(), lo, hi);
        assert(s.len() * lo == (s.len() - 1) * lo + lo) by (nonlinear_arith);
        assert(s.len() * hi == (s.len() - 1) * hi + hi) by (nonlinear_arith);
    }
}

/// The mean latency lies between the least and the greatest recorded latency, where no
/// latency is longer than a `u64` count of nanoseconds (beyond that the mean is cut to
/// 64 bits).
pub proof fn lemma_mean_between_least_and_greatest(s: Seq<u128>, lo: u128, hi: u128)
    requires
        s.len() > 0,
        is_least(s, lo),
        is_greatest(s, hi),
        hi <= u64::MAX,
    ensures
        lo <= mean_nanos(s) <= hi,
{
    lemma_sum_between_bounds(s, lo, hi);
    let n = s.len();
    let total = sum_of(s);
    assert(lo <= total / n <= hi) by (nonlinear_arith)
        requires
            n > 0,
            n * lo <= total <= n * hi,
    {
        vstd::arithmetic::div_mod::lemma_div_is_ordered(n * lo, total as int, n as int);
        vstd::arithmetic::div_mod::lemma_div_is_ordered(total as int, n * hi, n as int);
        vstd::arithmetic::div_mod::lemma_div_multiples_vanish(lo as int, n as int);
        vstd::arithmetic::div_mod::lemma_div_multiples_vanish(hi as int, n as int);
    }
}

/// In ascending order, the recorded latencies start with the least and end with the
/// greatest: the first and last ranks are the least and greatest latency.
pub proof fn lemma_extreme_ranks_are_least_and_greatest(s: Seq<u128>, sorted: Seq<u128>)
    requires
        s.len() > 0,
        sorted.to_multiset() == s.to_multiset(),
        ascending(sorted),
    ensures
        is_least(s, sorted[0]),
        is_greatest(s, sorted[sorted.len() - 1]),
{
    vstd::seq_lib::to_multiset_len(s);
    vstd::seq_lib::to_multiset_len(sorted);
    vstd::seq_lib::to_multiset_contains(sorted, sorted[0]);
    vstd::seq_lib::to_multiset_contains(s, sorted[0]);
    assert(sorted.contains(sorted[0]));
    vstd::seq_lib::to_multiset_contains(sorted, sorted[sorted.len() - 1]);
    vstd::seq_lib::to_multiset_contains(s, sorted[sorted.len() - 1]);
    assert(sorted.contains(sorted[sorted.len() - 1]));
    assert forall|j: int| 0 <= j < s.len() implies sorted[0] <= s[j] && s[j] <= sorted[sorted.len() - 1] by {
        assert(s.contains(s[j]));
        vstd::seq_lib::to_multiset_contains(s, s[j]);
        vstd::seq_lib::to_multiset_contains(sorted, s[j]);
    }
}

/// Two ascending sequences with the same items are the same sequence.
pub proof fn lemma_ascending_arrangement_unique(a: Seq<u128>, b: Seq<u128>)
    requires
        ascending(a),
        ascending(b),
        a.to_multiset() == b.to_multiset(),
    ensures
        a == b,
    decreases a.len(),
{
    vstd::seq_lib::to_multiset_len(a);
    vstd::seq_lib::to_multiset_len(b);
    if a.len() > 0 {
        let n = a.len() - 1;
        let x = a[n];
        let y = b[n];
        vstd::seq_lib::to_multiset_contains(a, y);
        vstd::seq_lib::to_multiset_contains(b, y);
        vstd::seq_lib::to_multiset_contains(a, x);
        vstd::seq_lib::to_multiset_contains(b, x);
        assert(a.contains(x));
        assert(b.contains(y));
        assert(x == y);
        vstd::seq_lib::to_multiset_remove(a, n);
        vstd::seq_lib::to_multiset_remove(b, n);
        assert(a.remove(n) =~= a.drop_last());
        assert(b.remove(n) =~= b.drop_last());
        lemma_ascending_arrangement_unique(a.drop_last(), b.drop_last());
        assert(a =~= b.drop_last().push(y));
        assert(b =~= b.drop_last().push(y));
    }
}

/// Latencies at higher ranks are no shorter: the ranks of the recorded latencies ascend.
pub proof fn lemma_ranks_ascend(s: Seq<u128>, t1: Seq<u128>, t2: Seq<u128>, i: int, j: int)
    requires
        t1.to_multiset() == s.to_multiset(),
        ascending(t1),
        t2.to_multiset() == s.to_multiset(),
        ascending(t2),
        0 <= i <= j < s.len(),
    ensures
        t1[i] <= t2[j],
{
    lemma_ascending_arrangement_unique(t1, t2);
    vstd::seq_lib::to_multiset_len(s);
    vstd::seq_lib::to_multiset_len(t1);
}

/// A latency is given back whole by its whole seconds and the nanoseconds beyond them.
pub proof fn lemma_seconds_and_nanos_rebuild(nanos: u128)
    requires
        nanos <= MAX_LATENCY_NANOS,
    ensures
        nanos / NANOS_PER_SEC <= u64::MAX,
        nanos % NANOS_PER_SEC < NANOS_PER_SEC,
        (nanos / NANOS_PER_SEC) * NANOS_PER_SEC + nanos % NANOS_PER_SEC == nanos,
{
    vstd::arithmetic::div_mod::lemma_fundamental_div_mod(nanos as int, NANOS_PER_SEC as int);
    vstd::arithmetic::div_mod::lemma_div_is_ordered(nanos as int, MAX_LATENCY_NANOS as int, NANOS_PER_SEC as int);
}

/// Each element of a sequence is at most its sum; so is each element of a sequence with
/// the same items.
pub proof fn lemma_element_bounded_by_sum(s: Seq<u128>, v: u128, t: Seq<u128>)
    requires
        t.to_multiset() == s.to_multiset(),
        t.contains(v),
    ensures
        v <= sum_of(s),
    decreases s.len(),
{
    vstd::seq_lib::to_multiset_contains(t, v);
    vstd::seq_lib::to_multiset_contains(s, v);
    lemma_contained_bounded_by_sum(s, v);
}

/// An element of a sequence is at most the sequence's sum.
pub proof fn lemma_contained_bounded_by_sum(s: Seq<u128>, v: u128)
    requires
        s.contains(v),
    ensures
        v <= sum_of(s),
    decreases s.len(),
{
    if s.last() != v {
        let j = choose|j: int| 0 <= j < s.len() && s[j] == v;
        assert(s.drop_last()[j] == v);
        lemma_contained_bounded_by_sum(s.drop_last(), v);
    }
}

/// Calls `slice::sort` on a vector of integers. Claims what its documentation states:
/// afterwards the vector holds the same items, in ascending order.
#[verifier::external_body]
fn sort_ascending(v: &mut Vec<u128>)
    ensures
        final(v)@.to_multiset() == old(v)@.to_multiset(),
        ascending(final(v)@),
{
    v.sort();
}

} // verus!
