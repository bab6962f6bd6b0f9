use vstd::prelude::*;
use crate::state::{
    best_bid_ask_applied, book_applied, last_trade_applied, price_change_applied, TokenMarketState,
};
use crate::metrics::{sum_of, Latency, LatencyMetrics, SignalCounts, SignalMetrics, MAX_LATENCY_NANOS};
use crate::signals::MarketSignal;
use crate::ws_types::{BestBidAsk, LastTradePrice, OrderBookSnapshot, PriceChange, TickSizeChange};

verus! {

/// Which kinds of market channel events the engine takes up, as named by their
/// `event_type` field.
#[derive(Debug, Clone, Copy, PartialEq, Eq, Structural)]
pub enum MarketEventKind {
    Book,
    PriceChange,
    LastTradePrice,
    BestBidAsk,
    TickSizeChange,
}

/// The kind named by an `event_type`, or `None` for a kind the engine ignores.
pub open spec fn event_kind_of(event_type: Seq<char>) -> Option<MarketEventKind> {
    if event_type == "book"@ {
        Some(MarketEventKind::Book)
    } else if event_type == "price_change"@ {
        Some(MarketEventKind::PriceChange)
    } else if event_type == "last_trade_price"@ {
        Some(MarketEventKind::LastTradePrice)
    } else if event_type == "best_bid_ask"@ {
        Some(MarketEventKind::BestBidAsk)
    } else if event_type == "tick_size_change"@ {
        Some(MarketEventKind::TickSizeChange)
    } else {
        None
    }
}

/// The kind of event that an `event_type` names, if the engine takes it up.
pub fn market_event_kind(event_type: &str) -> (k: Option<MarketEventKind>)
    ensures
        k == event_kind_of(event_type@),
{
    let t = event_type.to_owned();
    if t == "book".to_owned() {
        Some(MarketEventKind::Book)
    } else if t == "price_change".to_owned() {
        Some(MarketEventKind::PriceChange)
    } else if t == "last_trade_price".to_owned() {
        Some(MarketEventKind::LastTradePrice)
    } else if t == "best_bid_ask".to_owned() {
        Some(MarketEventKind::BestBidAsk)
    } else if t == "tick_size_change".to_owned() {
        Some(MarketEventKind::TickSizeChange)
    } else {
        None
    }
}

/// A market channel event, read into its own type.
#[derive(Debug)]
pub enum MarketEvent {
    Book(OrderBookSnapshot),
    PriceChange(PriceChange),
    LastTradePrice(LastTradePrice),
    BestBidAsk(BestBidAsk),
    TickSizeChange(TickSizeChange),
}

impl MarketEvent {
    /// The kind of the event.
    pub open spec fn kind(self) -> MarketEventKind {
        match self {
            MarketEvent::Book(_) => MarketEventKind::Book,
            MarketEvent::PriceChange(_) => MarketEventKind::PriceChange,
            MarketEvent::LastTradePrice(_) => MarketEventKind::LastTradePrice,
            MarketEvent::BestBidAsk(_) => MarketEventKind::BestBidAsk,
            MarketEvent::TickSizeChange(_) => MarketEventKind::TickSizeChange,
        }
    }
}

/// `new` is `old` after the event: each kind as its own update says; a tick size change
/// leaves the state as it was.
pub open spec fn event_applied<R, S>(
    old: TokenMarketState,
    new: TokenMarketState,
    event: MarketEvent,
    price_rank: R,
    spread_of: S,
) -> bool
    where
        R: Fn(&String) -> Option<i64>,
        S: Fn(&String, &String) -> Option<String>,
{
    match event {
        MarketEvent::Book(book) => book_applied(old, new, book, price_rank, spread_of),
        MarketEvent::PriceChange(batch) => price_change_applied(old, new, batch, spread_of),
        MarketEvent::LastTradePrice(trade) => last_trade_applied(old, new, trade),
        MarketEvent::BestBidAsk(report) => best_bid_ask_applied(old, new, report),
        MarketEvent::TickSizeChange(_) => new == old,
    }
}

impl TokenMarketState {
    /// Takes one market channel event into the state.
    pub fn apply_event<R, S>(&mut self, event: &MarketEvent, price_rank: &R, spread_of: &S)
        where
            R: Fn(&String) -> Option<i64>,
            S: Fn(&String, &String) -> Option<String>,
        requires
            forall|p: &String| price_rank.requires((p,)),
            forall|b: &String, a: &String| spread_of.requires((b, a)),
        ensures
            event_applied(*old(self), *final(self), *event, *price_rank, *spread_of),
            *event matches MarketEvent::Book(book) ==> book_applied(*old(self), *final(self), book, *price_rank, *spread_of),
            *event matches MarketEvent::PriceChange(batch) ==> price_change_applied(*old(self), *final(self), batch, *spread_of),
            *event matches MarketEvent::LastTradePrice(trade) ==> last_trade_applied(*old(self), *final(self), trade),
            *event matches MarketEvent::BestBidAsk(report) ==> best_bid_ask_applied(*old(self), *final(self), report),
            *event is TickSizeChange ==> *final(self) == *old(self),
    {
        match event {
            MarketEvent::Book(book) => self.apply_book_snapshot(book, price_rank, spread_of),
            MarketEvent::PriceChange(batch) => self.apply_price_change(batch, spread_of),
            MarketEvent::LastTradePrice(trade) => self.apply_last_trade_price(trade),
            MarketEvent::BestBidAsk(report) => self.apply_best_bid_ask(report),
            MarketEvent::TickSizeChange(_) => {},
        }
    }
}

/// Each kind of event updates the state exactly as that kind's own update does: a book as
/// a full book, a batch as price level changes, a trade as a trade, a report as a best bid
/// and ask report; a tick size change leaves the state as it was.
pub proof fn lemma_event_is_its_kinds_update<R, S>(
    old: TokenMarketState,
    new: TokenMarketState,
    event: MarketEvent,
    price_rank: R,
    spread_of: S,
)
    where
        R: Fn(&String) -> Option<i64>,
        S: Fn(&String, &String) -> Option<String>,
    requires
        event_applied(old, new, event, price_rank, spread_of),
    ensures
        event matches MarketEvent::Book(book) ==> book_applied(old, new, book, price_rank, spread_of),
        event matches MarketEvent::PriceChange(batch) ==> price_change_applied(old, new, batch, spread_of),
        event matches MarketEvent::LastTradePrice(trade) ==> last_trade_applied(old, new, trade),
        event matches MarketEvent::BestBidAsk(report) ==> best_bid_ask_applied(old, new, report),
        event is TickSizeChange ==> new == old,
{
}

/// No event changes which token a state follows.
pub proof fn lemma_events_keep_token<R, S>(
    old: TokenMarketState,
    new: TokenMarketState,
    event: MarketEvent,
    price_rank: R,
    spread_of: S,
)
    where
        R: Fn(&String) -> Option<i64>,
        S: Fn(&String, &String) -> Option<String>,
    requires
        event_applied(old, new, event, price_rank, spread_of),
    ensures
        new.token_id == old.token_id,
{
}

/// How many handled messages pass between two metrics summaries.
pub const REPORT_INTERVAL: u64 = 10;

/// The counts after the signals, counted in order.
pub open spec fn counts_after(counts: SignalCounts, signals: Seq<MarketSignal>) -> SignalCounts
    decreases signals.len(),
{
    if signals.len() == 0 {
        counts
    } else {
        counts_after(counts, signals.drop_last()).count(signals.last())
    }
}

/// Counting signals adds their number to the total.
pub proof fn lemma_counts_after_total(counts: SignalCounts, signals: Seq<MarketSignal>)
    ensures
        counts_after(counts, signals).total == counts.total + signals.len(),
    decreases signals.len(),
{
    if signals.len() > 0 {
        lemma_counts_after_total(counts, signals.drop_last());
    }
}

/// Counts the signals that one handled message raised.
pub fn count_signals(metrics: &mut SignalMetrics, signals: &Vec<MarketSignal>)
    requires
        old(metrics)@.total + signals@.len() <= u64::MAX,
    ensures
        final(metrics)@ == counts_after(old(metrics)@, signals@),
{
    let ghost start = metrics@;
    let mut i: usize = 0;
    while i < signals.len()
        invariant
            i <= signals@.len(),
            start.total + signals@.len() <= u64::MAX,
            metrics@ == counts_after(start, signals@.take(i as int)),
        decreases signals@.len() - i,
    {
        proof {
            lemma_counts_after_total(start, signals@.take(i as int));
            assert(signals@.take(i + 1).drop_last() =~= signals@.take(i as int));
            assert(signals@.take(i + 1).last() == signals@[i as int]);
        }
        metrics.record(&signals[i]);
        i = i + 1;
    }
    proof {
        assert(signals@.take(signals@.len() as int) =~= signals@);
    }
}

/// Records the processing latency of one handled message, and says whether a metrics
/// summary is due: after every `REPORT_INTERVAL` handled messages.
pub fn record_processing(metrics: &mut LatencyMetrics, latency: Latency) -> (report_due: bool)
    requires
        old(metrics).wf(),
        old(metrics)@.len() < u64::MAX,
        sum_of(old(metrics)@) + latency@ <= MAX_LATENCY_NANOS,
    ensures
        final(metrics).wf(),
        final(metrics)@ == old(metrics)@.push(latency@),
        report_due == (final(metrics)@.len() % (REPORT_INTERVAL as nat) == 0),
{
    metrics.record(latency);
    metrics.should_report(REPORT_INTERVAL)
}

} // verus!
