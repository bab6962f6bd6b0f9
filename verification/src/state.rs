use vstd::prelude::*;
use crate::ws_types::{BestBidAsk, BookLevel, LastTradePrice, OrderBookSnapshot, PriceChange, PriceLevelChange};

verus! {

/// The local view of one token's market, kept up to date from market channel messages.
///
/// Prices stay in the text form in which they arrive. Where a rule needs their numeric
/// value (to pick the best level of a book, or to work out a spread), the caller hands in
/// the numeric step as a function: `price_rank` gives a price text a key that orders
/// prices as their parsed values are totally ordered (`None` where the text is no
/// number), and `spread_of` gives the spread text of a bid and an ask text (`None` where
/// either is no number).
#[derive(Debug, Clone)]
pub struct TokenMarketState {
    pub token_id: String,
    pub market_id: Option<String>,
    pub best_bid: Option<String>,
    pub best_ask: Option<String>,
    pub spread: Option<String>,
    pub last_trade_price: Option<String>,
    pub last_trade_size: Option<String>,
    pub last_trade_side: Option<String>,
    pub last_update_timestamp: Option<String>,
    pub bid_levels: usize,
    pub ask_levels: usize,
}

/// `keys[j]` is a key that `rank` gave the price of `levels[j]`, for every level.
pub open spec fn ranked_by<R: Fn(&String) -> Option<i64>>(
    levels: Seq<BookLevel>,
    keys: Seq<Option<i64>>,
    rank: R,
) -> bool {
    &&& keys.len() == levels.len()
    &&& forall|j: int| 0 <= j < levels.len() ==> rank.ensures((&levels[j].price,), keys[j])
}

/// No level has a key.
pub open spec fn none_ranked(keys: Seq<Option<i64>>) -> bool {
    forall|j: int| 0 <= j < keys.len() ==> keys[j] is None
}

/// `i` is the best bid among `keys`: a ranked level whose key no other ranked level
/// exceeds, and the last of them where several share the highest key.
pub open spec fn is_best_bid_index(keys: Seq<Option<i64>>, i: int) -> bool {
    &&& 0 <= i < keys.len()
    &&& keys[i] is Some
    &&& forall|j: int| 0 <= j < keys.len() && keys[j] is Some ==> keys[j]->0 <= keys[i]->0
    &&& forall|j: int| i < j < keys.len() && keys[j] is Some ==> keys[j]->0 < keys[i]->0
}

/// `i` is the best ask among `keys`: a ranked level whose key is no greater than any
/// other ranked level's, and the first of them where several share the lowest key.
pub open spec fn is_best_ask_index(keys: Seq<Option<i64>>, i: int) -> bool {
    &&& 0 <= i < keys.len()
    &&& keys[i] is Some
    &&& forall|j: int| 0 <= j < keys.len() && keys[j] is Some ==> keys[i]->0 <= keys[j]->0
    &&& forall|j: int| 0 <= j < i && keys[j] is Some ==> keys[i]->0 < keys[j]->0
}

/// `price` is the price of the best bid level of `levels` under `keys`, or `None` where no level is ranked.
pub open spec fn best_bid_price(levels: Seq<BookLevel>, keys: Seq<Option<i64>>, price: Option<String>) -> bool {
    match price {
        None => none_ranked(keys),
        Some(p) => exists|i: int| is_best_bid_index(keys, i) && p == levels[i].price,
    }
}

/// `price` is the price of the best ask level of `levels` under `keys`, or `None` where no level is ranked.
pub open spec fn best_ask_price(levels: Seq<BookLevel>, keys: Seq<Option<i64>>, price: Option<String>) -> bool {
    match price {
        None => none_ranked(keys),
        Some(p) => exists|i: int| is_best_ask_index(keys, i) && p == levels[i].price,
    }
}

/// `spread` is what `spread_of` gave for the bid and the ask, or `None` where either is missing.
pub open spec fn spread_from<S: Fn(&String, &String) -> Option<String>>(
    bid: Option<String>,
    ask: Option<String>,
    spread: Option<String>,
    spread_of: S,
) -> bool {
    match (bid, ask) {
        (Some(b), Some(a)) => spread_of.ensures((&b, &a), spread),
        _ => spread is None,
    }
}

/// The best bid after a batch of changes: the best bid of the last change for `token` that carries one.
pub open spec fn bid_after_changes(
    changes: Seq<PriceLevelChange>,
    token: Seq<char>,
    bid: Option<String>,
) -> Option<String>
    decreases changes.len(),
{
    if changes.len() == 0 {
        bid
    } else {
        let c = changes.last();
        if c.asset_id@ == token && c.best_bid is Some {
            c.best_bid
        } else {
            bid_after_changes(changes.drop_last(), token, bid)
        }
    }
}

/// The best ask after a batch of changes: the best ask of the last change for `token` that carries one.
pub open spec fn ask_after_changes(
    changes: Seq<PriceLevelChange>,
    token: Seq<char>,
    ask: Option<String>,
) -> Option<String>
    decreases changes.len(),
{
    if changes.len() == 0 {
        ask
    } else {
        let c = changes.last();
        if c.asset_id@ == token && c.best_ask is Some {
            c.best_ask
        } else {
            ask_after_changes(changes.drop_last(), token, ask)
        }
    }
}

/// The change is for `token` and carries a best bid.
pub open spec fn carries_bid_for(c: PriceLevelChange, token: Seq<char>) -> bool {
    c.asset_id@ == token && c.best_bid is Some
}

/// The change is for `token` and carries a best ask.
pub open spec fn carries_ask_for(c: PriceLevelChange, token: Seq<char>) -> bool {
    c.asset_id@ == token && c.best_ask is Some
}

/// Some change of the batch is for `token`.
pub open spec fn has_change_for(changes: Seq<PriceLevelChange>, token: Seq<char>) -> bool {
    exists|j: int| 0 <= j < changes.len() && changes[j].asset_id@ == token
}

/// `new` is `old` after a full book: for the token, the book's market, time and level
/// counts, the best bid and ask that the price keys pick, and their spread; for another
/// asset, `old` unchanged.
pub open spec fn book_applied<R, S>(
    old: TokenMarketState,
    new: TokenMarketState,
    book: OrderBookSnapshot,
    price_rank: R,
    spread_of: S,
) -> bool
    where
        R: Fn(&String) -> Option<i64>,
        S: Fn(&String, &String) -> Option<String>,
{
    if book.asset_id@ != old.token_id@ {
        new == old
    } else {
        &&& new.token_id == old.token_id
        &&& new.market_id == Some(book.market)
        &&& new.last_update_timestamp == Some(book.timestamp)
        &&& new.bid_levels == book.bids@.len()
        &&& new.ask_levels == book.asks@.len()
        &&& new.same_trade(old)
        &&& exists|bid_keys: Seq<Option<i64>>, ask_keys: Seq<Option<i64>>| {
            &&& ranked_by(book.bids@, bid_keys, price_rank)
            &&& ranked_by(book.asks@, ask_keys, price_rank)
            &&& best_bid_price(book.bids@, bid_keys, new.best_bid)
            &&& best_ask_price(book.asks@, ask_keys, new.best_ask)
        }
        &&& spread_from(new.best_bid, new.best_ask, new.spread, spread_of)
    }
}

/// `new` is `old` after a best bid and ask report: for the token, the report's market,
/// quote, spread and time; for another asset, `old` unchanged.
pub open spec fn best_bid_ask_applied(old: TokenMarketState, new: TokenMarketState, report: BestBidAsk) -> bool {
    if report.asset_id@ != old.token_id@ {
        new == old
    } else {
        &&& new.token_id == old.token_id
        &&& new.market_id == Some(report.market)
        &&& new.best_bid == Some(report.best_bid)
        &&& new.best_ask == Some(report.best_ask)
        &&& new.spread == Some(report.spread)
        &&& new.last_update_timestamp == Some(report.timestamp)
        &&& new.bid_levels == old.bid_levels
        &&& new.ask_levels == old.ask_levels
        &&& new.same_trade(old)
    }
}

/// `new` is `old` after a trade: for the token, the trade's market, price, size, side and
/// time; for another asset, `old` unchanged.
pub open spec fn last_trade_applied(old: TokenMarketState, new: TokenMarketState, trade: LastTradePrice) -> bool {
    if trade.asset_id@ != old.token_id@ {
        new == old
    } else {
        &&& new.token_id == old.token_id
        &&& new.market_id == Some(trade.market)
        &&& new.last_trade_price == Some(trade.price)
        &&& new.last_trade_size == Some(trade.size)
        &&& new.last_trade_side == Some(trade.side)
        &&& new.last_update_timestamp == Some(trade.timestamp)
        &&& new.same_book(old)
    }
}

/// `new` is `old` after a batch of price level changes: the batch's market and time
/// whatever assets it is about; the best bid and ask that the token's changes carry; and,
/// where some change is for the token, the spread of the new quote.
pub open spec fn price_change_applied<S>(old: TokenMarketState, new: TokenMarketState, batch: PriceChange, spread_of: S) -> bool
    where
        S: Fn(&String, &String) -> Option<String>,
{
    &&& new.token_id == old.token_id
    &&& new.market_id == Some(batch.market)
    &&& new.last_update_timestamp == Some(batch.timestamp)
    &&& new.best_bid == bid_after_changes(batch.changes@, old.token_id@, old.best_bid)
    &&& new.best_ask == ask_after_changes(batch.changes@, old.token_id@, old.best_ask)
    &&& if has_change_for(batch.changes@, old.token_id@) {
        spread_from(new.best_bid, new.best_ask, new.spread, spread_of)
    } else {
        new.spread == old.spread
    }
    &&& new.bid_levels == old.bid_levels
    &&& new.ask_levels == old.ask_levels
    &&& new.same_trade(old)
}

impl TokenMarketState {
    /// The trade fields are those of `old`.
    pub open spec fn same_trade(self, old: Self) -> bool {
        &&& self.last_trade_price == old.last_trade_price
        &&& self.last_trade_size == old.last_trade_size
        &&& self.last_trade_side == old.last_trade_side
    }

    /// The book fields (quote, spread and level counts) are those of `old`.
    pub open spec fn same_book(self, old: Self) -> bool {
        &&& self.best_bid == old.best_bid
        &&& self.best_ask == old.best_ask
        &&& self.spread == old.spread
        &&& self.bid_levels == old.bid_levels
        &&& self.ask_levels == old.ask_levels
    }

    /// A state for the token, with nothing known of its market yet.
    pub fn new(token_id: &str) -> (s: Self)
        ensures
            s.token_id@ == token_id@,
            s.market_id is None,
            s.best_bid is None,
            s.best_ask is None,
            s.spread is None,
            s.last_trade_price is None,
            s.last_trade_size is None,
            s.last_trade_side is None,
            s.last_update_timestamp is None,
            s.bid_levels == 0,
            s.ask_levels == 0,
    {
        TokenMarketState {
            token_id: token_id.to_owned(),
            market_id: None,
            best_bid: None,
            best_ask: None,
            spread: None,
            last_trade_price: None,
            last_trade_size: None,
            last_trade_side: None,
            last_update_timestamp: None,
            bid_levels: 0,
            ask_levels: 0,
        }
    }

    /// Takes a full book of the token: its level counts, its best bid (highest ranked
    /// price), its best ask (lowest ranked price) and their spread. A book of another
    /// asset leaves the state as it was.
    pub fn apply_book_snapshot<R, S>(&mut self, book: &OrderBookSnapshot, price_rank: &R, spread_of: &S)
        where
            R: Fn(&String) -> Option<i64>,
            S: Fn(&String, &String) -> Option<String>,
        requires
            forall|p: &String| price_rank.requires((p,)),
            forall|b: &String, a: &String| spread_of.requires((b, a)),
        ensures
            book_applied(*old(self), *final(self), *book, *price_rank, *spread_of),
    {
        if !(book.asset_id == self.token_id) {
            return;
        }
        self.market_id = Some(book.market.clone());
        self.bid_levels = book.bids.len();
        self.ask_levels = book.asks.len();
        self.last_update_timestamp = Some(book.timestamp.clone());

        let bid_keys = rank_levels(&book.bids, price_rank);
        let ask_keys = rank_levels(&book.asks, price_rank);
        self.best_bid = best_bid_from_book(&book.bids, &bid_keys);
        self.best_ask = best_ask_from_book(&book.asks, &ask_keys);
        self.spread = calculate_spread(&self.best_bid, &self.best_ask, spread_of);
    }

    /// Takes the best bid, ask and spread that the exchange reports for the token. A
    /// report for another asset leaves the state as it was.
    pub fn apply_best_bid_ask(&mut self, report: &BestBidAsk)
        ensures
            best_bid_ask_applied(*old(self), *final(self), *report),
    {
        if !(report.asset_id == self.token_id) {
            return;
        }
        self.market_id = Some(report.market.clone());
        self.best_bid = Some(report.best_bid.clone());
        self.best_ask = Some(report.best_ask.clone());
        self.spread = Some(report.spread.clone());
        self.last_update_timestamp = Some(report.timestamp.clone());
    }

    /// Takes the token's last trade. A trade of another asset leaves the state as it was.
    pub fn apply_last_trade_price(&mut self, trade: &LastTradePrice)
        ensures
            last_trade_applied(*old(self), *final(self), *trade),
    {
        if !(trade.asset_id == self.token_id) {
            return;
        }
        self.market_id = Some(trade.market.clone());
        self.last_trade_price = Some(trade.price.clone());
        self.last_trade_size = Some(trade.size.clone());
        self.last_trade_side = Some(trade.side.clone());
        self.last_update_timestamp = Some(trade.timestamp.clone());
    }

    /// Takes a batch of price level changes. The market and the update time are taken
    /// whatever assets the batch is about; each change for the token moves the best bid
    /// and ask to those it carries, and the spread is worked out again from the new quote.
    pub fn apply_price_change<S>(&mut self, batch: &PriceChange, spread_of: &S)
        where
            S: Fn(&String, &String) -> Option<String>,
        requires
            forall|b: &String, a: &String| spread_of.requires((b, a)),
        ensures
            price_change_applied(*old(self), *final(self), *batch, *spread_of),
            forall|j: int|
                0 <= j < batch.changes@.len() && carries_bid_for(#[trigger] batch.changes@[j], old(self).token_id@)
                    && (forall|k: int|
                    j < k < batch.changes@.len() ==> !carries_bid_for(
                        #[trigger] batch.changes@[k],
                        old(self).token_id@,
                    )) ==> final(self).best_bid == batch.changes@[j].best_bid,
            forall|j: int|
                0 <= j < batch.changes@.len() && carries_ask_for(#[trigger] batch.changes@[j], old(self).token_id@)
                    && (forall|k: int|
                    j < k < batch.changes@.len() ==> !carries_ask_for(
                        #[trigger] batch.changes@[k],
                        old(self).token_id@,
                    )) ==> final(self).best_ask == batch.changes@[j].best_ask,
            (forall|j: int|
                0 <= j < batch.changes@.len() ==> !carries_bid_for(#[trigger] batch.changes@[j], old(self).token_id@))
                ==> final(self).best_bid == old(self).best_bid,
            (forall|j: int|
                0 <= j < batch.changes@.len() ==> !carries_ask_for(#[trigger] batch.changes@[j], old(self).token_id@))
                ==> final(self).best_ask == old(self).best_ask,
    {
        self.market_id = Some(batch.market.clone());
        self.last_update_timestamp = Some(batch.timestamp.clone());
        let ghost token = self.token_id@;
        let ghost changes = batch.changes@;
        let mut found: bool = false;
        let mut i: usize = 0;
        while i < batch.changes.len()
            invariant
                i <= changes.len(),
                changes == batch.changes@,
                token == old(self).token_id@,
                self.token_id == old(self).token_id,
                self.market_id == Some(batch.market),
                self.last_update_timestamp == Some(batch.timestamp),
                self.bid_levels == old(self).bid_levels,
                self.ask_levels == old(self).ask_levels,
                self.same_trade(*old(self)),
                self.best_bid == bid_after_changes(changes.take(i as int), token, old(self).best_bid),
                self.best_ask == ask_after_changes(changes.take(i as int), token, old(self).best_ask),
                found == has_change_for(changes.take(i as int), token),
                found ==> spread_from(self.best_bid, self.best_ask, self.spread, *spread_of),
                !found ==> self.spread == old(self).spread,
                forall|b: &String, a: &String| spread_of.requires((b, a)),
            decreases changes.len() - i,
        {
            let change = &batch.changes[i];
            proof {
                assert(changes.take(i + 1).drop_last() =~= changes.take(i as int));
                assert(changes.take(i + 1).last() == changes[i as int]);
            }
            if change.asset_id == self.token_id {
                if let Some(best_bid) = &change.best_bid {
                    self.best_bid = Some(best_bid.clone());
                }
                if let Some(best_ask) = &change.best_ask {
                    self.best_ask = Some(best_ask.clone());
                }
                self.spread = calculate_spread(&self.best_bid, &self.best_ask, spread_of);
                found = true;
                proof {
                    assert(changes.take(i + 1)[i as int] == changes[i as int]);
                }
            } else {
                proof {
                    if has_change_for(changes.take(i + 1), token) {
                        let j = choose|j: int| 0 <= j < i + 1 && (#[trigger] changes.take(i + 1)[j]).asset_id@ == token;
                        assert(changes.take(i as int)[j] == changes.take(i + 1)[j]);
                    }
                }
            }
            i = i + 1;
        }
        proof {
            assert(changes.take(changes.len() as int) =~= changes);
            lemma_bid_is_last_carried(changes, token, old(self).best_bid);
            lemma_ask_is_last_carried(changes, token, old(self).best_ask);
        }
    }
}

/// The key that `rank` gives each level's price, in the order of the levels.
pub fn rank_levels<R: Fn(&String) -> Option<i64>>(levels: &Vec<BookLevel>, rank: &R) -> (keys: Vec<Option<i64>>)
    requires
        forall|p: &String| rank.requires((p,)),
    ensures
        ranked_by(levels@, keys@, *rank),
{
    let mut keys: Vec<Option<i64>> = Vec::new();
    let mut i: usize = 0;
    while i < levels.len()
        invariant
            i <= levels.len(),
            keys.len() == i,
            forall|p: &String| rank.requires((p,)),
            forall|j: int| 0 <= j < i ==> rank.ensures((&levels@[j].price,), keys@[j]),
        decreases levels.len() - i,
    {
        let k = rank(&levels[i].price);
        keys.push(k);
        i = i + 1;
    }
    keys
}

/// The index of the best bid among ranked levels: the highest key, the last one on a tie.
pub fn best_bid_index(keys: &Vec<Option<i64>>) -> (r: Option<usize>)
    ensures
        match r {
            Some(i) => is_best_bid_index(keys@, i as int),
            None => none_ranked(keys@),
        },
{
    let mut best: Option<usize> = None;
    let mut i: usize = 0;
    while i < keys.len()
        invariant
            i <= keys.len(),
            match best {
                Some(b) => is_best_bid_index(keys@.take(i as int), b as int),
                None => none_ranked(keys@.take(i as int)),
            },
        decreases keys.len() - i,
    {
        proof {
            assert forall|j: int| 0 <= j < i implies keys@.take(i + 1)[j] == keys@.take(i as int)[j] by {}
            assert(keys@.take(i + 1)[i as int] == keys@[i as int]);
        }
        if let Some(k) = keys[i] {
            let replace = match best {
                None => true,
                Some(b) => match keys[b] {
                    Some(kb) => kb <= k,
                    None => true,
                },
            };
            if replace {
                best = Some(i);
            }
        }
        i = i + 1;
    }
    proof {
        assert(keys@.take(keys.len() as int) =~= keys@);
    }
    best
}

/// The index of the best ask among ranked levels: the lowest key, the first one on a tie.
pub fn best_ask_index(keys: &Vec<Option<i64>>) -> (r: Option<usize>)
    ensures
        match r {
            Some(i) => is_best_ask_index(keys@, i as int),
            None => none_ranked(keys@),
        },
{
    let mut best: Option<usize> = None;
    let mut i: usize = 0;
    while i < keys.len()
        invariant
            i <= keys.len(),
            match best {
                Some(b) => is_best_ask_index(keys@.take(i as int), b as int),
                None => none_ranked(keys@.take(i as int)),
            },
        decreases keys.len() - i,
    {
        proof {
            assert forall|j: int| 0 <= j < i implies keys@.take(i + 1)[j] == keys@.take(i as int)[j] by {}
            assert(keys@.take(i + 1)[i as int] == keys@[i as int]);
        }
        if let Some(k) = keys[i] {
            let replace = match best {
                None => true,
                Some(b) => match keys[b] {
                    Some(kb) => k < kb,
                    None => true,
                },
            };
            if replace {
                best = Some(i);
            }
        }
        i = i + 1;
    }
    proof {
        assert(keys@.take(keys.len() as int) =~= keys@);
    }
    best
}

/// The price of the best bid level of a book side, given the levels' keys.
pub fn best_bid_from_book(levels: &Vec<BookLevel>, keys: &Vec<Option<i64>>) -> (r: Option<String>)
    requires
        keys.len() == levels.len(),
    ensures
        best_bid_price(levels@, keys@, r),
{
    match best_bid_index(keys) {
        Some(i) => Some(levels[i].price.clone()),
        None => None,
    }
}

/// The price of the best ask level of a book side, given the levels' keys.
pub fn best_ask_from_book(levels: &Vec<BookLevel>, keys: &Vec<Option<i64>>) -> (r: Option<String>)
    requires
        keys.len() == levels.len(),
    ensures
        best_ask_price(levels@, keys@, r),
{
    match best_ask_index(keys) {
        Some(i) => Some(levels[i].price.clone()),
        None => None,
    }
}

/// The spread of a quote: what `spread_of` gives for its bid and ask, or `None` where either is missing.
pub fn calculate_spread<S: Fn(&String, &String) -> Option<String>>(
    best_bid: &Option<String>,
    best_ask: &Option<String>,
    spread_of: &S,
) -> (r: Option<String>)
    requires
        forall|b: &String, a: &String| spread_of.requires((b, a)),
    ensures
        spread_from(*best_bid, *best_ask, r, *spread_of),
{
    match (best_bid, best_ask) {
        (Some(b), Some(a)) => spread_of(b, a),
        _ => None,
    }
}

/// A batch of changes none of which is for the token leaves its best bid and best ask as
/// they were.
pub proof fn lemma_changes_for_other_assets_keep_quote(
    changes: Seq<PriceLevelChange>,
    token: Seq<char>,
    bid: Option<String>,
    ask: Option<String>,
)
    requires
        !has_change_for(changes, token),
    ensures
        bid_after_changes(changes, token, bid) == bid,
        ask_after_changes(changes, token, ask) == ask,
    decreases changes.len(),
{
    if changes.len() > 0 {
        assert(changes.last() == changes[changes.len() - 1]);
        assert(!has_change_for(changes.drop_last(), token)) by {
            if has_change_for(changes.drop_last(), token) {
                let j = choose|j: int| 0 <= j < changes.drop_last().len() && (#[trigger] changes.drop_last()[j]).asset_id@ == token;
                assert(changes[j] == changes.drop_last()[j]);
            }
        }
        lemma_changes_for_other_assets_keep_quote(changes.drop_last(), token, bid, ask);
    }
}

/// One more change at the end of a batch: where it is for the token and carries a best bid
/// (ask), that is the best bid (ask) after the batch; otherwise the side is what it was
/// after the rest of the batch.
pub proof fn lemma_last_change_decides_quote(
    changes: Seq<PriceLevelChange>,
    c: PriceLevelChange,
    token: Seq<char>,
    bid: Option<String>,
    ask: Option<String>,
)
    ensures
        carries_bid_for(c, token) ==> bid_after_changes(changes.push(c), token, bid) == c.best_bid,
        !carries_bid_for(c, token) ==> bid_after_changes(changes.push(c), token, bid) == bid_after_changes(
            changes,
            token,
            bid,
        ),
        carries_ask_for(c, token) ==> ask_after_changes(changes.push(c), token, ask) == c.best_ask,
        !carries_ask_for(c, token) ==> ask_after_changes(changes.push(c), token, ask) == ask_after_changes(
            changes,
            token,
            ask,
        ),
{
    assert(changes.push(c).drop_last() =~= changes);
    assert(changes.push(c).last() == c);
}

/// After a batch, the best bid is the one carried by the last change for the token that
/// carries one; where no change does, it is the bid from before the batch.
pub proof fn lemma_bid_is_last_carried(changes: Seq<PriceLevelChange>, token: Seq<char>, bid: Option<String>)
    ensures
        (forall|j: int| 0 <= j < changes.len() ==> !carries_bid_for(#[trigger] changes[j], token)) ==> bid_after_changes(
            changes,
            token,
            bid,
        ) == bid,
        forall|j: int|
            0 <= j < changes.len() && carries_bid_for(#[trigger] changes[j], token) && (forall|k: int|
                j < k < changes.len() ==> !carries_bid_for(#[trigger] changes[k], token)) ==> bid_after_changes(
                changes,
                token,
                bid,
            ) == changes[j].best_bid,
    decreases changes.len(),
{
    if changes.len() > 0 {
        let rest = changes.drop_last();
        lemma_bid_is_last_carried(rest, token, bid);
        assert forall|j: int| 0 <= j < rest.len() implies rest[j] == changes[j] by {}
        assert(changes.last() == changes[changes.len() - 1]);
    }
}

/// After a batch, the best ask is the one carried by the last change for the token that
/// carries one; where no change does, it is the ask from before the batch.
pub proof fn lemma_ask_is_last_carried(changes: Seq<PriceLevelChange>, token: Seq<char>, ask: Option<String>)
    ensures
        (forall|j: int| 0 <= j < changes.len() ==> !carries_ask_for(#[trigger] changes[j], token)) ==> ask_after_changes(
            changes,
            token,
            ask,
        ) == ask,
        forall|j: int|
            0 <= j < changes.len() && carries_ask_for(#[trigger] changes[j], token) && (forall|k: int|
                j < k < changes.len() ==> !carries_ask_for(#[trigger] changes[k], token)) ==> ask_after_changes(
                changes,
                token,
                ask,
            ) == changes[j].best_ask,
    decreases changes.len(),
{
    if changes.len() > 0 {
        let rest = changes.drop_last();
        lemma_ask_is_last_carried(rest, token, ask);
        assert forall|j: int| 0 <= j < rest.len() implies rest[j] == changes[j] by {}
        assert(changes.last() == changes[changes.len() - 1]);
    }
}

/// Taking the same best bid and ask report twice leaves the state as taking it once.
pub proof fn lemma_best_bid_ask_idempotent(
    s0: TokenMarketState,
    s1: TokenMarketState,
    s2: TokenMarketState,
    report: BestBidAsk,
)
    requires
        best_bid_ask_applied(s0, s1, report),
        best_bid_ask_applied(s1, s2, report),
    ensures
        s2 == s1,
{
}

/// Taking the same trade twice leaves the state as taking it once.
pub proof fn lemma_last_trade_idempotent(
    s0: TokenMarketState,
    s1: TokenMarketState,
    s2: TokenMarketState,
    trade: LastTradePrice,
)
    requires
        last_trade_applied(s0, s1, trade),
        last_trade_applied(s1, s2, trade),
    ensures
        s2 == s1,
{
}

} // verus!
