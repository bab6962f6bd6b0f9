use vstd::prelude::*;
use crate::state::{best_bid_ask_applied, TokenMarketState};
use crate::ws_types::BestBidAsk;

verus! {

/// A condition of a token's market worth reporting.
#[derive(Debug, Clone, PartialEq)]
pub enum MarketSignal {
    TightSpread { token_id: String, best_bid: String, best_ask: String, spread: String },
    SpreadTightened { token_id: String, previous_spread: String, current_spread: String },
    PriceMoveUp { token_id: String, previous_bid: String, current_bid: String, change: String },
    PriceMoveDown { token_id: String, previous_bid: String, current_bid: String, change: String },
    LargeTrade { token_id: String, side: String, price: String, size: String },
}

/// The widest spread, as price text, at which a quote counts as tight.
pub open spec fn tight_spread_limit_text() -> Seq<char> {
    "0.01"@
}

/// What the tight-spread rule reports of `state` against the limit `max_spread`, given
/// what the price comparison answered for its spread (`answer`): a signal carrying the
/// token and its quote when bid, ask and spread are all known and the spread is at most
/// the limit, nothing otherwise.
pub open spec fn tight_spread_outcome<C: Fn(&String, &String) -> Option<bool>>(
    state: TokenMarketState,
    max_spread: String,
    price_at_most: C,
    result: Option<MarketSignal>,
) -> bool {
    match (state.best_bid, state.best_ask, state.spread) {
        (Some(bid), Some(ask), Some(spread)) => exists|answer: Option<bool>| {
            &&& price_at_most.ensures((&spread, &max_spread), answer)
            &&& result == if answer == Some(true) {
                Some(
                    MarketSignal::TightSpread {
                        token_id: state.token_id,
                        best_bid: bid,
                        best_ask: ask,
                        spread: spread,
                    },
                )
            } else {
                None::<MarketSignal>
            }
        },
        _ => result is None,
    }
}

/// The signals of a state. Only the tight-spread rule is in force, with the limit
/// `tight_spread_limit_text()`; `price_at_most` compares two price texts by their numeric
/// values (`None` where either is no number).
pub fn evaluate_signals<C>(state: &TokenMarketState, price_at_most: &C) -> (signals: Vec<MarketSignal>)
    where
        C: Fn(&String, &String) -> Option<bool>,
    requires
        forall|a: &String, b: &String| price_at_most.requires((a, b)),
    ensures
        signals@.len() <= 1,
        exists|limit: String, tight: Option<MarketSignal>| {
            &&& limit@ == tight_spread_limit_text()
            &&& tight_spread_outcome(*state, limit, *price_at_most, tight)
            &&& signals@ == match tight {
                Some(s) => seq![s],
                None => Seq::<MarketSignal>::empty(),
            }
        },
{
    let mut signals: Vec<MarketSignal> = Vec::new();
    let limit = "0.01".to_owned();
    let tight = evaluate_tight_spread(state, &limit, price_at_most);
    match tight {
        Some(signal) => {
            signals.push(signal);
        },
        None => {},
    }
    proof {
        assert(limit@ == tight_spread_limit_text());
        assert(signals@ =~= match tight {
            Some(s) => seq![s],
            None => Seq::<MarketSignal>::empty(),
        });
    }
    signals
}

/// The tight-spread rule: a signal when the state's bid, ask and spread are known and the
/// spread is at most `max_spread`.
pub fn evaluate_tight_spread<C>(
    state: &TokenMarketState,
    max_spread: &String,
    price_at_most: &C,
) -> (r: Option<MarketSignal>)
    where
        C: Fn(&String, &String) -> Option<bool>,
    requires
        forall|a: &String, b: &String| price_at_most.requires((a, b)),
    ensures
        tight_spread_outcome(*state, *max_spread, *price_at_most, r),
{
    let best_bid = match &state.best_bid {
        Some(b) => b,
        None => return None,
    };
    let best_ask = match &state.best_ask {
        Some(a) => a,
        None => return None,
    };
    let spread = match &state.spread {
        Some(s) => s,
        None => return None,
    };
    let answer = price_at_most(spread, max_spread);
    if answer == Some(true) {
        return Some(
            MarketSignal::TightSpread {
                token_id: state.token_id.clone(),
                best_bid: best_bid.clone(),
                best_ask: best_ask.clone(),
                spread: spread.clone(),
            },
        );
    }
    None
}

/// A best bid and ask report for the token whose spread is within the limit makes the
/// tight-spread rule report the token with exactly that quote; one whose spread is not
/// within the limit (or is no number) makes it report nothing.
pub proof fn lemma_reported_quote_decides_tight_spread<C>(
    old: TokenMarketState,
    new: TokenMarketState,
    report: BestBidAsk,
    max_spread: String,
    price_at_most: C,
    result: Option<MarketSignal>,
)
    where
        C: Fn(&String, &String) -> Option<bool>,
    requires
        report.asset_id@ == old.token_id@,
        best_bid_ask_applied(old, new, report),
        tight_spread_outcome(new, max_spread, price_at_most, result),
    ensures
        (forall|a: Option<bool>| price_at_most.ensures((&report.spread, &max_spread), a) ==> a == Some(true))
            ==> result == Some(
            MarketSignal::TightSpread {
                token_id: old.token_id,
                best_bid: report.best_bid,
                best_ask: report.best_ask,
                spread: report.spread,
            },
        ),
        (forall|a: Option<bool>| price_at_most.ensures((&report.spread, &max_spread), a) ==> a != Some(true))
            ==> result is None,
{
}

} // verus!
