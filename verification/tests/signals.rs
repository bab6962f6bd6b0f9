use polymarket_signal_engine::signals::{evaluate_signals, evaluate_tight_spread, MarketSignal};
use polymarket_signal_engine::state::TokenMarketState;

/// Whether the first price text is at most the second, by their `f64` values.
fn price_at_most(a: &String, b: &String) -> Option<bool> {
    let a = a.parse::<f64>().ok()?;
    let b = b.parse::<f64>().ok()?;
    Some(a <= b)
}

fn state_with_spread(spread: &str) -> TokenMarketState {
    let mut state = TokenMarketState::new("token-1");

    state.best_bid = Some("0.42".to_string());
    state.best_ask = Some("0.43".to_string());
    state.spread = Some(spread.to_string());

    state
}

#[test]
fn emits_tight_spread_signal_when_spread_is_below_threshold() {
    let state = state_with_spread("0.005");

    let signals = evaluate_signals(&state, &price_at_most);

    assert_eq!(signals.len(), 1);

    assert_eq!(
        signals[0],
        MarketSignal::TightSpread {
            token_id: "token-1".to_string(),
            best_bid: "0.42".to_string(),
            best_ask: "0.43".to_string(),
            spread: "0.005".to_string(),
        }
    );
}

#[test]
fn emits_tight_spread_signal_when_spread_equals_threshold() {
    let state = state_with_spread("0.01");

    let signals = evaluate_signals(&state, &price_at_most);

    assert_eq!(signals.len(), 1);
}

#[test]
fn does_not_emit_tight_spread_signal_when_spread_is_above_threshold() {
    let state = state_with_spread("0.02");

    let signals = evaluate_signals(&state, &price_at_most);

    assert!(signals.is_empty());
}

#[test]
fn does_not_emit_signal_when_bid_or_ask_is_missing() {
    let mut state = state_with_spread("0.005");
    state.best_bid = None;

    let signals = evaluate_signals(&state, &price_at_most);

    assert!(signals.is_empty());
}

#[test]
fn does_not_emit_signal_when_spread_is_invalid() {
    let state = state_with_spread("not-a-number");

    let signals = evaluate_signals(&state, &price_at_most);

    assert!(signals.is_empty());
}

#[test]
fn tight_spread_rule_takes_any_limit() {
    let state = state_with_spread("0.02");
    let limit = "0.03".to_string();
    assert!(evaluate_tight_spread(&state, &limit, &price_at_most).is_some());
    let limit = "0.015".to_string();
    assert!(evaluate_tight_spread(&state, &limit, &price_at_most).is_none());
}

#[test]
fn no_signal_without_spread() {
    let mut state = state_with_spread("0.005");
    state.spread = None;
    assert!(evaluate_signals(&state, &price_at_most).is_empty());
}
