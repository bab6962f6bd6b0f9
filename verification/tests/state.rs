use polymarket_signal_engine::state::TokenMarketState;
use polymarket_signal_engine::ws_types::{
    BestBidAsk, BookLevel, LastTradePrice, OrderBookSnapshot, PriceChange, PriceLevelChange,
};

/// Orders price texts as their `f64` values are totally ordered.
fn price_rank(price: &String) -> Option<i64> {
    let value = price.parse::<f64>().ok()?;
    let mut bits = value.to_bits() as i64;
    bits ^= (((bits >> 63) as u64) >> 1) as i64;
    Some(bits)
}

/// The spread of a bid and an ask, to four decimals.
fn spread_of(bid: &String, ask: &String) -> Option<String> {
    let bid = bid.parse::<f64>().ok()?;
    let ask = ask.parse::<f64>().ok()?;
    Some(format!("{:.4}", ask - bid))
}

fn level(price: &str, size: &str) -> BookLevel {
    BookLevel {
        price: price.to_string(),
        size: size.to_string(),
    }
}

#[test]
fn applies_best_bid_ask_update() {
    let mut state = TokenMarketState::new("token-1");

    let event = BestBidAsk {
        market: "market-1".to_string(),
        asset_id: "token-1".to_string(),
        best_bid: "0.42".to_string(),
        best_ask: "0.44".to_string(),
        spread: "0.02".to_string(),
        timestamp: "123456".to_string(),
    };

    state.apply_best_bid_ask(&event);

    assert_eq!(state.market_id.as_deref(), Some("market-1"));
    assert_eq!(state.best_bid.as_deref(), Some("0.42"));
    assert_eq!(state.best_ask.as_deref(), Some("0.44"));
    assert_eq!(state.spread.as_deref(), Some("0.02"));
    assert_eq!(state.last_update_timestamp.as_deref(), Some("123456"));
}

#[test]
fn ignores_best_bid_ask_for_different_token() {
    let mut state = TokenMarketState::new("token-1");

    let event = BestBidAsk {
        market: "market-1".to_string(),
        asset_id: "token-2".to_string(),
        best_bid: "0.42".to_string(),
        best_ask: "0.44".to_string(),
        spread: "0.02".to_string(),
        timestamp: "123456".to_string(),
    };

    state.apply_best_bid_ask(&event);

    assert!(state.best_bid.is_none());
    assert!(state.best_ask.is_none());
    assert!(state.spread.is_none());
}

#[test]
fn applies_last_trade_price_update() {
    let mut state = TokenMarketState::new("token-1");

    let event = LastTradePrice {
        market: "market-1".to_string(),
        asset_id: "token-1".to_string(),
        price: "0.45".to_string(),
        side: "BUY".to_string(),
        size: "100".to_string(),
        timestamp: "123456".to_string(),
        fee_rate_bps: None,
    };

    state.apply_last_trade_price(&event);

    assert_eq!(state.last_trade_price.as_deref(), Some("0.45"));
    assert_eq!(state.last_trade_side.as_deref(), Some("BUY"));
    assert_eq!(state.last_trade_size.as_deref(), Some("100"));
}

#[test]
fn applies_book_snapshot_update() {
    let mut state = TokenMarketState::new("token-1");

    let event = OrderBookSnapshot {
        market: "market-1".to_string(),
        asset_id: "token-1".to_string(),
        timestamp: "123456".to_string(),
        bids: vec![level("0.40", "10"), level("0.42", "20")],
        asks: vec![level("0.45", "10"), level("0.44", "20")],
        hash: None,
    };

    state.apply_book_snapshot(&event, &price_rank, &spread_of);

    assert_eq!(state.best_bid.as_deref(), Some("0.42"));
    assert_eq!(state.best_ask.as_deref(), Some("0.44"));
    assert_eq!(state.spread.as_deref(), Some("0.0200"));
    assert_eq!(state.bid_levels, 2);
    assert_eq!(state.ask_levels, 2);
}

#[test]
fn applies_price_change_best_bid_and_ask() {
    let mut state = TokenMarketState::new("token-1");

    let event = PriceChange {
        market: "market-1".to_string(),
        timestamp: "123456".to_string(),
        changes: vec![PriceLevelChange {
            asset_id: "token-1".to_string(),
            price: "0.43".to_string(),
            size: "50".to_string(),
            side: "BUY".to_string(),
            hash: None,
            best_bid: Some("0.43".to_string()),
            best_ask: Some("0.45".to_string()),
        }],
    };

    state.apply_price_change(&event, &spread_of);

    assert_eq!(state.best_bid.as_deref(), Some("0.43"));
    assert_eq!(state.best_ask.as_deref(), Some("0.45"));
    assert_eq!(state.spread.as_deref(), Some("0.0200"));
}

#[test]
fn book_ties_keep_last_bid_and_first_ask() {
    let mut state = TokenMarketState::new("token-1");
    let event = OrderBookSnapshot {
        market: "market-1".to_string(),
        asset_id: "token-1".to_string(),
        timestamp: "1".to_string(),
        bids: vec![level("0.42", "1"), level("0.420", "2"), level("junk", "3")],
        asks: vec![level("0.50", "1"), level("0.5", "2")],
        hash: None,
    };
    state.apply_book_snapshot(&event, &price_rank, &spread_of);
    assert_eq!(state.best_bid.as_deref(), Some("0.420"));
    assert_eq!(state.best_ask.as_deref(), Some("0.50"));
    assert_eq!(state.spread.as_deref(), Some("0.0800"));
    assert_eq!(state.bid_levels, 3);
}

#[test]
fn book_without_numeric_prices_clears_quote() {
    let mut state = TokenMarketState::new("token-1");
    state.best_bid = Some("0.1".to_string());
    state.spread = Some("0.1".to_string());
    let event = OrderBookSnapshot {
        market: "market-1".to_string(),
        asset_id: "token-1".to_string(),
        timestamp: "1".to_string(),
        bids: vec![level("x", "1")],
        asks: vec![],
        hash: None,
    };
    state.apply_book_snapshot(&event, &price_rank, &spread_of);
    assert!(state.best_bid.is_none());
    assert!(state.best_ask.is_none());
    assert!(state.spread.is_none());
    assert_eq!(state.ask_levels, 0);
}

#[test]
fn ignores_book_and_trade_of_other_asset() {
    let mut state = TokenMarketState::new("token-1");
    let book = OrderBookSnapshot {
        market: "market-1".to_string(),
        asset_id: "token-2".to_string(),
        timestamp: "1".to_string(),
        bids: vec![level("0.4", "1")],
        asks: vec![level("0.5", "1")],
        hash: None,
    };
    state.apply_book_snapshot(&book, &price_rank, &spread_of);
    let trade = LastTradePrice {
        market: "market-1".to_string(),
        asset_id: "token-2".to_string(),
        price: "0.45".to_string(),
        side: "SELL".to_string(),
        size: "3".to_string(),
        timestamp: "2".to_string(),
        fee_rate_bps: Some("0".to_string()),
    };
    state.apply_last_trade_price(&trade);
    assert!(state.market_id.is_none());
    assert!(state.best_bid.is_none());
    assert!(state.last_trade_price.is_none());
    assert!(state.last_update_timestamp.is_none());
    assert_eq!(state.bid_levels, 0);
}

#[test]
fn price_change_for_other_assets_keeps_quote_but_takes_market() {
    let mut state = TokenMarketState::new("token-1");
    state.best_bid = Some("0.30".to_string());
    state.best_ask = Some("0.35".to_string());
    state.spread = Some("0.05".to_string());
    let event = PriceChange {
        market: "market-9".to_string(),
        timestamp: "77".to_string(),
        changes: vec![PriceLevelChange {
            asset_id: "token-2".to_string(),
            price: "0.43".to_string(),
            size: "50".to_string(),
            side: "BUY".to_string(),
            hash: None,
            best_bid: Some("0.43".to_string()),
            best_ask: Some("0.45".to_string()),
        }],
    };
    state.apply_price_change(&event, &spread_of);
    assert_eq!(state.market_id.as_deref(), Some("market-9"));
    assert_eq!(state.last_update_timestamp.as_deref(), Some("77"));
    assert_eq!(state.best_bid.as_deref(), Some("0.30"));
    assert_eq!(state.spread.as_deref(), Some("0.05"));
}

#[test]
fn price_change_takes_last_known_side_of_each_change() {
    let mut state = TokenMarketState::new("token-1");
    let change = |bid: Option<&str>, ask: Option<&str>| PriceLevelChange {
        asset_id: "token-1".to_string(),
        price: "0.4".to_string(),
        size: "1".to_string(),
        side: "SELL".to_string(),
        hash: None,
        best_bid: bid.map(|s| s.to_string()),
        best_ask: ask.map(|s| s.to_string()),
    };
    let event = PriceChange {
        market: "m".to_string(),
        timestamp: "5".to_string(),
        changes: vec![change(Some("0.40"), Some("0.50")), change(Some("0.41"), None)],
    };
    state.apply_price_change(&event, &spread_of);
    assert_eq!(state.best_bid.as_deref(), Some("0.41"));
    assert_eq!(state.best_ask.as_deref(), Some("0.50"));
    assert_eq!(state.spread.as_deref(), Some("0.0900"));
}

#[test]
fn price_change_with_one_side_leaves_spread_unknown() {
    let mut state = TokenMarketState::new("token-1");
    let event = PriceChange {
        market: "m".to_string(),
        timestamp: "5".to_string(),
        changes: vec![PriceLevelChange {
            asset_id: "token-1".to_string(),
            price: "0.4".to_string(),
            size: "1".to_string(),
            side: "BUY".to_string(),
            hash: None,
            best_bid: Some("0.40".to_string()),
            best_ask: None,
        }],
    };
    state.apply_price_change(&event, &spread_of);
    assert_eq!(state.best_bid.as_deref(), Some("0.40"));
    assert!(state.spread.is_none());
}
