use vstd::prelude::*;

verus! {

/// The envelope that every market channel message carries: its kind of event.
#[derive(Debug)]
pub struct MarketMessageEnvelope {
    pub event_type: String,
}

/// A full order book for one asset.
#[derive(Debug)]
pub struct OrderBookSnapshot {
    pub market: String,
    pub asset_id: String,
    pub timestamp: String,
    pub bids: Vec<BookLevel>,
    pub asks: Vec<BookLevel>,
    pub hash: Option<String>,
}

/// One price level of an order book.
#[derive(Debug)]
pub struct BookLevel {
    pub price: String,
    pub size: String,
}

/// A batch of price level changes in one market.
#[derive(Debug)]
pub struct PriceChange {
    pub market: String,
    pub timestamp: String,
    pub changes: Vec<PriceLevelChange>,
}

/// A change of one price level of one asset, with the asset's new best quote where known.
#[derive(Debug)]
pub struct PriceLevelChange {
    pub asset_id: String,
    pub price: String,
    pub size: String,
    pub side: String,
    pub hash: Option<String>,
    pub best_bid: Option<String>,
    pub best_ask: Option<String>,
}

/// The last trade of an asset.
#[derive(Debug)]
pub struct LastTradePrice {
    pub market: String,
    pub asset_id: String,
    pub price: String,
    pub side: String,
    pub size: String,
    pub timestamp: String,
    pub fee_rate_bps: Option<String>,
}

/// The best bid and ask of an asset, with their spread.
#[derive(Debug)]
pub struct BestBidAsk {
    pub market: String,
    pub asset_id: String,
    pub best_bid: String,
    pub best_ask: String,
    pub spread: String,
    pub timestamp: String,
}

/// A change of an asset's tick size.
#[derive(Debug)]
pub struct TickSizeChange {
    pub market: String,
    pub asset_id: String,
    pub old_tick_size: String,
    pub new_tick_size: String,
    pub timestamp: String,
}

} // verus!
