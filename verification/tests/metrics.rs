use polymarket_signal_engine::metrics::{Latency, LatencyMetrics, SignalMetrics};
use polymarket_signal_engine::signals::MarketSignal;

/// The place that a percentile picks among `len` sorted latencies, as the stream's
/// summary works it out.
fn percentile_index(percentile: f64, len: usize) -> usize {
    let rank = (percentile / 100.0) * (len.saturating_sub(1) as f64);
    rank.ceil() as usize
}

fn percentile(metrics: &LatencyMetrics, percentile: f64) -> Latency {
    if metrics.message_count() == 0 {
        return Latency::zero();
    }
    metrics.latency_at_rank(percentile_index(percentile, metrics.message_count() as usize))
}

#[test]
fn records_message_count() {
    let mut metrics = LatencyMetrics::default();

    metrics.record(Latency::from_micros(100));
    metrics.record(Latency::from_micros(200));

    assert_eq!(metrics.message_count(), 2);
}

#[test]
fn reports_at_interval() {
    let mut metrics = LatencyMetrics::default();

    for _ in 0..9 {
        metrics.record(Latency::from_micros(100));
    }

    assert!(!metrics.should_report(10));

    metrics.record(Latency::from_micros(100));

    assert!(metrics.should_report(10));
}

#[test]
fn does_not_report_when_empty() {
    let metrics = LatencyMetrics::default();

    assert!(!metrics.should_report(10));
}

#[test]
fn handles_zero_messages_average() {
    let metrics = LatencyMetrics::default();

    assert_eq!(metrics.average_latency(), Latency::zero());
}

#[test]
fn calculates_average_latency() {
    let mut metrics = LatencyMetrics::default();

    metrics.record(Latency::from_micros(100));
    metrics.record(Latency::from_micros(300));

    assert_eq!(metrics.average_latency(), Latency::from_micros(200));
}

#[test]
fn calculates_p50_latency() {
    let mut metrics = LatencyMetrics::default();

    metrics.record(Latency::from_micros(100));
    metrics.record(Latency::from_micros(200));
    metrics.record(Latency::from_micros(300));

    assert_eq!(percentile(&metrics, 50.0), Latency::from_micros(200));
}

#[test]
fn calculates_p95_latency() {
    let mut metrics = LatencyMetrics::default();

    for value in 1..=100 {
        metrics.record(Latency::from_micros(value));
    }

    assert_eq!(percentile(&metrics, 95.0), Latency::from_micros(96));
}

#[test]
fn calculates_p99_latency() {
    let mut metrics = LatencyMetrics::default();

    for value in 1..=100 {
        metrics.record(Latency::from_micros(value));
    }

    assert_eq!(percentile(&metrics, 99.0), Latency::from_micros(100));
}

#[test]
fn percentile_returns_zero_when_empty() {
    let metrics = LatencyMetrics::default();

    assert_eq!(percentile(&metrics, 95.0), Latency::zero());
}

#[test]
fn records_tight_spread_signal() {
    let mut metrics = SignalMetrics::default();

    let signal = MarketSignal::TightSpread {
        token_id: "token-1".to_string(),
        best_bid: "0.42".to_string(),
        best_ask: "0.43".to_string(),
        spread: "0.01".to_string(),
    };

    metrics.record(&signal);

    assert_eq!(metrics.total(), 1);
    assert_eq!(metrics.tight_spread(), 1);
    assert_eq!(metrics.spread_tightened(), 0);
    assert_eq!(metrics.price_move(), 0);
    assert_eq!(metrics.large_trade(), 0);
}

#[test]
fn combines_price_move_up_and_down() {
    let mut metrics = SignalMetrics::default();

    let up = MarketSignal::PriceMoveUp {
        token_id: "token-1".to_string(),
        previous_bid: "0.40".to_string(),
        current_bid: "0.43".to_string(),
        change: "0.0300".to_string(),
    };

    let down = MarketSignal::PriceMoveDown {
        token_id: "token-1".to_string(),
        previous_bid: "0.43".to_string(),
        current_bid: "0.40".to_string(),
        change: "-0.0300".to_string(),
    };

    metrics.record(&up);
    metrics.record(&down);

    assert_eq!(metrics.total(), 2);
    assert_eq!(metrics.price_move(), 2);
}

#[test]
fn records_all_signal_categories() {
    let mut metrics = SignalMetrics::default();

    metrics.record(&MarketSignal::TightSpread {
        token_id: "token-1".to_string(),
        best_bid: "0.42".to_string(),
        best_ask: "0.43".to_string(),
        spread: "0.01".to_string(),
    });

    metrics.record(&MarketSignal::SpreadTightened {
        token_id: "token-1".to_string(),
        previous_spread: "0.04".to_string(),
        current_spread: "0.02".to_string(),
    });

    metrics.record(&MarketSignal::PriceMoveUp {
        token_id: "token-1".to_string(),
        previous_bid: "0.40".to_string(),
        current_bid: "0.43".to_string(),
        change: "0.0300".to_string(),
    });

    metrics.record(&MarketSignal::LargeTrade {
        token_id: "token-1".to_string(),
        side: "BUY".to_string(),
        price: "0.43".to_string(),
        size: "750".to_string(),
    });

    assert_eq!(metrics.total(), 4);
    assert_eq!(metrics.tight_spread(), 1);
    assert_eq!(metrics.spread_tightened(), 1);
    assert_eq!(metrics.price_move(), 1);
    assert_eq!(metrics.large_trade(), 1);
}

#[test]
fn tracks_least_and_greatest_latency() {
    let mut metrics = LatencyMetrics::new();
    assert_eq!(metrics.min_latency(), None);
    assert_eq!(metrics.max_latency(), None);

    metrics.record(Latency::from_micros(300));
    metrics.record(Latency::from_micros(100));
    metrics.record(Latency::from_micros(200));

    assert_eq!(metrics.min_latency(), Some(Latency::from_micros(100)));
    assert_eq!(metrics.max_latency(), Some(Latency::from_micros(300)));
}

#[test]
fn average_truncates_to_whole_nanoseconds() {
    let mut metrics = LatencyMetrics::new();
    metrics.record(Latency::from_nanos(1));
    metrics.record(Latency::from_nanos(2));
    assert_eq!(metrics.average_latency(), Latency::from_nanos(1));
}

#[test]
fn latency_at_rank_orders_the_records() {
    let mut metrics = LatencyMetrics::new();
    metrics.record(Latency::from_micros(300));
    metrics.record(Latency::from_micros(100));
    metrics.record(Latency::from_micros(200));
    metrics.record(Latency::from_micros(100));

    assert_eq!(metrics.latency_at_rank(0), Latency::from_micros(100));
    assert_eq!(metrics.latency_at_rank(1), Latency::from_micros(100));
    assert_eq!(metrics.latency_at_rank(2), Latency::from_micros(200));
    assert_eq!(metrics.latency_at_rank(3), Latency::from_micros(300));
}

#[test]
fn latency_at_rank_is_zero_when_empty() {
    let metrics = LatencyMetrics::new();
    assert_eq!(metrics.latency_at_rank(7), Latency::zero());
}

#[test]
fn latency_units_convert_exactly() {
    assert_eq!(Latency::from_micros(1).as_nanos(), 1_000);
    assert_eq!(Latency::from_millis(2).as_nanos(), 2_000_000);
    let l = Latency::new(3, 1_500_000_000);
    assert_eq!(l.as_nanos(), 4_500_000_000);
    assert_eq!(l.as_secs(), 4);
    assert_eq!(l.subsec_nanos(), 500_000_000);
}

#[test]
fn signal_total_counts_every_kind() {
    let mut metrics = SignalMetrics::new();
    metrics.record(&MarketSignal::PriceMoveDown {
        token_id: "t".to_string(),
        previous_bid: "0.5".to_string(),
        current_bid: "0.4".to_string(),
        change: "-0.1000".to_string(),
    });
    metrics.record(&MarketSignal::LargeTrade {
        token_id: "t".to_string(),
        side: "SELL".to_string(),
        price: "0.4".to_string(),
        size: "1000".to_string(),
    });
    assert_eq!(metrics.total(), 2);
    assert_eq!(
        metrics.total(),
        metrics.tight_spread() + metrics.spread_tightened() + metrics.price_move() + metrics.large_trade()
    );
}

#[test]
fn reports_every_interval_not_between() {
    let mut metrics = LatencyMetrics::new();
    let mut reports = Vec::new();
    for _ in 0..7 {
        metrics.record(Latency::from_micros(5));
        reports.push(metrics.should_report(3));
    }
    assert_eq!(reports, vec![false, false, true, false, false, true, false]);
}
