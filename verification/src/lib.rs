//! Market-data state, signal rules and metrics of a Polymarket signal engine.

pub mod client;
pub mod config;
pub mod display;
pub mod market;
pub mod metrics;
pub mod paper;
pub mod signals;
pub mod state;
pub mod stream;
pub mod text;
pub mod ws_types;
