//! Configuration sections whose contents the widgets work with.
//!
//! Reading and parsing the configuration file happens outside the library;
//! these are the plain values it produces.

use vstd::prelude::*;

verus! {

/// The `[quotes]` section.
#[derive(Debug, Clone)]
pub struct QuotesConfig {
    pub items: Vec<QuoteItem>,
}

/// One configured quote, with an optional source.
#[derive(Debug, Clone)]
pub struct QuoteItem {
    pub text: String,
    pub source: Option<String>,
}

/// The `[daily_verse]` section.
#[derive(Debug, Clone)]
pub struct DailyVerseConfig {
    /// Ordered list of BibleGateway version identifiers; each is tried in
    /// turn and the first that returns a verse is used.
    pub versions: Option<Vec<String>>,
}

/// The `[weather]` section.
#[derive(Debug, Clone)]
pub struct WeatherConfig {
    pub url: String,
    pub entity_id: String,
    pub poll_interval_secs: Option<u64>,
    /// Number of forecast entries to display (default: 5).
    pub forecast_days: Option<usize>,
    /// Forecast type: "daily" (default), "hourly", or "twice_daily".
    pub forecast_type: Option<String>,
}

} // verus!
