//! Home Assistant sensors: request addresses and the text shown on each
//! sensor card.

use vstd::prelude::*;
use crate::text::{concat3, owned, str_eq};

verus! {

/// Poll interval used when none is configured.
pub const DEFAULT_POLL_SECS: u64 = 30;

/// Address of the state of `entity_id` on the Home Assistant at `base`.
pub fn state_url(base: &str, entity_id: &str) -> (url: String)
    ensures
        url@ == base@ + "/api/states/"@ + entity_id@,
{
    concat3(base, "/api/states/", entity_id)
}

/// The unit shown next to a reading; a sensor without one shows none.
pub fn unit_or_default(unit: Option<String>) -> (u: String)
    ensures
        u@ == match unit {
            Some(s) => s@,
            None => Seq::<char>::empty(),
        },
{
    match unit {
        Some(s) => s,
        None => String::new(),
    }
}

/// The value and unit shown for a sensor: the fetched ones, or
/// `unavailable` with no unit when the fetch failed.
pub fn reading_or_unavailable(reading: Option<(String, String)>) -> (r: (String, String))
    ensures
        match reading {
            Some(v) => r == v,
            None => r.0@ == "unavailable"@ && r.1@ == Seq::<char>::empty(),
        },
{
    match reading {
        Some(v) => v,
        None => (owned("unavailable"), String::new()),
    }
}

/// A sensor is drawn as a gauge exactly when its type is `gauge`.
pub fn is_gauge(sensor_type: Option<&str>) -> (g: bool)
    ensures
        g == match sensor_type {
            Some(t) => t@ == "gauge"@,
            None => false,
        },
{
    match sensor_type {
        Some(t) => str_eq(t, "gauge"),
        None => false,
    }
}

/// Seconds between two polls: the configured interval, or 30.
pub fn poll_interval_secs(configured: Option<u64>) -> (s: u64)
    ensures
        s == match configured {
            Some(v) => v,
            None => DEFAULT_POLL_SECS,
        },
{
    match configured {
        Some(v) => v,
        None => DEFAULT_POLL_SECS,
    }
}

} // verus!
