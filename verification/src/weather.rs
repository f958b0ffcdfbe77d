//! Weather widget: settings, request addresses, condition symbols and day
//! names for the forecast strip.

use vstd::prelude::*;
use vstd::string::*;
use vstd::utf8::*;
use crate::config::WeatherConfig;
use crate::text::{concat2, owned, str_eq};
use crate::widget::{Widget, WEATHER_WIDGET_ID};

verus! {

/// The symbol shown for a Home Assistant weather condition.
pub open spec fn condition_symbol_of(c: Seq<char>) -> Seq<char> {
    if c == "sunny"@ {
        "☀"@
    } else if c == "clear-night"@ {
        "🌙"@
    } else if c == "partlycloudy"@ {
        "⛅"@
    } else if c == "cloudy"@ {
        "☁"@
    } else if c == "rainy"@ || c == "pouring"@ {
        "🌧"@
    } else if c == "snowy"@ {
        "❄"@
    } else if c == "snowy-rainy"@ || c == "hail"@ {
        "🌨"@
    } else if c == "fog"@ {
        "🌫"@
    } else if c == "lightning"@ {
        "🌩"@
    } else if c == "lightning-rainy"@ {
        "⛈"@
    } else if c == "windy"@ || c == "windy-variant"@ {
        "💨"@
    } else if c == "exceptional"@ {
        "⚠"@
    } else {
        "?"@
    }
}

/// Maps a Home Assistant weather condition to a Unicode symbol; unknown
/// conditions give `"?"`.
pub fn condition_symbol(condition: &str) -> (r: &'static str)
    ensures
        r@ == condition_symbol_of(condition@),
{
    if str_eq(condition, "sunny") {
        "☀"
    } else if str_eq(condition, "clear-night") {
        "🌙"
    } else if str_eq(condition, "partlycloudy") {
        "⛅"
    } else if str_eq(condition, "cloudy") {
        "☁"
    } else if str_eq(condition, "rainy") || str_eq(condition, "pouring") {
        "🌧"
    } else if str_eq(condition, "snowy") {
        "❄"
    } else if str_eq(condition, "snowy-rainy") || str_eq(condition, "hail") {
        "🌨"
    } else if str_eq(condition, "fog") {
        "🌫"
    } else if str_eq(condition, "lightning") {
        "🌩"
    } else if str_eq(condition, "lightning-rainy") {
        "⛈"
    } else if str_eq(condition, "windy") || str_eq(condition, "windy-variant") {
        "💨"
    } else if str_eq(condition, "exceptional") {
        "⚠"
    } else {
        "?"
    }
}

/// The strip shows as many entries as configured, unless fewer are
/// available: it is the smaller of the two counts.
pub proof fn lemma_strip_len_is_min(available: int, days: int)
    requires
        0 <= available,
        0 <= days,
    ensures
        strip_len(available, days) <= available,
        strip_len(available, days) <= days,
        strip_len(available, days) == available || strip_len(available, days) == days,
{
}

/// The Home Assistant weather conditions that have a symbol of their own.
pub open spec fn known_conditions() -> Seq<Seq<char>> {
    seq![
        "sunny"@,
        "clear-night"@,
        "partlycloudy"@,
        "cloudy"@,
        "rainy"@,
        "pouring"@,
        "snowy"@,
        "snowy-rainy"@,
        "fog"@,
        "hail"@,
        "lightning"@,
        "lightning-rainy"@,
        "windy"@,
        "windy-variant"@,
        "exceptional"@,
    ]
}

/// Any condition outside the known ones, such as `unavailable`, shows `?`.
pub proof fn lemma_unknown_condition_question_mark(c: Seq<char>)
    requires
        !known_conditions().contains(c),
    ensures
        condition_symbol_of(c) == "?"@,
{
    let k = known_conditions();
    assert(k[0] == "sunny"@);
    assert(k[1] == "clear-night"@);
    assert(k[2] == "partlycloudy"@);
    assert(k[3] == "cloudy"@);
    assert(k[4] == "rainy"@);
    assert(k[5] == "pouring"@);
    assert(k[6] == "snowy"@);
    assert(k[7] == "snowy-rainy"@);
    assert(k[8] == "fog"@);
    assert(k[9] == "hail"@);
    assert(k[10] == "lightning"@);
    assert(k[11] == "lightning-rainy"@);
    assert(k[12] == "windy"@);
    assert(k[13] == "windy-variant"@);
    assert(k[14] == "exceptional"@);
}

/// The sun symbol is shown for `sunny` and for no other condition.
pub proof fn lemma_sun_only_for_sunny(c: Seq<char>)
    ensures
        condition_symbol_of(c) == "☀"@ <==> c == "sunny"@,
{
    reveal_strlit("☀");
    reveal_strlit("🌙");
    reveal_strlit("⛅");
    reveal_strlit("☁");
    reveal_strlit("🌧");
    reveal_strlit("❄");
    reveal_strlit("🌨");
    reveal_strlit("🌫");
    reveal_strlit("🌩");
    reveal_strlit("⛈");
    reveal_strlit("💨");
    reveal_strlit("⚠");
    reveal_strlit("?");
    assert("🌙"@[0] != "☀"@[0]);
    assert("⛅"@[0] != "☀"@[0]);
    assert("☁"@[0] != "☀"@[0]);
    assert("🌧"@[0] != "☀"@[0]);
    assert("❄"@[0] != "☀"@[0]);
    assert("🌨"@[0] != "☀"@[0]);
    assert("🌫"@[0] != "☀"@[0]);
    assert("🌩"@[0] != "☀"@[0]);
    assert("⛈"@[0] != "☀"@[0]);
    assert("💨"@[0] != "☀"@[0]);
    assert("⚠"@[0] != "☀"@[0]);
    assert("?"@[0] != "☀"@[0]);
}

/// Poll interval used when none is configured.
pub const DEFAULT_POLL_SECS: u64 = 300;

/// Number of forecast entries shown when none is configured.
pub const DEFAULT_FORECAST_DAYS: usize = 5;

/// How the weather client runs, with the defaults filled in.
pub struct WeatherSettings {
    pub poll_secs: u64,
    pub forecast_days: usize,
    pub forecast_type: String,
}

/// Settings from the `[weather]` section: poll every 300 s, show 5
/// entries and ask for the `daily` forecast unless configured otherwise.
pub fn weather_settings(config: &WeatherConfig) -> (s: WeatherSettings)
    ensures
        s.poll_secs == match config.poll_interval_secs {
            Some(v) => v,
            None => DEFAULT_POLL_SECS,
        },
        s.forecast_days == match config.forecast_days {
            Some(d) => d,
            None => DEFAULT_FORECAST_DAYS,
        },
        s.forecast_type@ == match config.forecast_type {
            Some(t) => t@,
            None => "daily"@,
        },
{
    let poll_secs = match config.poll_interval_secs {
        Some(v) => v,
        None => DEFAULT_POLL_SECS,
    };
    let forecast_days = match config.forecast_days {
        Some(d) => d,
        None => DEFAULT_FORECAST_DAYS,
    };
    let forecast_type = match &config.forecast_type {
        Some(t) => t.clone(),
        None => owned("daily"),
    };
    WeatherSettings { poll_secs, forecast_days, forecast_type }
}

/// Address of the forecast service call on the Home Assistant at `base`.
pub fn forecast_url(base: &str) -> (url: String)
    ensures
        url@ == base@ + "/api/services/weather/get_forecasts?return_response"@,
{
    concat2(base, "/api/services/weather/get_forecasts?return_response")
}

/// Symbol of a forecast entry; an entry without condition counts as
/// `unknown`.
pub fn forecast_symbol(condition: Option<&str>) -> (r: &'static str)
    ensures
        r@ == condition_symbol_of(
            match condition {
                Some(c) => c@,
                None => "unknown"@,
            },
        ),
{
    match condition {
        Some(c) => condition_symbol(c),
        None => condition_symbol("unknown"),
    }
}

/// What chrono makes of `s` read as an RFC 3339 date-time, formatted with
/// `%a` (abbreviated English weekday); `None` when it does not parse.
pub uninterp spec fn rfc3339_weekday(s: Seq<char>) -> Option<Seq<char>>;

/// What chrono makes of `s` read as a `%Y-%m-%d` date, formatted with `%a`;
/// `None` when it does not parse.
pub uninterp spec fn iso_date_weekday(s: Seq<char>) -> Option<Seq<char>>;

/// Parses `s` with `chrono::DateTime::parse_from_rfc3339` and formats the
/// result with `%a`.  Its result is a function of `s` alone, named by
/// `rfc3339_weekday`; nothing more is stated.
#[verifier::external_body]
fn rfc3339_day_name(s: &str) -> (r: Option<String>)
    ensures
        r.deep_view() == rfc3339_weekday(s@),
{
    match chrono::DateTime::parse_from_rfc3339(s) {
        Ok(dt) => Some(dt.format("%a").to_string()),
        Err(_) => None,
    }
}

/// Parses `s` with `chrono::NaiveDate::parse_from_str(s, "%Y-%m-%d")` and
/// formats the result with `%a`.  Its result is named by
/// `iso_date_weekday`; nothing more is stated.
#[verifier::external_body]
fn iso_date_day_name(s: &str) -> (r: Option<String>)
    ensures
        r.deep_view() == iso_date_weekday(s@),
{
    match chrono::NaiveDate::parse_from_str(s, "%Y-%m-%d") {
        Ok(d) => Some(d.format("%a").to_string()),
        Err(_) => None,
    }
}

/// The characters encoded by the first `n` bytes of the UTF-8 encoding of
/// `s`.
pub open spec fn utf8_prefix(s: Seq<char>, n: int) -> Seq<char> {
    decode_utf8(encode_utf8(s).subrange(0, n))
}

/// The inputs on which the day label can be formed: an RFC 3339 date-time,
/// or a string whose first ten bytes end on a character boundary and that
/// either starts with a `%Y-%m-%d` date or whose first three bytes end on a
/// character boundary.
pub open spec fn day_label_defined(s: Seq<char>) -> bool {
    ||| rfc3339_weekday(s) is Some
    ||| {
        &&& is_char_boundary(encode_utf8(s), 10)
        &&& (iso_date_weekday(utf8_prefix(s, 10)) is Some || is_char_boundary(encode_utf8(s), 3))
    }
}

/// The day label of a forecast date-time: the weekday of an RFC 3339
/// date-time, else the weekday of the date in its first ten bytes, else its
/// first three bytes (the string is at least ten bytes long there).
pub open spec fn day_label(s: Seq<char>) -> Seq<char> {
    match rfc3339_weekday(s) {
        Some(d) => d,
        None => match iso_date_weekday(utf8_prefix(s, 10)) {
            Some(d) => d,
            None => utf8_prefix(s, 3),
        },
    }
}

/// Where the fallback label is taken, the string has at least ten bytes, so
/// taking `min(3, length)` bytes takes three.
pub proof fn lemma_fallback_has_three_bytes(s: Seq<char>)
    requires
        is_char_boundary(encode_utf8(s), 10),
    ensures
        encode_utf8(s).len() >= 10,
{
    broadcast use encode_utf8_valid_utf8;
}

/// Prefix of `s` made of its first `n` bytes.
fn byte_prefix(s: &str, n: usize) -> (p: &str)
    requires
        is_char_boundary(encode_utf8(s@), n as int),
    ensures
        p@ == utf8_prefix(s@, n as int),
{
    broadcast use encode_utf8_decode_utf8;
    let (head, _tail) = s.split_at(n);
    assert(head@ == decode_utf8(encode_utf8(head@)));
    head
}

/// Extract a short day name (e.g. "Mon") from a forecast date-time such as
/// `2024-03-15T12:00:00+01:00`.
pub fn parse_day(datetime: &str) -> (d: String)
    requires
        day_label_defined(datetime@),
    ensures
        d@ == day_label(datetime@),
{
    broadcast use encode_utf8_valid_utf8;
    match rfc3339_day_name(datetime) {
        Some(day) => {
            return day;
        },
        None => {},
    }
    let head = byte_prefix(datetime, 10);
    match iso_date_day_name(head) {
        Some(day) => {
            return day;
        },
        None => {},
    }
    owned(byte_prefix(datetime, 3))
}

/// The day label when it can be formed, `None` on the inputs that
/// `parse_day` does not accept.
pub fn try_parse_day(datetime: &str) -> (r: Option<String>)
    ensures
        r is Some <==> day_label_defined(datetime@),
        r matches Some(d) ==> d@ == day_label(datetime@),
{
    broadcast use encode_utf8_valid_utf8;
    if rfc3339_day_name(datetime).is_some() {
        return Some(parse_day(datetime));
    }
    if !datetime.is_char_boundary(10) {
        return None;
    }
    let head = byte_prefix(datetime, 10);
    if iso_date_day_name(head).is_some() {
        return Some(parse_day(datetime));
    }
    if !datetime.is_char_boundary(3) {
        return None;
    }
    Some(parse_day(datetime))
}

/// A forecast entry as far as its labels go: its date-time and condition.
#[derive(Debug, Clone)]
pub struct ForecastSlot {
    pub datetime: String,
    pub condition: Option<String>,
}

/// The labels shown for one forecast entry.
#[derive(Debug, Clone)]
pub struct ForecastLabel {
    pub day: String,
    pub symbol: &'static str,
}

/// Number of forecast entries shown: the configured count, or fewer when
/// fewer are available.
pub open spec fn strip_len(available: int, days: int) -> int {
    if available < days {
        available
    } else {
        days
    }
}

/// The symbol shown for a forecast condition; no condition counts as
/// `unknown`.
pub open spec fn slot_symbol(condition: Option<String>) -> Seq<char> {
    condition_symbol_of(
        match condition {
            Some(c) => c@,
            None => "unknown"@,
        },
    )
}

/// Labels of the forecast strip: the first `days` entries (or all, when
/// fewer), each with its day label and condition symbol.  `None` when one of
/// those entries has a date-time whose day label cannot be formed (see
/// `day_label_defined`).
pub fn forecast_strip(slots: &Vec<ForecastSlot>, days: usize) -> (r: Option<Vec<ForecastLabel>>)
    ensures
        r is Some <==> forall|i: int|
            0 <= i < strip_len(slots@.len() as int, days as int) ==> day_label_defined(
                #[trigger] slots@[i].datetime@,
            ),
        r matches Some(v) ==> {
            &&& v@.len() == strip_len(slots@.len() as int, days as int)
            &&& v@.len() <= days
            &&& v@.len() <= slots@.len()
            &&& (v@.len() == days || v@.len() == slots@.len())
            &&& forall|i: int|
                0 <= i < v@.len() ==> (#[trigger] v@[i]).day@ == day_label(slots@[i].datetime@)
                    && v@[i].symbol@ == slot_symbol(slots@[i].condition)
        },
{
    let n: usize = if slots.len() < days {
        slots.len()
    } else {
        days
    };
    let mut out: Vec<ForecastLabel> = Vec::new();
    let mut i: usize = 0;
    while i < n
        invariant
            n == strip_len(slots@.len() as int, days as int),
            n <= slots@.len(),
            i <= n,
            out@.len() == i,
            forall|j: int| 0 <= j < i ==> day_label_defined(#[trigger] slots@[j].datetime@),
            forall|j: int|
                0 <= j < i ==> (#[trigger] out@[j]).day@ == day_label(slots@[j].datetime@)
                    && out@[j].symbol@ == slot_symbol(slots@[j].condition),
        decreases n - i,
    {
        let slot = &slots[i];
        let day = match try_parse_day(slot.datetime.as_str()) {
            Some(d) => d,
            None => {
                return None;
            },
        };
        let symbol = match &slot.condition {
            Some(c) => forecast_symbol(Some(c.as_str())),
            None => forecast_symbol(None),
        };
        out.push(ForecastLabel { day, symbol });
        i = i + 1;
    }
    Some(out)
}

/// Weather widget backed by a Home Assistant weather entity.
pub struct WeatherWidget {
    config: Option<WeatherConfig>,
    token: String,
}

impl WeatherWidget {
    /// The configuration not yet handed to the background client.
    pub closed spec fn pending_config(self) -> Option<WeatherConfig> {
        self.config
    }

    /// The Home Assistant token.
    pub closed spec fn token_view(self) -> Seq<char> {
        self.token@
    }

    /// A widget holding its configuration and token until it is started.
    pub fn new(config: WeatherConfig, token: String) -> (w: WeatherWidget)
        ensures
            w.pending_config() == Some(config),
            w.token_view() == token@,
    {
        WeatherWidget { config: Some(config), token }
    }

    /// Hand the configuration over to the background client; a second call
    /// gets `None`.
    pub fn take_config(&mut self) -> (c: Option<WeatherConfig>)
        ensures
            c == old(self).pending_config(),
            final(self).pending_config() is None,
            final(self).token_view() == old(self).token_view(),
    {
        self.config.take()
    }

    /// A copy of the Home Assistant token.
    pub fn token(&self) -> (t: String)
        ensures
            t@ == self.token_view(),
    {
        self.token.clone()
    }
}

impl Widget for WeatherWidget {
    fn id(&self) -> (r: i32)
        ensures
            r == WEATHER_WIDGET_ID,
    {
        WEATHER_WIDGET_ID
    }
}

} // verus!
