use raspberry_dashboard::config::{DailyVerseConfig, QuoteItem, QuotesConfig, WeatherConfig};
use raspberry_dashboard::dailyverse::{
    body_preview, effective_versions, midnight_sleep_secs, votd_from_reply, votd_url,
    DailyVerseWidget, FetchFailure, SearchStep, VerseSearch, VotdData, VotdError, VotdResponse,
    RETRY_SECS,
};
use raspberry_dashboard::homeassistant::{
    is_gauge, poll_interval_secs, reading_or_unavailable, state_url, unit_or_default,
};
use raspberry_dashboard::quotes::QuotesWidget;
use raspberry_dashboard::snapcast::{
    extract_now_playing, get_now_playing_info, track_display, ArtCache, NowPlayingInfo,
    StreamSnapshot,
};
use raspberry_dashboard::text::join;
use raspberry_dashboard::weather::{
    condition_symbol, forecast_strip, forecast_symbol, forecast_url, parse_day, try_parse_day,
    weather_settings, ForecastSlot, WeatherWidget,
};

fn votd(text: &str, r: &str, v: &str) -> VotdData {
    VotdData { text: text.to_string(), display_ref: r.to_string(), version: v.to_string() }
}

#[test]
fn quotes_pick_one_of_the_items() {
    let items = vec![
        QuoteItem { text: "Hello".to_string(), source: Some("World".to_string()) },
        QuoteItem { text: "Minimal".to_string(), source: None },
    ];
    let w = QuotesWidget::new(QuotesConfig { items });
    for _ in 0..50 {
        let (text, source) = w.random_quote().unwrap();
        assert!(
            (text == "Hello" && source == "World") || (text == "Minimal" && source.is_empty())
        );
    }
    assert_eq!(w.quote_at(1), ("Minimal".to_string(), String::new()));
}

#[test]
fn quotes_single_item_always_shown() {
    let w = QuotesWidget::new(QuotesConfig {
        items: vec![QuoteItem { text: "Only".to_string(), source: None }],
    });
    assert_eq!(w.random_quote(), Some(("Only".to_string(), String::new())));
}

#[test]
fn quotes_empty_shows_nothing() {
    let w = QuotesWidget::new(QuotesConfig { items: vec![] });
    assert_eq!(w.random_quote(), None);
    assert_eq!(w.count(), 0);
}

#[test]
fn daily_verse_versions_fall_back_to_defaults() {
    assert_eq!(effective_versions(None), vec!["NGU-DE".to_string(), "SCH2000".to_string()]);
    assert_eq!(effective_versions(Some(vec![])), vec!["NGU-DE".to_string(), "SCH2000".to_string()]);
    assert_eq!(effective_versions(Some(vec!["LUT".to_string()])), vec!["LUT".to_string()]);
}

#[test]
fn daily_verse_url() {
    assert_eq!(
        votd_url("NGU-DE"),
        "https://www.biblegateway.com/votd/get/?format=json&version=NGU-DE"
    );
}

#[test]
fn daily_verse_decodes_entities() {
    let d = votd("1&times2&lt;3 &ldquo;Fear not&rdquo;", "John 3&#58;16", "NGU&amp;DE").decoded();
    assert_eq!(d.text, "1×2<3 \u{201c}Fear not\u{201d}");
    assert_eq!(d.display_ref, "John 3:16");
    assert_eq!(d.version, "NGU&DE");
    let plain = votd("plain", "ref", "v").decoded();
    assert_eq!(plain.text, "plain");
}

#[test]
fn daily_verse_reply_outcomes() {
    assert!(matches!(votd_from_reply(false, None), Err(FetchFailure::Status)));
    assert!(matches!(
        votd_from_reply(false, Some(VotdResponse::Success { votd: votd("a", "b", "c") })),
        Err(FetchFailure::Status)
    ));
    assert!(matches!(votd_from_reply(true, None), Err(FetchFailure::Json)));
    match votd_from_reply(true, Some(VotdResponse::Success { votd: votd("a", "b", "c") })) {
        Ok(v) => assert_eq!((v.text.as_str(), v.display_ref.as_str(), v.version.as_str()), ("a", "b", "c")),
        Err(_) => panic!("expected a verse"),
    }
    let err = VotdError { code: "404".to_string(), message: "unknown version".to_string() };
    match votd_from_reply(true, Some(VotdResponse::Error { error: err })) {
        Err(FetchFailure::Api { code, message }) => {
            assert_eq!(code, "404");
            assert_eq!(message, "unknown version");
        }
        _ => panic!("expected an API error"),
    }
}

#[test]
fn daily_verse_body_preview() {
    let long: String = std::iter::repeat('ä').take(200).collect();
    assert_eq!(body_preview(&long).chars().count(), 128);
    assert_eq!(body_preview("short"), "short");
    assert_eq!(body_preview(""), "");
}

#[test]
fn daily_verse_sleep_times() {
    assert_eq!(midnight_sleep_secs(3600), 3600);
    assert_eq!(midnight_sleep_secs(10), 60);
    assert_eq!(midnight_sleep_secs(0), 60);
    assert_eq!(midnight_sleep_secs(-1), u64::MAX);
    assert_eq!(RETRY_SECS, 3600);
}

#[test]
fn daily_verse_config_handed_over_once() {
    let mut w = DailyVerseWidget::new(DailyVerseConfig { versions: Some(vec!["X".to_string()]) });
    assert!(w.take_config().is_some());
    assert!(w.take_config().is_none());
}

#[test]
fn homeassistant_text() {
    assert_eq!(
        state_url("http://homeassistant.local:8123", "sensor.temp"),
        "http://homeassistant.local:8123/api/states/sensor.temp"
    );
    assert_eq!(unit_or_default(Some("°C".to_string())), "°C");
    assert_eq!(unit_or_default(None), "");
    assert_eq!(
        reading_or_unavailable(None),
        ("unavailable".to_string(), String::new())
    );
    assert_eq!(
        reading_or_unavailable(Some(("21.5".to_string(), "°C".to_string()))),
        ("21.5".to_string(), "°C".to_string())
    );
    assert!(is_gauge(Some("gauge")));
    assert!(!is_gauge(Some("Gauge")));
    assert!(!is_gauge(None));
    assert_eq!(poll_interval_secs(None), 30);
    assert_eq!(poll_interval_secs(Some(60)), 60);
}

#[test]
fn weather_condition_symbols() {
    assert_eq!(condition_symbol("sunny"), "☀");
    assert_eq!(condition_symbol("clear-night"), "🌙");
    assert_eq!(condition_symbol("partlycloudy"), "⛅");
    assert_eq!(condition_symbol("cloudy"), "☁");
    assert_eq!(condition_symbol("rainy"), "🌧");
    assert_eq!(condition_symbol("pouring"), "🌧");
    assert_eq!(condition_symbol("snowy"), "❄");
    assert_eq!(condition_symbol("snowy-rainy"), "🌨");
    assert_eq!(condition_symbol("fog"), "🌫");
    assert_eq!(condition_symbol("hail"), "🌨");
    assert_eq!(condition_symbol("lightning"), "🌩");
    assert_eq!(condition_symbol("lightning-rainy"), "⛈");
    assert_eq!(condition_symbol("windy"), "💨");
    assert_eq!(condition_symbol("windy-variant"), "💨");
    assert_eq!(condition_symbol("exceptional"), "⚠");
    assert_eq!(condition_symbol("tornado"), "?");
    assert_eq!(forecast_symbol(None), "?");
    assert_eq!(forecast_symbol(Some("fog")), "🌫");
}

#[test]
fn weather_settings_defaults_and_overrides() {
    let mut cfg = WeatherConfig {
        url: "http://ha:8123".to_string(),
        entity_id: "weather.home".to_string(),
        poll_interval_secs: None,
        forecast_days: None,
        forecast_type: None,
    };
    let s = weather_settings(&cfg);
    assert_eq!((s.poll_secs, s.forecast_days, s.forecast_type.as_str()), (300, 5, "daily"));
    cfg.poll_interval_secs = Some(60);
    cfg.forecast_days = Some(3);
    cfg.forecast_type = Some("hourly".to_string());
    let s = weather_settings(&cfg);
    assert_eq!((s.poll_secs, s.forecast_days, s.forecast_type.as_str()), (60, 3, "hourly"));
    assert_eq!(
        forecast_url("http://ha:8123"),
        "http://ha:8123/api/services/weather/get_forecasts?return_response"
    );
}

#[test]
fn weather_widget_keeps_token() {
    let cfg = WeatherConfig {
        url: "u".to_string(),
        entity_id: "e".to_string(),
        poll_interval_secs: None,
        forecast_days: None,
        forecast_type: None,
    };
    let mut w = WeatherWidget::new(cfg, "tok".to_string());
    assert!(w.take_config().is_some());
    assert!(w.take_config().is_none());
    assert_eq!(w.token(), "tok");
}

#[test]
fn weather_day_names() {
    assert_eq!(parse_day("2024-03-15T12:00:00+01:00"), "Fri");
    assert_eq!(parse_day("2024-03-16"), "Sat");
    assert_eq!(parse_day("2024-03-17 garbage"), "Sun");
    assert_eq!(parse_day("not-a-date-at-all"), "not");
    assert_eq!(try_parse_day("2024-03-18T00:00:00Z"), Some("Mon".to_string()));
    assert_eq!(try_parse_day("short"), None);
    assert_eq!(try_parse_day("ääääääää"), None);
}

fn info(title: &str, art: Option<&str>) -> NowPlayingInfo {
    NowPlayingInfo {
        title: Some(title.to_string()),
        artist: Some(vec!["A".to_string(), "B".to_string()]),
        album: None,
        art_url: art.map(|s| s.to_string()),
    }
}

#[test]
fn snapcast_first_playing_stream_with_metadata() {
    let streams = vec![
        None,
        Some(StreamSnapshot { playing: false, metadata: Some(info("paused", None)) }),
        Some(StreamSnapshot { playing: true, metadata: None }),
        Some(StreamSnapshot { playing: true, metadata: Some(info("first", None)) }),
        Some(StreamSnapshot { playing: true, metadata: Some(info("second", None)) }),
    ];
    let found = extract_now_playing(&streams).unwrap();
    assert_eq!(found.title.as_deref(), Some("first"));
    assert!(get_now_playing_info(streams[1].as_ref()).is_none());
    assert!(get_now_playing_info(None).is_none());
    assert!(extract_now_playing(&vec![None, None]).is_none());
}

#[test]
fn snapcast_track_text() {
    let d = track_display(&info("Song", None));
    assert_eq!(d.title, "Song");
    assert_eq!(d.artist, "A, B");
    assert_eq!(d.album, "Unknown Album");
    let bare = NowPlayingInfo { title: None, artist: None, album: Some("LP".to_string()), art_url: None };
    let d = track_display(&bare);
    assert_eq!(d.title, "");
    assert_eq!(d.artist, "Unknown Artist");
    assert_eq!(d.album, "LP");
}

#[test]
fn snapcast_art_fetched_only_when_address_changes() {
    let mut cache = ArtCache::new();
    assert!(cache.begin(Some("http://a/1.png")));
    cache.finish("http://a/1.png", Some(vec![1, 2, 3]));
    assert!(!cache.begin(Some("http://a/1.png")));
    assert_eq!(cache.bytes(), Some(&vec![1, 2, 3]));
    assert!(cache.begin(Some("http://a/2.png")));
    cache.finish("http://a/2.png", None);
    assert_eq!(cache.bytes(), None);
    assert!(cache.begin(Some("http://a/2.png")));
    cache.finish("http://a/2.png", Some(vec![9]));
    assert!(!cache.begin(None));
    assert_eq!(cache.bytes(), None);
}

#[test]
fn text_join() {
    assert_eq!(join(&vec![], ", "), "");
    assert_eq!(join(&vec!["x".to_string()], ", "), "x");
    assert_eq!(join(&vec!["x".to_string(), "y".to_string(), "z".to_string()], "-"), "x-y-z");
}

#[test]
fn daily_verse_search_stops_at_first_success() {
    let mut search = VerseSearch::new(vec!["A".to_string(), "B".to_string(), "C".to_string()]);
    match search.step(None) {
        SearchStep::Fetch(v) => assert_eq!(v, "A"),
        other => panic!("unexpected {other:?}"),
    }
    match search.step(None) {
        SearchStep::Fetch(v) => assert_eq!(v, "B"),
        other => panic!("unexpected {other:?}"),
    }
    match search.step(Some(votd("verse", "ref", "B"))) {
        SearchStep::Found(v) => assert_eq!(v.version, "B"),
        other => panic!("unexpected {other:?}"),
    }
}

#[test]
fn daily_verse_search_exhausts_every_version() {
    let mut search = VerseSearch::new(vec!["A".to_string()]);
    assert!(matches!(search.step(None), SearchStep::Fetch(_)));
    assert!(matches!(search.step(None), SearchStep::Exhausted));
    assert!(matches!(search.step(None), SearchStep::Exhausted));
    let mut empty = VerseSearch::new(vec![]);
    assert!(matches!(empty.step(None), SearchStep::Exhausted));
}

fn slot(dt: &str, cond: Option<&str>) -> ForecastSlot {
    ForecastSlot { datetime: dt.to_string(), condition: cond.map(|c| c.to_string()) }
}

#[test]
fn weather_forecast_strip_takes_first_entries() {
    let slots = vec![
        slot("2024-03-15T12:00:00+01:00", Some("sunny")),
        slot("2024-03-16", None),
        slot("2024-03-17T12:00:00+01:00", Some("fog")),
    ];
    let strip = forecast_strip(&slots, 2).unwrap();
    assert_eq!(strip.len(), 2);
    assert_eq!((strip[0].day.as_str(), strip[0].symbol), ("Fri", "☀"));
    assert_eq!((strip[1].day.as_str(), strip[1].symbol), ("Sat", "?"));
    let all = forecast_strip(&slots, 5).unwrap();
    assert_eq!(all.len(), 3);
    assert_eq!((all[2].day.as_str(), all[2].symbol), ("Sun", "🌫"));
    assert_eq!(forecast_strip(&slots, 0).unwrap().len(), 0);
}

#[test]
fn weather_forecast_strip_refuses_unlabelled_entry() {
    let slots = vec![slot("2024-03-15", Some("rainy")), slot("bad", None)];
    assert!(forecast_strip(&slots, 5).is_none());
    // Only the shown entries count.
    assert_eq!(forecast_strip(&slots, 1).unwrap().len(), 1);
}
