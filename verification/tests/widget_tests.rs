use raspberry_dashboard::widget::{
    create_widgets, widget_name, Widget, WidgetController, WidgetSelection, CLOCK_WIDGET_ID,
    DAILY_VERSE_WIDGET_ID, HOMEASSISTANT_WIDGET_ID, NOW_PLAYING_WIDGET_ID, QUOTES_WIDGET_ID,
    WEATHER_WIDGET_ID,
};
use raspberry_dashboard::config::{DailyVerseConfig, QuotesConfig, WeatherConfig};
use raspberry_dashboard::dailyverse::DailyVerseWidget;
use raspberry_dashboard::quotes::QuotesWidget;
use raspberry_dashboard::weather::WeatherWidget;

fn nothing() -> WidgetSelection {
    WidgetSelection {
        homeassistant: false,
        homeassistant_token: false,
        snapcast: false,
        daily_verse: false,
        quotes: false,
        weather: false,
    }
}

fn everything() -> WidgetSelection {
    WidgetSelection {
        homeassistant: true,
        homeassistant_token: true,
        snapcast: true,
        daily_verse: true,
        quotes: true,
        weather: true,
    }
}

fn ids(c: &WidgetController) -> Vec<i32> {
    (0..c.len()).map(|i| c.id_at(i)).collect()
}

#[test]
fn clock_only_when_nothing_configured() {
    let c = create_widgets(&nothing());
    assert_eq!(ids(&c), vec![CLOCK_WIDGET_ID]);
    assert_eq!(c.current_id(), CLOCK_WIDGET_ID);
}

#[test]
fn full_lineup_in_fixed_order() {
    let c = create_widgets(&everything());
    assert_eq!(ids(&c), vec![0, 1, 2, 3, 4, 5]);
}

#[test]
fn homeassistant_and_weather_need_token() {
    let mut sel = everything();
    sel.homeassistant_token = false;
    let c = create_widgets(&sel);
    assert_eq!(ids(&c), vec![NOW_PLAYING_WIDGET_ID, CLOCK_WIDGET_ID, DAILY_VERSE_WIDGET_ID, QUOTES_WIDGET_ID]);
}

#[test]
fn partial_lineup() {
    let mut sel = nothing();
    sel.snapcast = true;
    sel.quotes = true;
    let c = create_widgets(&sel);
    assert_eq!(ids(&c), vec![NOW_PLAYING_WIDGET_ID, CLOCK_WIDGET_ID, QUOTES_WIDGET_ID]);
    assert_eq!(c.len(), 3);
}

#[test]
fn init_all_starts_on_first_widget() {
    let mut c = create_widgets(&everything());
    c.advance(&vec![true; 6], false);
    assert_eq!(c.init_all(), HOMEASSISTANT_WIDGET_ID);
    assert_eq!(c.current_position(), 0);
}

#[test]
fn manual_advance_visits_every_widget_and_wraps() {
    let mut c = create_widgets(&everything());
    let inactive = vec![false; 6];
    let mut seen = Vec::new();
    for _ in 0..6 {
        let p = c.advance(&inactive, false).unwrap();
        seen.push(c.id_at(p));
    }
    assert_eq!(seen, vec![1, 2, 3, 4, 5, 0]);
    assert_eq!(c.current_position(), 0);
}

#[test]
fn auto_advance_skips_inactive() {
    let mut c = create_widgets(&everything());
    let active = vec![true, false, true, false, false, true];
    assert_eq!(c.advance(&active, true), Some(2));
    assert_eq!(c.advance(&active, true), Some(5));
    assert_eq!(c.advance(&active, true), Some(0));
}

#[test]
fn auto_advance_with_nothing_active_stays() {
    let mut c = create_widgets(&everything());
    c.switch_to(QUOTES_WIDGET_ID);
    assert_eq!(c.advance(&vec![false; 6], true), None);
    assert_eq!(c.current_id(), QUOTES_WIDGET_ID);
}

#[test]
fn auto_advance_stays_on_sole_active_widget() {
    let mut c = create_widgets(&everything());
    c.switch_to(CLOCK_WIDGET_ID);
    let active = vec![false, false, true, false, false, false];
    assert_eq!(c.advance(&active, true), Some(2));
}

#[test]
fn switch_to_known_and_unknown_ids() {
    let mut sel = nothing();
    sel.daily_verse = true;
    let mut c = create_widgets(&sel);
    assert_eq!(c.switch_to(DAILY_VERSE_WIDGET_ID), Some(1));
    assert_eq!(c.current_id(), DAILY_VERSE_WIDGET_ID);
    assert_eq!(c.switch_to(WEATHER_WIDGET_ID), None);
    assert_eq!(c.current_id(), DAILY_VERSE_WIDGET_ID);
}

#[test]
fn deactivate_current_moves_only_when_inactive() {
    let mut c = create_widgets(&everything());
    c.switch_to(NOW_PLAYING_WIDGET_ID);
    let mut active = vec![true; 6];
    assert_eq!(c.deactivate_current(&active), None);
    assert_eq!(c.current_id(), NOW_PLAYING_WIDGET_ID);
    active[1] = false;
    assert_eq!(c.deactivate_current(&active), Some(2));
    assert_eq!(c.current_id(), CLOCK_WIDGET_ID);
}

#[test]
fn name_map_finds_each_enabled_widget() {
    let c = create_widgets(&everything());
    let map = c.widget_name_map();
    assert_eq!(map.get("homeassistant"), Some(0));
    assert_eq!(map.get("snapcast"), Some(1));
    assert_eq!(map.get("clock"), Some(2));
    assert_eq!(map.get("dailyverse"), Some(3));
    assert_eq!(map.get("quotes"), Some(4));
    assert_eq!(map.get("weather"), Some(5));
    let small = create_widgets(&nothing()).widget_name_map();
    assert_eq!(small.get("clock"), Some(2));
    assert_eq!(small.get("weather"), None);
    assert_eq!(widget_name(99), "");
}

#[test]
fn widget_ids_of_library_widgets() {
    let q = QuotesWidget::new(QuotesConfig { items: vec![] });
    let d = DailyVerseWidget::new(DailyVerseConfig { versions: None });
    let w = WeatherWidget::new(
        WeatherConfig {
            url: "http://ha:8123".to_string(),
            entity_id: "weather.home".to_string(),
            poll_interval_secs: None,
            forecast_days: None,
            forecast_type: None,
        },
        "t".to_string(),
    );
    assert_eq!(q.id(), QUOTES_WIDGET_ID);
    assert_eq!(d.id(), DAILY_VERSE_WIDGET_ID);
    assert_eq!(w.id(), WEATHER_WIDGET_ID);
    assert!(q.is_active() && d.is_active() && w.is_active());
}

#[test]
fn manual_full_turn_visits_each_widget_once() {
    for start in 0..3 {
        let mut sel = nothing();
        sel.snapcast = true;
        sel.quotes = true;
        let mut c = create_widgets(&sel);
        for _ in 0..start {
            c.advance(&vec![true; 3], false);
        }
        let from = c.current_position();
        let mut visited = Vec::new();
        for _ in 0..3 {
            visited.push(c.advance(&vec![false; 3], false).unwrap());
        }
        let mut sorted = visited.clone();
        sorted.sort();
        assert_eq!(sorted, vec![0, 1, 2]);
        assert_eq!(*visited.last().unwrap(), from);
    }
}
