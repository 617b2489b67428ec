use smart_garden::ForecastEvent;
use smart_garden::ForecastStore;
use smart_garden::StoreError;
use smart_garden::batch_is_wf;
use smart_garden::contains_rain;

fn event(batch_time: i64, forecast_time: i64, weather: &str) -> ForecastEvent {
    ForecastEvent {
        batch_time,
        forecast_time,
        country: String::from("US"),
        city: String::from("Urbandale"),
        weather: String::from(weather),
        description: String::from(weather),
    }
}

#[test]
fn contains_rain_matches_case_insensitively() {
    assert!(contains_rain("Rain"));
    assert!(contains_rain("RAIN"));
    assert!(contains_rain("light rain"));
    assert!(contains_rain("torrential RaInfall"));
    assert!(!contains_rain("Clouds"));
    assert!(!contains_rain("sunny"));
    assert!(!contains_rain("rai"));
    assert!(!contains_rain(""));
}

#[test]
fn rain_expected_without_data_is_false() {
    let store = ForecastStore::new();
    assert_eq!(store.rain_expected(0, 1000), Ok(false));
}

#[test]
fn rain_expected_sees_rain_inside_the_window() {
    let mut store = ForecastStore::new();
    store.record_batch(vec![
        event(100, 500, "Clouds"),
        event(100, 600, "Rain"),
        event(100, 700, "Clear"),
    ]).unwrap();
    assert_eq!(store.rain_expected(400, 800), Ok(true));
    assert_eq!(store.rain_expected(550, 650), Ok(true));
}

#[test]
fn rain_expected_ignores_rain_outside_the_window() {
    let mut store = ForecastStore::new();
    store.record_batch(vec![event(100, 500, "Clouds"), event(100, 600, "Rain")]).unwrap();
    assert_eq!(store.rain_expected(100, 550), Ok(false));
    assert_eq!(store.rain_expected(650, 900), Ok(false));
}

#[test]
fn rain_expected_window_boundaries_are_inclusive() {
    let mut store = ForecastStore::new();
    store.record_batch(vec![event(100, 600, "Rain")]).unwrap();
    assert_eq!(store.rain_expected(600, 600), Ok(true));
    assert_eq!(store.rain_expected(601, 700), Ok(false));
    assert_eq!(store.rain_expected(500, 599), Ok(false));
}

#[test]
fn a_later_batch_supersedes_an_earlier_one() {
    let mut store = ForecastStore::new();
    store.record_batch(vec![event(100, 500, "Rain")]).unwrap();
    assert_eq!(store.rain_expected(400, 800), Ok(true));
    store.record_batch(vec![event(200, 500, "Clear"), event(200, 600, "Clouds")]).unwrap();
    assert_eq!(store.rain_expected(400, 800), Ok(false));
}

#[test]
fn a_later_rainy_batch_also_supersedes() {
    let mut store = ForecastStore::new();
    store.record_batch(vec![event(100, 500, "Clear")]).unwrap();
    assert_eq!(store.rain_expected(400, 800), Ok(false));
    store.record_batch(vec![event(200, 500, "Rain")]).unwrap();
    assert_eq!(store.rain_expected(400, 800), Ok(true));
}

#[test]
fn record_batch_rejects_a_mixed_batch_time() {
    let mut store = ForecastStore::new();
    let r = store.record_batch(vec![event(100, 500, "Rain"), event(101, 600, "Rain")]);
    assert_eq!(r, Err(StoreError::ValidationError));
    assert_eq!(store.rain_expected(0, 1000), Ok(false));
}

#[test]
fn record_batch_rejects_unordered_forecast_times() {
    let mut store = ForecastStore::new();
    let r = store.record_batch(vec![event(100, 600, "Rain"), event(100, 500, "Rain")]);
    assert_eq!(r, Err(StoreError::ValidationError));
    let r = store.record_batch(vec![event(100, 600, "Rain"), event(100, 600, "Rain")]);
    assert_eq!(r, Err(StoreError::ValidationError));
    assert_eq!(store.rain_expected(0, 1000), Ok(false));
}

#[test]
fn batch_is_wf_checks_both_invariants() {
    assert!(batch_is_wf(&vec![]));
    assert!(batch_is_wf(&vec![event(100, 500, "Rain")]));
    assert!(batch_is_wf(&vec![event(100, 500, "Rain"), event(100, 600, "Clear")]));
    assert!(!batch_is_wf(&vec![event(100, 500, "Rain"), event(101, 600, "Clear")]));
    assert!(!batch_is_wf(&vec![event(100, 600, "Rain"), event(100, 500, "Clear")]));
    assert!(!batch_is_wf(&vec![event(100, 500, "Rain"), event(100, 500, "Clear")]));
}
