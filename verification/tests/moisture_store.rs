use smart_garden::MoistureStore;
use smart_garden::SensorReading;
use smart_garden::StoreError;

#[test]
fn record_accepts_the_whole_range() {
    let mut store = MoistureStore::new();
    for m in 0..=100i64 {
        assert_eq!(store.record_at(1, m, m), Ok(()));
    }
}

#[test]
fn record_rejects_out_of_range_and_persists_nothing() {
    let mut store = MoistureStore::new();
    assert_eq!(store.record_at(2, -1, 10), Err(StoreError::ValidationError));
    assert_eq!(store.record_at(2, 101, 20), Err(StoreError::ValidationError));
    assert_eq!(store.record_at(2, 150, 30), Err(StoreError::ValidationError));
    assert_eq!(store.latest(2), Err(StoreError::NotFound));
}

#[test]
fn latest_of_an_empty_store_is_not_found() {
    let store = MoistureStore::new();
    assert_eq!(store.latest(1), Err(StoreError::NotFound));
}

#[test]
fn latest_read_twice_returns_identical_results() {
    let mut store = MoistureStore::new();
    store.record_at(1, 42, 100).unwrap();
    store.record_at(1, 17, 200).unwrap();
    let first = store.latest(1);
    let second = store.latest(1);
    assert_eq!(first, second);
    assert_eq!(first, Ok(SensorReading { sensor_id: 1, moisture_content: 17, recorded_at: 200 }));
}

#[test]
fn latest_returns_the_newest_write() {
    let mut store = MoistureStore::new();
    store.record_at(7, 30, 100).unwrap();
    store.record_at(7, 5, 200).unwrap();
    assert_eq!(
        store.latest(7),
        Ok(SensorReading { sensor_id: 7, moisture_content: 5, recorded_at: 200 })
    );
}

#[test]
fn latest_on_a_timestamp_tie_takes_the_later_write() {
    let mut store = MoistureStore::new();
    store.record_at(7, 30, 100).unwrap();
    store.record_at(7, 5, 100).unwrap();
    assert_eq!(
        store.latest(7),
        Ok(SensorReading { sensor_id: 7, moisture_content: 5, recorded_at: 100 })
    );
}

#[test]
fn latest_ignores_other_sensors() {
    let mut store = MoistureStore::new();
    store.record_at(1, 30, 100).unwrap();
    store.record_at(2, 5, 200).unwrap();
    assert_eq!(
        store.latest(1),
        Ok(SensorReading { sensor_id: 1, moisture_content: 30, recorded_at: 100 })
    );
    assert_eq!(store.latest(3), Err(StoreError::NotFound));
}
