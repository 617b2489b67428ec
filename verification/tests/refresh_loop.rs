use smart_garden::RawForecast;
use smart_garden::SchedulerAction;
use smart_garden::SchedulerEvent;
use smart_garden::SchedulerState;
use smart_garden::batch_is_wf;
use smart_garden::scheduler_step;
use smart_garden::tag_batch;

#[test]
fn the_loop_walks_idle_fetch_persist_idle() {
    assert_eq!(
        scheduler_step(SchedulerState::Idle, SchedulerEvent::TimerFired),
        Some((SchedulerState::Fetching, SchedulerAction::Fetch))
    );
    assert_eq!(
        scheduler_step(SchedulerState::Fetching, SchedulerEvent::FetchSucceeded),
        Some((SchedulerState::Persisting, SchedulerAction::Persist))
    );
    assert_eq!(
        scheduler_step(SchedulerState::Persisting, SchedulerEvent::PersistSucceeded),
        Some((SchedulerState::Idle, SchedulerAction::Sleep))
    );
}

#[test]
fn a_failed_cycle_returns_to_idle_and_sleeps() {
    assert_eq!(
        scheduler_step(SchedulerState::Fetching, SchedulerEvent::FetchFailed),
        Some((SchedulerState::Idle, SchedulerAction::Sleep))
    );
    assert_eq!(
        scheduler_step(SchedulerState::Persisting, SchedulerEvent::PersistFailed),
        Some((SchedulerState::Idle, SchedulerAction::Sleep))
    );
}

#[test]
fn impossible_pairs_have_no_transition() {
    assert_eq!(scheduler_step(SchedulerState::Idle, SchedulerEvent::FetchSucceeded), None);
    assert_eq!(scheduler_step(SchedulerState::Fetching, SchedulerEvent::TimerFired), None);
    assert_eq!(scheduler_step(SchedulerState::Persisting, SchedulerEvent::FetchFailed), None);
}

#[test]
fn tag_batch_stamps_one_batch_time_and_keeps_the_fields() {
    let raw = vec![
        RawForecast {
            forecast_time: 500,
            country: String::from("US"),
            city: String::from("Urbandale"),
            weather: String::from("Rain"),
            description: String::from("light rain"),
        },
        RawForecast {
            forecast_time: 600,
            country: String::from("US"),
            city: String::from("Urbandale"),
            weather: String::from("Clear"),
            description: String::from("clear sky"),
        },
    ];
    let events = tag_batch(&raw, 777);
    assert_eq!(events.len(), 2);
    assert!(events.iter().all(|e| e.batch_time == 777));
    assert_eq!(events[0].forecast_time, 500);
    assert_eq!(events[0].weather, "Rain");
    assert_eq!(events[0].description, "light rain");
    assert_eq!(events[1].forecast_time, 600);
    assert_eq!(events[1].country, "US");
    assert_eq!(events[1].city, "Urbandale");
    assert!(batch_is_wf(&events));
}
