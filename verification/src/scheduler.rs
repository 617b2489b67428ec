//! The background forecast-refresh loop, as a state machine from state and
//! event to next state and action. The loop's driver sleeps, fetches and
//! persists as the actions say; a failed cycle is skipped, never fatal.

use vstd::prelude::*;

use crate::forecast::ForecastEvent;
use crate::forecast::ForecastEventView;

verus! {

/// Phase of the refresh loop.
#[derive(Clone, Copy, Debug, PartialEq, Eq, Structural)]
pub enum SchedulerState {
    /// Waiting for the next interval to pass.
    Idle,
    /// A fetch from the forecast provider is under way.
    Fetching,
    /// A fetched batch is being written to the forecast store.
    Persisting,
}

/// What last happened to the refresh loop.
#[derive(Clone, Copy, Debug, PartialEq, Eq, Structural)]
pub enum SchedulerEvent {
    /// The interval passed.
    TimerFired,
    /// The fetch returned a parsable batch.
    FetchSucceeded,
    /// The fetch or the parse of its answer failed.
    FetchFailed,
    /// The batch was written.
    PersistSucceeded,
    /// Writing the batch failed partway; a partial batch may be stored.
    PersistFailed,
}

/// What the loop's driver is to do next.
#[derive(Clone, Copy, Debug, PartialEq, Eq, Structural)]
pub enum SchedulerAction {
    /// Sleep until the next interval.
    Sleep,
    /// Fetch a batch from the forecast provider, outside the store guard.
    Fetch,
    /// Tag the fetched batch with the current time and write it.
    Persist,
}

/// The transition table of the refresh loop. A fetch or persist failure
/// leads back to idle, so one bad cycle is skipped and the next interval
/// retried; `None` stands for a pair of state and event that the loop's
/// driver can never produce.
pub open spec fn scheduler_step_spec(state: SchedulerState, event: SchedulerEvent) -> Option<
    (SchedulerState, SchedulerAction),
> {
    match (state, event) {
        (SchedulerState::Idle, SchedulerEvent::TimerFired) => Some(
            (SchedulerState::Fetching, SchedulerAction::Fetch),
        ),
        (SchedulerState::Fetching, SchedulerEvent::FetchSucceeded) => Some(
            (SchedulerState::Persisting, SchedulerAction::Persist),
        ),
        (SchedulerState::Fetching, SchedulerEvent::FetchFailed) => Some(
            (SchedulerState::Idle, SchedulerAction::Sleep),
        ),
        (SchedulerState::Persisting, SchedulerEvent::PersistSucceeded) => Some(
            (SchedulerState::Idle, SchedulerAction::Sleep),
        ),
        (SchedulerState::Persisting, SchedulerEvent::PersistFailed) => Some(
            (SchedulerState::Idle, SchedulerAction::Sleep),
        ),
        _ => None,
    }
}

/// One step of the refresh loop.
pub fn scheduler_step(state: SchedulerState, event: SchedulerEvent) -> (r: Option<
    (SchedulerState, SchedulerAction),
>)
    ensures
        r == scheduler_step_spec(state, event),
{
    match (state, event) {
        (SchedulerState::Idle, SchedulerEvent::TimerFired) => Some(
            (SchedulerState::Fetching, SchedulerAction::Fetch),
        ),
        (SchedulerState::Fetching, SchedulerEvent::FetchSucceeded) => Some(
            (SchedulerState::Persisting, SchedulerAction::Persist),
        ),
        (SchedulerState::Fetching, SchedulerEvent::FetchFailed) => Some(
            (SchedulerState::Idle, SchedulerAction::Sleep),
        ),
        (SchedulerState::Persisting, SchedulerEvent::PersistSucceeded) => Some(
            (SchedulerState::Idle, SchedulerAction::Sleep),
        ),
        (SchedulerState::Persisting, SchedulerEvent::PersistFailed) => Some(
            (SchedulerState::Idle, SchedulerAction::Sleep),
        ),
        _ => None,
    }
}

/// A failed cycle never ends the loop: every defined transition on a
/// failure event returns the loop to idle, to sleep until the next
/// interval.
pub proof fn lemma_failure_returns_to_idle(state: SchedulerState, event: SchedulerEvent)
    requires
        event == SchedulerEvent::FetchFailed || event == SchedulerEvent::PersistFailed,
        scheduler_step_spec(state, event) is Some,
    ensures
        scheduler_step_spec(state, event) == Some(
            (SchedulerState::Idle, SchedulerAction::Sleep),
        ),
{
}

/// One forecast event as the fetch collaborator hands it over, before the
/// batch it belongs to is tagged with a batch time.
pub struct RawForecast {
    /// Unix seconds of the predicted moment.
    pub forecast_time: i64,
    pub country: String,
    pub city: String,
    /// Short weather category, such as "Rain" or "Clouds".
    pub weather: String,
    /// Free-text description of the predicted weather.
    pub description: String,
}

/// Mathematical image of a raw forecast event.
pub struct RawForecastView {
    pub forecast_time: int,
    pub country: Seq<char>,
    pub city: Seq<char>,
    pub weather: Seq<char>,
    pub description: Seq<char>,
}

impl View for RawForecast {
    type V = RawForecastView;

    open spec fn view(&self) -> RawForecastView {
        RawForecastView {
            forecast_time: self.forecast_time as int,
            country: self.country@,
            city: self.city@,
            weather: self.weather@,
            description: self.description@,
        }
    }
}

/// The raw event `raw`, tagged with `batch_time` and otherwise unchanged.
pub open spec fn tagged_view(raw: RawForecastView, batch_time: int) -> ForecastEventView {
    ForecastEventView {
        batch_time,
        forecast_time: raw.forecast_time,
        country: raw.country,
        city: raw.city,
        weather: raw.weather,
        description: raw.description,
    }
}

/// Maps the raw events of one fetch into forecast events sharing
/// `batch_time`, keeping their order and every field.
pub fn tag_batch(raw: &Vec<RawForecast>, batch_time: i64) -> (events: Vec<ForecastEvent>)
    ensures
        events@.len() == raw@.len(),
        forall|i: int|
            0 <= i < raw@.len() ==> (#[trigger] events@[i])@ == tagged_view(
                raw@[i]@,
                batch_time as int,
            ),
{
    let mut events: Vec<ForecastEvent> = Vec::new();
    let mut i: usize = 0;
    while i < raw.len()
        invariant
            i <= raw@.len(),
            events@.len() == i,
            forall|j: int|
                0 <= j < i ==> (#[trigger] events@[j])@ == tagged_view(raw@[j]@, batch_time as int),
        decreases raw@.len() - i,
    {
        let source = &raw[i];
        events.push(
            ForecastEvent {
                batch_time,
                forecast_time: source.forecast_time,
                country: source.country.clone(),
                city: source.city.clone(),
                weather: source.weather.clone(),
                description: source.description.clone(),
            },
        );
        i += 1;
    }
    events
}

} // verus!
