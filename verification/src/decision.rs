//! The watering decision: a three-tier classifier gated by a conditional
//! rain lookup in the ambiguous middle tier.

use vstd::prelude::*;

use crate::errors::DecisionError;
use crate::errors::StoreError;
use crate::forecast::ForecastEventView;
use crate::forecast::ForecastStore;
use crate::forecast::rain_expected_spec;
use crate::moisture::MoistureLevel;
use crate::moisture::MoistureStore;
use crate::moisture::SensorReading;
use crate::moisture::classify_spec;
use crate::moisture::describe_moisture;
use crate::moisture::latest_reading;

verus! {

/// Length in seconds of the twelve-hour window ahead that the rain check
/// covers.
pub const RAIN_WINDOW_SECONDS: i64 = 43200;

/// The decision a tier and the outcome of the rain lookup resolve to:
/// plenty of water never waters, a critical level always waters, and the
/// low tier waters exactly when no rain is expected; a failed lookup in the
/// low tier is reported as `ForecastUnavailable`.
pub open spec fn decide_spec(level: MoistureLevel, rain_lookup: Result<bool, StoreError>) -> Result<
    bool,
    DecisionError,
> {
    match level {
        MoistureLevel::Plenty => Ok(false),
        MoistureLevel::Critical => Ok(true),
        MoistureLevel::Low => match rain_lookup {
            Ok(rain) => Ok(!rain),
            Err(_) => Err(DecisionError::ForecastUnavailable),
        },
    }
}

/// Resolves a tier and the outcome of the rain lookup into the watering
/// decision. Only the low tier reads the lookup's outcome at all.
pub fn decide(level: MoistureLevel, rain_lookup: Result<bool, StoreError>) -> (r: Result<
    bool,
    DecisionError,
>)
    ensures
        r == decide_spec(level, rain_lookup),
{
    match level {
        MoistureLevel::Plenty => Ok(false),
        MoistureLevel::Critical => Ok(true),
        MoistureLevel::Low => match rain_lookup {
            Ok(rain) => Ok(!rain),
            Err(_) => Err(DecisionError::ForecastUnavailable),
        },
    }
}

/// The watering decision for a sensor, over the mathematical state of the
/// two stores: the latest reading's tier decides alone in the plenty and
/// critical tiers, and consults the rain window `[now, now + 12h]` in the
/// low tier. A sensor with no readings is unknown.
pub open spec fn should_water_spec(
    readings: Seq<SensorReading>,
    events: Seq<ForecastEventView>,
    sensor_id: i64,
    now: int,
) -> Result<bool, DecisionError> {
    match latest_reading(readings, sensor_id) {
        None => Err(DecisionError::UnknownSensor(sensor_id)),
        Some(reading) => match classify_spec(reading.moisture_content as int) {
            MoistureLevel::Plenty => Ok(false),
            MoistureLevel::Critical => Ok(true),
            MoistureLevel::Low => Ok(
                !rain_expected_spec(events, now, now + RAIN_WINDOW_SECONDS as int),
            ),
        },
    }
}

/// The decision for one already-fetched reading: no watering on plenty of
/// water, watering on a critical level, and otherwise the rain lookup over
/// the next twelve hours decides. The forecast store is consulted only in
/// the low tier.
pub fn check_water(forecast: &ForecastStore, garden_record: &SensorReading, now: i64) -> (r: Result<
    bool,
    DecisionError,
>)
    requires
        now <= i64::MAX - RAIN_WINDOW_SECONDS,
    ensures
        r == (match classify_spec(garden_record.moisture_content as int) {
            MoistureLevel::Plenty => Ok::<bool, DecisionError>(false),
            MoistureLevel::Critical => Ok::<bool, DecisionError>(true),
            MoistureLevel::Low => Ok::<bool, DecisionError>(
                !rain_expected_spec(forecast@, now as int, now + RAIN_WINDOW_SECONDS as int),
            ),
        }),
{
    let moisture_level = describe_moisture(garden_record);
    match moisture_level {
        MoistureLevel::Plenty => Ok(false),
        MoistureLevel::Critical => Ok(true),
        MoistureLevel::Low => decide(
            MoistureLevel::Low,
            forecast.rain_expected(now, now + RAIN_WINDOW_SECONDS),
        ),
    }
}

/// The watering decision for a sensor at time `now`: the latest reading's
/// tier, gated by the rain window `[now, now + 12h]` in the low tier.
pub fn should_water_at(
    moisture: &MoistureStore,
    forecast: &ForecastStore,
    sensor_id: i64,
    now: i64,
) -> (r: Result<bool, DecisionError>)
    requires
        now <= i64::MAX - RAIN_WINDOW_SECONDS,
    ensures
        r == should_water_spec(moisture@, forecast@, sensor_id, now as int),
{
    match moisture.latest(sensor_id) {
        Ok(garden_record) => check_water(forecast, &garden_record, now),
        Err(_) => Err(DecisionError::UnknownSensor(sensor_id)),
    }
}

/// With plenty of water the decision is no watering, whatever the forecast
/// store holds: the decision does not touch the forecast state.
pub proof fn lemma_plenty_never_waters(
    readings: Seq<SensorReading>,
    events: Seq<ForecastEventView>,
    sensor_id: i64,
    now: int,
)
    requires
        latest_reading(readings, sensor_id) is Some,
        classify_spec(latest_reading(readings, sensor_id)->Some_0.moisture_content as int)
            == MoistureLevel::Plenty,
    ensures
        should_water_spec(readings, events, sensor_id, now) == Ok::<bool, DecisionError>(false),
{
}

/// At a critical moisture level the decision is to water, whatever the
/// forecast store holds: the decision does not touch the forecast state.
pub proof fn lemma_critical_always_waters(
    readings: Seq<SensorReading>,
    events: Seq<ForecastEventView>,
    sensor_id: i64,
    now: int,
)
    requires
        latest_reading(readings, sensor_id) is Some,
        classify_spec(latest_reading(readings, sensor_id)->Some_0.moisture_content as int)
            == MoistureLevel::Critical,
    ensures
        should_water_spec(readings, events, sensor_id, now) == Ok::<bool, DecisionError>(true),
{
}

/// Outside the low tier the decision is a function of the moisture store
/// alone: two arbitrary forecast states yield the same outcome.
pub proof fn lemma_decision_reads_forecast_only_when_low(
    readings: Seq<SensorReading>,
    events1: Seq<ForecastEventView>,
    events2: Seq<ForecastEventView>,
    sensor_id: i64,
    now: int,
)
    requires
        match latest_reading(readings, sensor_id) {
            Some(reading) => classify_spec(reading.moisture_content as int) != MoistureLevel::Low,
            None => true,
        },
    ensures
        should_water_spec(readings, events1, sensor_id, now) == should_water_spec(
            readings,
            events2,
            sensor_id,
            now,
        ),
{
}

/// In the low tier the decision follows the forecast exactly: water if and
/// only if no rain is expected inside the next twelve hours.
pub proof fn lemma_low_follows_forecast(
    readings: Seq<SensorReading>,
    events: Seq<ForecastEventView>,
    sensor_id: i64,
    now: int,
)
    requires
        latest_reading(readings, sensor_id) is Some,
        classify_spec(latest_reading(readings, sensor_id)->Some_0.moisture_content as int)
            == MoistureLevel::Low,
    ensures
        should_water_spec(readings, events, sensor_id, now) == Ok::<bool, DecisionError>(
            !rain_expected_spec(events, now, now + RAIN_WINDOW_SECONDS as int),
        ),
{
}

} // verus!
