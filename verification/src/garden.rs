//! The shared datastore and the operations the request handlers and the
//! refresh loop perform on it, stamped with the wall clock.

use vstd::prelude::*;
use vstd::string::*;

use crate::clock::now_seconds;
use crate::decision::RAIN_WINDOW_SECONDS;
use crate::decision::should_water_at;
use crate::decision::should_water_spec;
use crate::errors::DecisionError;
use crate::errors::StoreError;
use crate::errors::decision_message_spec;
use crate::forecast::ForecastEvent;
use crate::forecast::ForecastStore;
use crate::forecast::batch_wf;
use crate::forecast::rain_expected_spec;
use crate::http::http_bad_request;
use crate::http::http_bad_request_spec;
use crate::http::http_ok;
use crate::http::http_ok_spec;
use crate::moisture::MoistureLevel;
use crate::moisture::MoistureStore;
use crate::moisture::SensorReading;
use crate::moisture::classify_spec;
use crate::moisture::latest_reading;
use crate::moisture::valid_moisture;
use crate::numtext::i64_to_string;
use crate::numtext::int_digits;

verus! {

/// The echo text answering a successful log request.
pub open spec fn log_echo_spec(sensor_id: int, moisture_content: int) -> Seq<char> {
    "sensor #"@ + int_digits(sensor_id) + " has moister content "@ + int_digits(moisture_content)
}

/// The rejection text answering a log request whose moisture value is out
/// of range.
pub open spec fn log_rejection_spec() -> Seq<char> {
    "moisture_content must be an integer between 0 to 100"@
}

/// The whole datastore: the one handle through which readings and
/// forecasts are read and written. A process owns a single `Garden` behind
/// one mutual-exclusion guard; each public operation here is one logical
/// store operation, performed while holding the guard, and the guard is
/// never held across a fetch from the forecast provider.
pub struct Garden {
    pub moisture: MoistureStore,
    pub forecast: ForecastStore,
}

impl Garden {
    /// A store with no readings and no forecasts.
    pub fn new() -> (garden: Garden)
        ensures
            garden.moisture@ == Seq::<SensorReading>::empty(),
            garden.forecast@ == Seq::<crate::forecast::ForecastEventView>::empty(),
            garden.moisture.wf(),
    {
        Garden { moisture: MoistureStore::new(), forecast: ForecastStore::new() }
    }

    /// Appends a reading of `sensor_id` taken at the current wall-clock
    /// time. A moisture value outside [0, 100] is rejected and nothing is
    /// persisted.
    pub fn record(&mut self, sensor_id: i64, moisture_content: i64) -> (r: Result<(), StoreError>)
        ensures
            valid_moisture(moisture_content as int) ==> {
                &&& r == Ok::<(), StoreError>(())
                &&& final(self).moisture@.len() == old(self).moisture@.len() + 1
                &&& final(self).moisture@.subrange(0, old(self).moisture@.len() as int) == old(
                    self,
                ).moisture@
                &&& final(self).moisture@.last().sensor_id == sensor_id
                &&& final(self).moisture@.last().moisture_content == moisture_content
            },
            !valid_moisture(moisture_content as int) ==> {
                &&& r == Err::<(), StoreError>(StoreError::ValidationError)
                &&& final(self).moisture@ == old(self).moisture@
            },
            final(self).forecast@ == old(self).forecast@,
            old(self).moisture.wf() ==> final(self).moisture.wf(),
    {
        let now = now_seconds();
        let r = self.moisture.record_at(sensor_id, moisture_content, now);
        proof {
            if valid_moisture(moisture_content as int) {
                assert(self.moisture@.subrange(0, old(self).moisture@.len() as int) =~= old(
                    self,
                ).moisture@);
            }
        }
        r
    }

    /// The reading of `sensor_id` with the greatest `recorded_at`, the last
    /// written one on ties; `NotFound` if the sensor has no readings.
    pub fn latest(&self, sensor_id: i64) -> (r: Result<SensorReading, StoreError>)
        ensures
            r == match latest_reading(self.moisture@, sensor_id) {
                Some(reading) => Ok::<SensorReading, StoreError>(reading),
                None => Err::<SensorReading, StoreError>(StoreError::NotFound),
            },
    {
        self.moisture.latest(sensor_id)
    }

    /// Persists all events of one fetch; see the forecast store for the
    /// batch it accepts and the weak partial-batch guarantee.
    pub fn record_batch(&mut self, events: Vec<ForecastEvent>) -> (r: Result<(), StoreError>)
        ensures
            batch_wf(events@.map_values(|e: ForecastEvent| e@)) ==> {
                &&& r == Ok::<(), StoreError>(())
                &&& final(self).forecast@ == old(self).forecast@ + events@.map_values(
                    |e: ForecastEvent| e@,
                )
            },
            !batch_wf(events@.map_values(|e: ForecastEvent| e@)) ==> {
                &&& r == Err::<(), StoreError>(StoreError::ValidationError)
                &&& final(self).forecast@ == old(self).forecast@
            },
            final(self).moisture == old(self).moisture,
    {
        self.forecast.record_batch(events)
    }

    /// Whether rain is expected inside `[window_start, window_end]`
    /// according to the current forecast batch; `Ok(false)` with no data.
    pub fn rain_expected(&self, window_start: i64, window_end: i64) -> (r: Result<
        bool,
        StoreError,
    >)
        ensures
            r == Ok::<bool, StoreError>(
                rain_expected_spec(self.forecast@, window_start as int, window_end as int),
            ),
    {
        self.forecast.rain_expected(window_start, window_end)
    }

    /// The watering decision for `sensor_id` at the current wall-clock
    /// time: decided by the latest reading's tier alone outside the low
    /// tier, and by the rain window of the next twelve hours inside it.
    pub fn should_water(&self, sensor_id: i64) -> (r: Result<bool, DecisionError>)
        ensures
            exists|now: int|
                r == should_water_spec(self.moisture@, self.forecast@, sensor_id, now),
            match latest_reading(self.moisture@, sensor_id) {
                None => r == Err::<bool, DecisionError>(DecisionError::UnknownSensor(sensor_id)),
                Some(reading) => match classify_spec(reading.moisture_content as int) {
                    MoistureLevel::Plenty => r == Ok::<bool, DecisionError>(false),
                    MoistureLevel::Critical => r == Ok::<bool, DecisionError>(true),
                    MoistureLevel::Low => r is Ok,
                },
            },
    {
        let now = now_seconds();
        let now = if now <= i64::MAX - RAIN_WINDOW_SECONDS {
            now
        } else {
            i64::MAX - RAIN_WINDOW_SECONDS
        };
        let r = should_water_at(&self.moisture, &self.forecast, sensor_id, now);
        proof {
            assert(r == should_water_spec(self.moisture@, self.forecast@, sensor_id, now as int));
        }
        r
    }

    /// The text answering the watering endpoint at time `now`: "yes" or
    /// "no" framed as a success answer, or a failed decision's message
    /// framed as a client error.
    pub fn can_i_water_at(&self, sensor_id: i64, now: i64) -> (r: String)
        requires
            now <= i64::MAX - RAIN_WINDOW_SECONDS,
        ensures
            r@ == (match should_water_spec(self.moisture@, self.forecast@, sensor_id, now as int) {
                Ok(true) => http_ok_spec("yes"@),
                Ok(false) => http_ok_spec("no"@),
                Err(e) => http_bad_request_spec(decision_message_spec(e)),
            }),
    {
        match should_water_at(&self.moisture, &self.forecast, sensor_id, now) {
            Ok(watering) => {
                if watering {
                    http_ok(&String::from_str("yes"))
                } else {
                    http_ok(&String::from_str("no"))
                }
            },
            Err(e) => http_bad_request(&e.message()),
        }
    }

    /// The text answering the watering endpoint at the current wall-clock
    /// time.
    pub fn can_i_water(&self, sensor_id: i64) -> (r: String)
        ensures
            exists|now: int|
                r@ == (match #[trigger] should_water_spec(
                    self.moisture@,
                    self.forecast@,
                    sensor_id,
                    now,
                ) {
                    Ok(true) => http_ok_spec("yes"@),
                    Ok(false) => http_ok_spec("no"@),
                    Err(e) => http_bad_request_spec(decision_message_spec(e)),
                }),
            match latest_reading(self.moisture@, sensor_id) {
                None => r@ == http_bad_request_spec(
                    decision_message_spec(DecisionError::UnknownSensor(sensor_id)),
                ),
                Some(reading) => match classify_spec(reading.moisture_content as int) {
                    MoistureLevel::Plenty => r@ == http_ok_spec("no"@),
                    MoistureLevel::Critical => r@ == http_ok_spec("yes"@),
                    MoistureLevel::Low => r@ == http_ok_spec("yes"@) || r@ == http_ok_spec("no"@),
                },
            },
    {
        let now = now_seconds();
        let now = if now <= i64::MAX - RAIN_WINDOW_SECONDS {
            now
        } else {
            i64::MAX - RAIN_WINDOW_SECONDS
        };
        let r = self.can_i_water_at(sensor_id, now);
        proof {
            assert(r@ == (match should_water_spec(
                self.moisture@,
                self.forecast@,
                sensor_id,
                now as int,
            ) {
                Ok(true) => http_ok_spec("yes"@),
                Ok(false) => http_ok_spec("no"@),
                Err(e) => http_bad_request_spec(decision_message_spec(e)),
            }));
        }
        r
    }

    /// Handles one log request: a moisture value in range is persisted with
    /// the current wall-clock time and echoed back as a success answer; one
    /// out of range is rejected with a client-error answer and nothing is
    /// persisted.
    pub fn log(&mut self, sensor_id: i64, moisture_content: i64) -> (r: String)
        ensures
            valid_moisture(moisture_content as int) ==> {
                &&& final(self).moisture@.len() == old(self).moisture@.len() + 1
                &&& final(self).moisture@.subrange(0, old(self).moisture@.len() as int) == old(
                    self,
                ).moisture@
                &&& final(self).moisture@.last().sensor_id == sensor_id
                &&& final(self).moisture@.last().moisture_content == moisture_content
                &&& r@ == http_ok_spec(log_echo_spec(sensor_id as int, moisture_content as int))
            },
            !valid_moisture(moisture_content as int) ==> {
                &&& final(self).moisture@ == old(self).moisture@
                &&& r@ == http_bad_request_spec(log_rejection_spec())
            },
            final(self).forecast@ == old(self).forecast@,
            old(self).moisture.wf() ==> final(self).moisture.wf(),
    {
        if moisture_content > 100 || moisture_content < 0 {
            let msg = String::from_str("moisture_content must be an integer between 0 to 100");
            http_bad_request(&msg)
        } else {
            let now = now_seconds();
            let _ = self.moisture.record_at(sensor_id, moisture_content, now);
            proof {
                assert(self.moisture@.subrange(0, old(self).moisture@.len() as int) =~= old(
                    self,
                ).moisture@);
            }
            let mut msg = String::from_str("sensor #");
            let sensor_text = i64_to_string(sensor_id);
            msg.append(sensor_text.as_str());
            msg.append(" has moister content ");
            let moisture_text = i64_to_string(moisture_content);
            msg.append(moisture_text.as_str());
            http_ok(&msg)
        }
    }
}

} // verus!
