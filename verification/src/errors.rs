//! Error taxonomy of the stores and of the decision engine.

use vstd::prelude::*;
use vstd::string::*;

use crate::numtext::i64_to_string;
use crate::numtext::int_digits;

verus! {

/// Failure of a store operation: input outside its domain, a query with no
/// matching data, or a failure of the underlying storage.
#[derive(Clone, Copy, Debug, PartialEq, Eq, Structural)]
pub enum StoreError {
    /// The input is outside the accepted domain and was rejected before
    /// anything was persisted.
    ValidationError,
    /// No data matches the query.
    NotFound,
    /// The underlying storage failed.
    StorageError,
}

/// Failure of a watering decision, reported to the caller of the decision
/// engine.
#[derive(Clone, Copy, Debug, PartialEq, Eq, Structural)]
pub enum DecisionError {
    /// The sensor has no readings at all.
    UnknownSensor(i64),
    /// The forecast lookup needed for the decision failed.
    ForecastUnavailable,
}

/// The explanatory text of a failed decision.
pub open spec fn decision_message_spec(e: DecisionError) -> Seq<char> {
    match e {
        DecisionError::UnknownSensor(sensor_id) => "no records for sensor_id: "@ + int_digits(
            sensor_id as int,
        ),
        DecisionError::ForecastUnavailable => "forecast unavailable"@,
    }
}

impl DecisionError {
    /// The explanatory text reported to the caller of a failed decision.
    pub fn message(&self) -> (r: String)
        ensures
            r@ == decision_message_spec(*self),
    {
        match self {
            DecisionError::UnknownSensor(sensor_id) => {
                let mut r = String::from_str("no records for sensor_id: ");
                let rendered = i64_to_string(*sensor_id);
                r.append(rendered.as_str());
                r
            },
            DecisionError::ForecastUnavailable => String::from_str("forecast unavailable"),
        }
    }
}

} // verus!
