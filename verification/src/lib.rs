//! Irrigation decision service for networked soil-moisture sensors.
//!
//! The library keeps a store of sensor readings and a store of weather
//! forecast events, classifies the latest moisture reading of a sensor into
//! three tiers, and decides whether the sensor's zone should be watered now,
//! consulting the most recent forecast batch only in the ambiguous middle
//! tier.

mod clock;
mod decision;
mod errors;
mod forecast;
mod garden;
mod http;
mod moisture;
mod numtext;
mod scheduler;

pub use decision::RAIN_WINDOW_SECONDS;
pub use decision::check_water;
pub use decision::decide;
pub use decision::decide_spec;
pub use decision::lemma_critical_always_waters;
pub use decision::lemma_decision_reads_forecast_only_when_low;
pub use decision::lemma_low_follows_forecast;
pub use decision::lemma_plenty_never_waters;
pub use decision::should_water_at;
pub use decision::should_water_spec;
pub use errors::DecisionError;
pub use errors::StoreError;
pub use errors::decision_message_spec;
pub use forecast::ForecastEvent;
pub use forecast::ForecastEventView;
pub use forecast::ForecastStore;
pub use forecast::batch_is_wf;
pub use forecast::batch_wf;
pub use forecast::contains_rain;
pub use forecast::in_current_batch;
pub use forecast::lemma_batch_supersedes;
pub use forecast::mentions_rain;
pub use forecast::rain_at;
pub use forecast::rain_candidate;
pub use forecast::rain_expected_spec;
pub use garden::Garden;
pub use garden::log_echo_spec;
pub use garden::log_rejection_spec;
pub use http::hello;
pub use http::http_bad_request;
pub use http::http_bad_request_spec;
pub use http::http_ok;
pub use http::http_ok_spec;
pub use moisture::MoistureLevel;
pub use moisture::MoistureStore;
pub use moisture::SensorReading;
pub use moisture::classify;
pub use moisture::classify_spec;
pub use moisture::describe_moisture;
pub use moisture::latest_reading;
pub use moisture::lemma_latest_after_record;
pub use moisture::lemma_latest_is_max;
pub use moisture::lemma_latest_is_stored;
pub use moisture::lemma_latest_read_idempotent;
pub use moisture::valid_moisture;
pub use numtext::dec_digits;
pub use numtext::digit_char;
pub use numtext::i64_to_string;
pub use numtext::int_digits;
pub use numtext::u64_to_string;
pub use scheduler::RawForecast;
pub use scheduler::RawForecastView;
pub use scheduler::SchedulerAction;
pub use scheduler::SchedulerEvent;
pub use scheduler::SchedulerState;
pub use scheduler::lemma_failure_returns_to_idle;
pub use scheduler::scheduler_step;
pub use scheduler::scheduler_step_spec;
pub use scheduler::tag_batch;
pub use scheduler::tagged_view;
