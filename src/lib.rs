//! Small accumulators for operational signals: a rate meter that turns counted
//! events into a rate over windows of time, and an aggregate meter that
//! summarises fixed-size batches of integer samples into their minimum, mean and
//! maximum.
pub mod aggregate;
pub mod error;
pub mod rate;
pub mod sample;

pub use aggregate::{AggregateMetric, Mean, MinMaxAvg};
pub use error::MetricError;
pub use rate::{Rate, RateMetric};
pub use sample::Sample;
