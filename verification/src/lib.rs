//! Core of a mergeable aggregate-function engine for columnar query
//! execution: per-group accumulator states live in an externally owned
//! arena, are filled from column batches, travel between workers as a
//! fixed little-endian byte encoding, and are combined pairwise so that
//! partial aggregation over disjoint row sets yields the statistics of
//! their union.
//!
//! The exemplar aggregate is streaming bivariate covariance (sample and
//! population variants). All 64-bit floating-point values are carried as
//! their IEEE-754 bit patterns (`u64`); the arithmetic itself is performed
//! by a software implementation of IEEE-754 behind a small set of trusted
//! wrappers, and every contract pins the exact sequence of rounded
//! operations the algorithm performs.

pub mod aggregate_covariance;
pub mod codec;
pub mod datavalues;
pub mod float_bits;
pub mod state;

pub use datavalues::DataField;
pub use datavalues::DataSchema;
pub use datavalues::DataType;
pub use datavalues::DataValue;
pub use datavalues::ErrorCode;
pub use datavalues::Series;
pub use state::AggregateCovarianceState;
pub use state::StateAddr;
pub use state::StateArena;
pub use aggregate_covariance::aggregate_covariance_population_desc;
pub use aggregate_covariance::aggregate_covariance_sample_desc;
pub use aggregate_covariance::try_create_aggregate_covariance;
pub use aggregate_covariance::AggregateCovariance;
pub use aggregate_covariance::AggregateCovarianceFunction;
pub use aggregate_covariance::AggregateCovariancePopulationImpl;
pub use aggregate_covariance::AggregateCovarianceSampleImpl;
pub use aggregate_covariance::AggregateFunctionDescription;
pub use aggregate_covariance::AggregateFunctionInstance;
pub use aggregate_covariance::CovarianceVariant;
