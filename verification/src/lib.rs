//! Inverted-throughput reporting for a benchmarking harness.
//!
//! A throughput report says how many elements or bytes one iteration
//! processes per unit of time; the inverted report says how much time one
//! element or byte costs. This library holds the verified core of that
//! inversion: the model of a throughput declaration (a count of elements
//! or bytes per iteration) and the closed table that combines a time-unit
//! label chosen by the host's time formatter with the declaration's
//! category into a compound label such as `ns/elem` or `µs/byte`.
//!
//! Scaling the raw samples themselves is floating-point work performed by
//! the surrounding harness adapter; it is out of this library's scope.

pub mod label;
pub mod throughput;

pub use label::TimeUnit;
pub use label::compound_label;
pub use label::parse_category;
pub use label::parse_time_unit;
pub use label::static_denom;
pub use throughput::Category;
pub use throughput::ThroughputSpec;
