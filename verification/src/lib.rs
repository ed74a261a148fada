//! A small wrapper type for absolute points in time.
//!
//! The wrapper exists so that generated foreign-language bindings can surface
//! a dedicated temporal type in place of the default timestamp mapping. The
//! wrapper never interprets or mutates the value it carries: construction,
//! unwrapping and both conversions are total and lossless, and comparison and
//! equality delegate to the wrapped timestamp.

mod timestamp;

pub use timestamp::KotlinInstant;
pub use timestamp::Timestamp;
pub use timestamp::NANOS_PER_SEC;
pub use timestamp::lemma_wrap_unwrap;
pub use timestamp::lemma_unwrap_wrap;
pub use timestamp::lemma_from_epoch_secs_exact;
pub use timestamp::lemma_order_delegates;
pub use timestamp::lemma_order_matches_time;
