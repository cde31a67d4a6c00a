//! Verified user-space tooling around a kernel tracepoint monitor.
//!
//! The heart of the crate is the tracepoint controller, stream reader and
//! shutdown coordinator: pure decision logic whose filesystem effects are
//! described as data, so that enabling, streaming and cleanup can be stated
//! and proved. Smaller verified utilities (arithmetic helpers, a counter,
//! a traffic-light cycle, directory-listing rendering) sit beside it.

pub mod controller;
pub mod counter;
pub mod lights;
pub mod math;
pub mod monitor;
pub mod ownership;
pub mod quotes;
pub mod sampling;
pub mod stream;
pub mod tracefs;
pub mod tracepoint;
pub mod web;

pub use math::add;
pub use math::multiply;
