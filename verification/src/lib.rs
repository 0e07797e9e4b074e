//! Boot-stage logging and self-testing facilities for a freestanding
//! firmware environment.
//!
//! The crate models the two services such an environment cannot borrow from
//! a hosted runtime: a severity-leveled logger that renders color-framed
//! records to a firmware text console and degrades gracefully when the
//! console refuses a write, and a sequential test harness that substitutes
//! for a conventional test runner. The console and timing services are
//! reached through traits, so the logic is checked once and runs against
//! either the firmware-backed sinks or the in-memory ones provided here.

pub mod boot;
pub mod console;
pub mod harness;
pub mod level;
pub mod logger;
pub mod render;
pub mod sim;
