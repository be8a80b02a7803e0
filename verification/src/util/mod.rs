//! Collections and text helpers.

pub mod laws;
pub mod string_map;
pub mod text;
pub mod time;
pub mod tracing_setup;
