//! Session status reporting: discovery of the latest usage and rate-limit
//! facts in a session log, the fallback policy between a live snapshot and
//! the log, and the exact text of every line of the report.

pub mod text;
pub mod usage;
pub mod json;
pub mod session;
pub mod report;
pub mod summary;
pub mod paths;
pub mod transcribe;
pub mod render;
