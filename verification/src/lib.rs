//! Work Better core logic: scheduling decisions and event-processing rules.
pub mod clock;
pub mod processor;
pub mod scheduler;
pub mod store;
pub mod text;
