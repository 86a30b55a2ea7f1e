//! Processing paths.
pub mod instant;
