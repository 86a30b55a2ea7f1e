//! Task management: model, lifecycle, hierarchy, discovery and sync.
pub mod create;
pub mod discovery;
pub mod discovery_ai;
pub mod discovery_confirm;
pub mod hierarchy;
pub mod lifecycle;
pub mod manager;
pub mod model;
pub mod discovery_text;
pub mod discovery_email;
pub mod discovery_meeting;
pub mod discovery_message;
pub mod sync;
