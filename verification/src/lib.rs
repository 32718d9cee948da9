//! Notification engine for domain sales and auto-renewal toggles.

pub mod address;
pub mod delivery;
pub mod docs;
pub mod expiry;
pub mod hex;
pub mod laws;
pub mod log;
pub mod pass;
pub mod plan;
pub mod request;
pub mod store;
