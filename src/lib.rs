//! Check-in processing, threshold validation and edge-triggered alerting for
//! remotely monitored nodes.
pub mod text;
pub mod models;
pub mod validation;
pub mod alerting;
pub mod notice;
pub mod store;
pub mod lifecycle;
pub mod email;
