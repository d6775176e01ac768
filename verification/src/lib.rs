//! Power and performance settings model for handheld and generic Linux devices:
//! hardware limits, persisted settings, per-platform drivers and the message
//! processing that applies user requests to them.

pub mod api;
pub mod consts;
pub mod limits;
pub mod persist;
pub mod settings;
