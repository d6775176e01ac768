//! Advanced Steam Deck battery: the charge-rate battery.

pub use crate::settings::battery::Battery;
