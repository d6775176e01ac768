pub mod cpu;
pub mod general;
pub mod handler;
pub mod memory;
pub mod message;
pub mod types;

pub use types::{
    BatteryLimits, BatteryLimitsView, CpuLimits, CpuLimitsView, CpusLimits, CpusLimitsView, GeneralLimits,
    GpuLimits, RangeLimit, SettingsLimits, SettingsLimitsView,
};
