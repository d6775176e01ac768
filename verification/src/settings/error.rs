//! Errors raised while applying settings.

use vstd::prelude::*;

verus! {

/// Which part of the settings an error concerns.
#[derive(Debug, Clone, Copy, PartialEq, Eq, Structural)]
pub enum SettingVariant {
    Battery,
    Cpu,
    Gpu,
    General,
    Memory,
}

/// Display name of a settings part.
pub open spec fn variant_name(v: SettingVariant) -> Seq<char> {
    match v {
        SettingVariant::Battery => "Battery"@,
        SettingVariant::Cpu => "CPU"@,
        SettingVariant::Gpu => "GPU"@,
        SettingVariant::General => "General"@,
        SettingVariant::Memory => "Memory"@,
    }
}

impl SettingVariant {
    /// The display name of this settings part.
    pub fn name(&self) -> (r: &'static str)
        ensures
            r@ == variant_name(*self),
    {
        match self {
            SettingVariant::Battery => "Battery",
            SettingVariant::Cpu => "CPU",
            SettingVariant::Gpu => "GPU",
            SettingVariant::General => "General",
            SettingVariant::Memory => "Memory",
        }
    }
}

/// An error while applying a setting.
#[derive(Debug, Clone)]
pub struct SettingError {
    pub msg: String,
    pub setting: SettingVariant,
}

impl SettingError {
    /// The human-readable form of the error: `<part> setting error: <msg>`.
    pub fn describe(&self) -> (r: String)
        ensures
            r@ == variant_name(self.setting) + " setting error: "@ + self.msg@,
    {
        String::from_str(self.setting.name()).concat(" setting error: ").concat(self.msg.as_str())
    }
}

} // verus!
