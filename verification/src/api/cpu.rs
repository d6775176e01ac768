//! CPU requests answered without the settings.

use vstd::prelude::*;

use crate::settings::{SettingError, SettingVariant};

verus! {

/// The number of CPUs for the front-end, from the CPU count the system gave (`None` when the
/// kernel's CPU range could not be parsed).
pub fn max_cpus(cpu_count: Option<usize>) -> (r: Result<u64, SettingError>)
    ensures
        match cpu_count {
            Some(c) => r == Ok::<u64, SettingError>(c as u64),
            None => r matches Err(e) && e.msg@ == "Failed to parse CPU count"@ && e.setting == SettingVariant::Cpu,
        },
{
    match cpu_count {
        Some(c) => Ok(c as u64),
        None => Err(SettingError { msg: String::from_str("Failed to parse CPU count"), setting: SettingVariant::Cpu }),
    }
}

} // verus!
