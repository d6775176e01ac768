//! Names of files and profiles shared by the library and the program around it.

use vstd::prelude::*;

verus! {

pub const PACKAGE_NAME: &'static str = "PowerTools";

/// File (in the settings directory) holding the main settings profile.
pub const DEFAULT_SETTINGS_FILE: &'static str = "default_settings.json";

/// Name of the main settings profile.
pub const DEFAULT_SETTINGS_NAME: &'static str = "Main";

/// File (in the settings directory) caching the downloaded limits.
pub const LIMITS_FILE: &'static str = "limits_cache.json";

/// File (in the settings directory) holding the id of the last seen developer message.
pub const MESSAGE_SEEN_ID_FILE: &'static str = "seen_message.bin";

/// Version of the settings file format written by this library.
pub const LATEST_VERSION: u64 = 0;

} // verus!
