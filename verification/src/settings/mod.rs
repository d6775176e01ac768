pub mod battery;
pub mod detect;
pub mod driver;
pub mod error;
pub mod general;
pub mod generic;
pub mod generic_amd;
pub mod memory;
pub mod min_max;
pub mod state;
pub mod steam_deck;
pub mod steam_deck_adv;
pub mod system;
pub mod traits;
pub mod unknown;
pub mod util;

pub use error::{SettingError, SettingVariant};
pub use min_max::{min_max_from_json, MinMax};
pub use traits::{BatteryView, CpuView, GpuView, TBattery, TCpu, TCpus, TGpu};
pub use memory::{Memory, TransparentHugepages, TransparentHugepagesParseError};
