//! A battery whose only setting is the maximum charge rate, written to one sysfs file.

use vstd::prelude::*;

use crate::api::RangeLimit as ApiRange;
use crate::persist::{BatteryJson, DriverJson};
use crate::settings::util::{clamp, spec_clamp};
use crate::api::BatteryLimitsView;
use crate::settings::{BatteryView, TBattery};

verus! {

/// Where the maximum charge rate is written (write-only).
pub const BATTERY_CHARGE_RATE_PATH: &'static str = "/sys/class/hwmon/hwmon5/maximum_battery_charge_rate";

/// Where the present current is read (read-only).
pub const BATTERY_CURRENT_NOW_PATH: &'static str = "/sys/class/power_supply/BAT1/current_now";

/// The lowest charge rate, in mA.
pub const MIN_CHARGE_RATE: u64 = 250;

/// The highest charge rate, in mA: also the rate restored when the setting is unset.
pub const MAX_CHARGE_RATE: u64 = 2500;

/// Bookkeeping of what was written.
#[derive(Debug, Clone, Copy)]
pub struct BatteryState {
    /// A charge rate was written and must be undone when it is unset.
    pub charge_rate_set: bool,
}

/// A battery with a charge rate setting only.
#[derive(Debug, Clone)]
pub struct Battery {
    pub charge_rate: Option<u64>,
    pub state: BatteryState,
}

/// The charge rate to write when the settings are applied: the set rate, or the highest rate
/// when a rate written before was unset.
pub open spec fn charge_rate_write(b: Battery) -> Option<u64> {
    match b.charge_rate {
        Some(r) => Some(r),
        None => if b.state.charge_rate_set { Some(MAX_CHARGE_RATE) } else { None },
    }
}

impl Battery {
    /// Read persisted battery settings.
    pub fn from_json(other: BatteryJson, _version: u64) -> (r: Self)
        ensures
            r.charge_rate == other.charge_rate,
            !r.state.charge_rate_set,
    {
        Battery { charge_rate: other.charge_rate, state: BatteryState { charge_rate_set: false } }
    }

    /// Nothing set.
    pub fn system_default() -> (r: Self)
        ensures
            r.charge_rate is None,
            !r.state.charge_rate_set,
    {
        Battery { charge_rate: None, state: BatteryState { charge_rate_set: false } }
    }

    /// Bring the charge rate within the allowed range.
    pub fn clamp_all(&mut self)
        ensures
            final(self).charge_rate == match old(self).charge_rate {
                Some(r) => Some(spec_clamp(r, MIN_CHARGE_RATE, MAX_CHARGE_RATE)),
                None => None,
            },
            final(self).state == old(self).state,
    {
        if let Some(r) = self.charge_rate {
            self.charge_rate = Some(clamp(r, MIN_CHARGE_RATE, MAX_CHARGE_RATE));
        }
    }

    /// The charge rate to write to `BATTERY_CHARGE_RATE_PATH` when the settings are applied, if
    /// any, and the bookkeeping for it.
    pub fn set_all(&mut self) -> (r: Option<u64>)
        ensures
            r == charge_rate_write(*old(self)),
            final(self).charge_rate == old(self).charge_rate,
            final(self).state.charge_rate_set == old(self).charge_rate is Some,
    {
        match self.charge_rate {
            Some(r) => {
                self.state.charge_rate_set = true;
                Some(r)
            },
            None => if self.state.charge_rate_set {
                self.state.charge_rate_set = false;
                Some(MAX_CHARGE_RATE)
            } else {
                None
            },
        }
    }

    /// Apply new settings: clamp, then what `set_all` gives.
    pub fn on_set(&mut self) -> (r: Option<u64>)
        ensures
            final(self).charge_rate == match old(self).charge_rate {
                Some(x) => Some(spec_clamp(x, MIN_CHARGE_RATE, MAX_CHARGE_RATE)),
                None => None,
            },
            r == charge_rate_write(Battery { charge_rate: final(self).charge_rate, state: old(self).state }),
            final(self).state.charge_rate_set == old(self).charge_rate is Some,
    {
        self.clamp_all();
        self.set_all()
    }

    /// What to write again after a resume; the bookkeeping is left as it is.
    pub fn on_resume(&self) -> (r: Option<u64>)
        ensures
            r == charge_rate_write(*self),
    {
        match self.charge_rate {
            Some(r) => Some(r),
            None => if self.state.charge_rate_set { Some(MAX_CHARGE_RATE) } else { None },
        }
    }

    /// The present current in mA, from the reading of `BATTERY_CURRENT_NOW_PATH` in µA.
    pub fn current_now(microamps: u64) -> (r: u64)
        ensures
            r == microamps / 1000,
    {
        microamps / 1000
    }
}

impl TBattery for Battery {
    open spec fn battery_view(&self) -> BatteryView {
        BatteryView { charge_rate: self.charge_rate, charge_mode: None }
    }

    open spec fn provider_view(&self) -> DriverJson {
        DriverJson::AutoDetect
    }

    open spec fn after_charge_rate(&self, rate: Option<u64>) -> BatteryView {
        BatteryView { charge_rate: rate, charge_mode: None }
    }

    open spec fn after_charge_mode(&self, mode: Option<Seq<char>>) -> BatteryView {
        self.battery_view()
    }

    open spec fn battery_limits(&self) -> BatteryLimitsView {
        BatteryLimitsView {
            charge_current: Some(ApiRange { min: MIN_CHARGE_RATE, max: MAX_CHARGE_RATE }),
            charge_current_step: 50,
            charge_modes: Seq::empty(),
        }
    }

    fn limits(&self) -> (r: crate::api::BatteryLimits) {
        let r = crate::api::BatteryLimits {
            charge_current: Some(ApiRange { min: MIN_CHARGE_RATE, max: MAX_CHARGE_RATE }),
            charge_current_step: 50,
            charge_modes: Vec::new(),
        };
        assert(r.charge_modes.deep_view() =~= Seq::<Seq<char>>::empty());
        r
    }

    fn json(&self) -> (r: BatteryJson) {
        BatteryJson { charge_rate: self.charge_rate, charge_mode: None, events: Vec::new(), root: None }
    }

    fn charge_rate(&mut self, rate: Option<u64>) {
        self.charge_rate = rate;
    }

    fn get_charge_rate(&self) -> (r: Option<u64>) {
        self.charge_rate
    }

    fn charge_mode(&mut self, _mode: Option<String>) {
    }

    fn get_charge_mode(&self) -> (r: Option<String>) {
        None
    }

    fn provider(&self) -> (r: DriverJson) {
        DriverJson::AutoDetect
    }
}

} // verus!
