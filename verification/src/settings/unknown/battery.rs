//! Battery of a device that no limits config describes: nothing can be set.

use vstd::prelude::*;


use crate::persist::{BatteryJson, DriverJson};
use crate::api::BatteryLimitsView;
use crate::settings::{BatteryView, TBattery};

verus! {

/// The battery of an unknown device. It names no driver of its own: its provider is `AutoDetect`.
#[derive(Debug, Clone, Copy)]
pub struct Battery;

/// The view of a battery where nothing can be set.
pub open spec fn unknown_battery_view() -> BatteryView {
    BatteryView { charge_rate: None, charge_mode: None }
}

impl Battery {
    /// Persisted settings are ignored.
    pub fn from_json(_other: BatteryJson, _version: u64) -> (r: Self) {
        Battery
    }
}

impl TBattery for Battery {
    open spec fn battery_view(&self) -> BatteryView {
        unknown_battery_view()
    }

    open spec fn provider_view(&self) -> DriverJson {
        DriverJson::AutoDetect
    }

    open spec fn after_charge_rate(&self, rate: Option<u64>) -> BatteryView {
        unknown_battery_view()
    }

    open spec fn after_charge_mode(&self, mode: Option<Seq<char>>) -> BatteryView {
        unknown_battery_view()
    }

    open spec fn battery_limits(&self) -> BatteryLimitsView {
        BatteryLimitsView { charge_current: None, charge_current_step: 50, charge_modes: Seq::empty() }
    }

    fn limits(&self) -> (r: crate::api::BatteryLimits) {
        let r = crate::api::BatteryLimits { charge_current: None, charge_current_step: 50, charge_modes: Vec::new() };
        assert(r.charge_modes.deep_view() =~= Seq::<Seq<char>>::empty());
        r
    }

    fn json(&self) -> (r: BatteryJson) {
        BatteryJson { charge_rate: None, charge_mode: None, events: Vec::new(), root: None }
    }

    fn charge_rate(&mut self, _rate: Option<u64>) {
    }

    fn get_charge_rate(&self) -> (r: Option<u64>) {
        None
    }

    fn charge_mode(&mut self, _mode: Option<String>) {
    }

    fn get_charge_mode(&self) -> (r: Option<String>) {
        None
    }

    fn provider(&self) -> (r: DriverJson) {
        DriverJson::AutoDetect
    }
}

} // verus!
