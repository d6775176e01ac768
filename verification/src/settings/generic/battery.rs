//! Battery of a generic device: nothing can be set.

use vstd::prelude::*;

use crate::limits::GenericBatteryLimit;
use crate::persist::{BatteryJson, DriverJson};
use crate::api::BatteryLimitsView;
use crate::settings::{BatteryView, TBattery};

verus! {

/// The battery of a generic device.
#[derive(Debug, Clone, Copy)]
pub struct Battery;

/// The view of a battery where nothing can be set.
pub open spec fn empty_battery_view() -> BatteryView {
    BatteryView { charge_rate: None, charge_mode: None }
}

impl Battery {
    pub fn from_limits(_limits: GenericBatteryLimit) -> (r: Self) {
        Battery
    }

    pub fn from_json_and_limits(_other: BatteryJson, _version: u64, _limits: GenericBatteryLimit) -> (r: Self) {
        Battery
    }
}

impl TBattery for Battery {
    open spec fn battery_view(&self) -> BatteryView {
        empty_battery_view()
    }

    open spec fn provider_view(&self) -> DriverJson {
        DriverJson::Generic
    }

    open spec fn after_charge_rate(&self, rate: Option<u64>) -> BatteryView {
        empty_battery_view()
    }

    open spec fn after_charge_mode(&self, mode: Option<Seq<char>>) -> BatteryView {
        empty_battery_view()
    }

    open spec fn battery_limits(&self) -> BatteryLimitsView {
        BatteryLimitsView { charge_current: None, charge_current_step: 50, charge_modes: Seq::empty() }
    }

    fn limits(&self) -> (r: crate::api::BatteryLimits) {
        let r = crate::api::BatteryLimits { charge_current: None, charge_current_step: 50, charge_modes: Vec::new() };
        assert(r.charge_modes.deep_view() =~= Seq::<Seq<char>>::empty());
        r
    }

    fn json(&self) -> (r: BatteryJson) {
        BatteryJson { charge_rate: None, charge_mode: None, events: Vec::new(), root: None }
    }

    fn charge_rate(&mut self, _rate: Option<u64>) {
    }

    fn get_charge_rate(&self) -> (r: Option<u64>) {
        None
    }

    fn charge_mode(&mut self, _mode: Option<String>) {
    }

    fn get_charge_mode(&self) -> (r: Option<String>) {
        None
    }

    fn provider(&self) -> (r: DriverJson) {
        DriverJson::Generic
    }
}

} // verus!
