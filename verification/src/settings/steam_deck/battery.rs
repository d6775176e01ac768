//! The Steam Deck battery: charge rate and charge mode.

use vstd::prelude::*;

use super::oc_limits::{BatteryLimits, OverclockLimits};
use super::util::ChargeMode;
use crate::api::RangeLimit;
use crate::persist::{BatteryJson, DriverJson};
use crate::settings::traits::opt_string_view;
use crate::settings::util::{clamp, spec_clamp};
use crate::api::BatteryLimitsView;
use crate::settings::{BatteryView, TBattery};

verus! {

pub const BATTERY_CHARGE_RATE_PATH: &'static str = "/sys/class/hwmon/hwmon5/maximum_battery_charge_rate";

pub const BATTERY_CURRENT_NOW_PATH: &'static str = "/sys/class/power_supply/BAT1/current_now";

pub const BATTERY_CHARGE_NOW_PATH: &'static str = "/sys/class/power_supply/BAT1/charge_now";

pub const BATTERY_CHARGE_FULL_PATH: &'static str = "/sys/class/power_supply/BAT1/charge_full";

pub const BATTERY_CHARGE_DESIGN_PATH: &'static str = "/sys/class/power_supply/BAT1/charge_full_design";

/// Bookkeeping of what was written for the battery.
#[derive(Debug, Clone, Copy)]
pub struct BatteryState {
    pub charge_rate_set: bool,
    pub charge_mode_set: bool,
}

/// The Steam Deck battery.
#[derive(Debug, Clone, Copy)]
pub struct Battery {
    pub charge_rate: Option<u64>,
    pub charge_mode: Option<ChargeMode>,
    pub limits: BatteryLimits,
    pub state: BatteryState,
    pub driver_mode: DriverJson,
}

/// A write to the battery hardware.
#[derive(Debug, Clone, Copy, PartialEq, Eq, Structural)]
pub enum BatteryWrite {
    /// Maximum charge rate, in mA.
    ChargeRate(u64),
    /// Charge mode, through the embedded controller.
    ChargeMode(ChargeMode),
}

/// The name of a charge mode.
pub open spec fn charge_mode_name(m: ChargeMode) -> Seq<char> {
    match m {
        ChargeMode::Normal => "normal"@,
        ChargeMode::Idle => "idle"@,
        ChargeMode::Discharge => "discharge"@,
    }
}

/// The charge mode a name stands for (`disacharge` is accepted as a misspelling of `discharge`).
pub open spec fn charge_mode_named(s: Seq<char>) -> Option<ChargeMode> {
    if s == "normal"@ {
        Some(ChargeMode::Normal)
    } else if s == "idle"@ {
        Some(ChargeMode::Idle)
    } else if s == "discharge"@ || s == "disacharge"@ {
        Some(ChargeMode::Discharge)
    } else {
        None
    }
}

/// The charge mode requested by an optional name.
pub open spec fn requested_charge_mode(s: Option<Seq<char>>) -> Option<ChargeMode> {
    match s {
        Some(n) => charge_mode_named(n),
        None => None,
    }
}

/// The name of an optional charge mode.
pub open spec fn charge_mode_view(m: Option<ChargeMode>) -> Option<Seq<char>> {
    match m {
        Some(c) => Some(charge_mode_name(c)),
        None => None,
    }
}

/// The driver a set of Steam Deck limits calls for.
pub open spec fn deck_driver(is_default: bool) -> DriverJson {
    if is_default {
        DriverJson::SteamDeck
    } else {
        DriverJson::SteamDeckAdvance
    }
}

/// The writes that apply the battery settings, given the bookkeeping before.
pub open spec fn battery_writes(b: Battery) -> Seq<BatteryWrite> {
    let rate: Seq<BatteryWrite> = match b.charge_rate {
        Some(r) => seq![BatteryWrite::ChargeRate(r)],
        None => if b.state.charge_rate_set {
            seq![BatteryWrite::ChargeRate(b.limits.charge_rate.max)]
        } else {
            seq![]
        },
    };
    let mode: Seq<BatteryWrite> = match b.charge_mode {
        Some(m) => seq![BatteryWrite::ChargeMode(m)],
        None => if b.state.charge_mode_set {
            seq![BatteryWrite::ChargeMode(ChargeMode::Normal)]
        } else {
            seq![]
        },
    };
    rate + mode
}

/// The charge rate brought within the limits.
pub open spec fn clamped_rate(b: Battery) -> Option<u64> {
    match b.charge_rate {
        Some(r) => Some(spec_clamp(r, b.limits.charge_rate.min, b.limits.charge_rate.max)),
        None => None,
    }
}

proof fn lemma_charge_mode_names()
    ensures
        forall|m: ChargeMode| #[trigger] charge_mode_named(charge_mode_name(m)) == Some(m),
        charge_mode_named("disacharge"@) == Some(ChargeMode::Discharge),
{
    reveal_strlit("normal");
    reveal_strlit("idle");
    reveal_strlit("discharge");
    reveal_strlit("disacharge");
    assert("idle"@ != "normal"@) by {
        assert("idle"@.len() != "normal"@.len());
    }
    assert("discharge"@ != "normal"@) by {
        assert("discharge"@.len() != "normal"@.len());
    }
    assert("discharge"@ != "idle"@) by {
        assert("discharge"@.len() != "idle"@.len());
    }
    assert("disacharge"@ != "normal"@) by {
        assert("disacharge"@.len() != "normal"@.len());
    }
    assert("disacharge"@ != "idle"@) by {
        assert("disacharge"@.len() != "idle"@.len());
    }
    assert("disacharge"@ != "discharge"@) by {
        assert("disacharge"@.len() != "discharge"@.len());
    }
}

impl Battery {
    /// Read persisted battery settings, with the Steam Deck limits in force.
    pub fn from_json(other: BatteryJson, _version: u64, oc_limits: &OverclockLimits, is_default: bool) -> (r: Self)
        ensures
            r.charge_rate == other.charge_rate,
            r.charge_mode == requested_charge_mode(opt_string_view(other.charge_mode)),
            r.limits == oc_limits.battery,
            !r.state.charge_rate_set && !r.state.charge_mode_set,
            r.driver_mode == deck_driver(is_default),
    {
        let charge_mode = match &other.charge_mode {
            Some(x) => Self::str_to_charge_mode(x.as_str()),
            None => None,
        };
        Battery {
            charge_rate: other.charge_rate,
            charge_mode,
            limits: oc_limits.battery,
            state: BatteryState { charge_rate_set: false, charge_mode_set: false },
            driver_mode: if is_default { DriverJson::SteamDeck } else { DriverJson::SteamDeckAdvance },
        }
    }

    /// The battery as found on the system: nothing set.
    pub fn system_default(oc_limits: &OverclockLimits, is_default: bool) -> (r: Self)
        ensures
            r.charge_rate is None,
            r.charge_mode is None,
            r.limits == oc_limits.battery,
            !r.state.charge_rate_set && !r.state.charge_mode_set,
            r.driver_mode == deck_driver(is_default),
    {
        Battery {
            charge_rate: None,
            charge_mode: None,
            limits: oc_limits.battery,
            state: BatteryState { charge_rate_set: false, charge_mode_set: false },
            driver_mode: if is_default { DriverJson::SteamDeck } else { DriverJson::SteamDeckAdvance },
        }
    }

    /// The name of a charge mode.
    pub fn charge_mode_to_str(mode: ChargeMode) -> (r: String)
        ensures
            r@ == charge_mode_name(mode),
    {
        match mode {
            ChargeMode::Normal => String::from_str("normal"),
            ChargeMode::Idle => String::from_str("idle"),
            ChargeMode::Discharge => String::from_str("discharge"),
        }
    }

    /// The charge mode a name stands for.
    pub fn str_to_charge_mode(s: &str) -> (r: Option<ChargeMode>)
        ensures
            r == charge_mode_named(s@),
    {
        if crate::settings::util::str_eq(s, "normal") {
            Some(ChargeMode::Normal)
        } else if crate::settings::util::str_eq(s, "idle") {
            Some(ChargeMode::Idle)
        } else if crate::settings::util::str_eq(s, "discharge") || crate::settings::util::str_eq(s, "disacharge") {
            Some(ChargeMode::Discharge)
        } else {
            None
        }
    }

    /// Decide the writes that apply the settings, and update the bookkeeping.
    pub fn set_all(&mut self) -> (w: Vec<BatteryWrite>)
        ensures
            w@ == battery_writes(*old(self)),
            final(self).charge_rate == old(self).charge_rate,
            final(self).charge_mode == old(self).charge_mode,
            final(self).limits == old(self).limits,
            final(self).driver_mode == old(self).driver_mode,
            final(self).state.charge_rate_set == (old(self).charge_rate is Some),
            final(self).state.charge_mode_set == (old(self).charge_mode is Some),
    {
        let mut writes: Vec<BatteryWrite> = Vec::new();
        if let Some(charge_rate) = self.charge_rate {
            self.state.charge_rate_set = true;
            writes.push(BatteryWrite::ChargeRate(charge_rate));
        } else if self.state.charge_rate_set {
            self.state.charge_rate_set = false;
            writes.push(BatteryWrite::ChargeRate(self.limits.charge_rate.max));
        }
        let ghost rate_part = writes@;
        if let Some(charge_mode) = self.charge_mode {
            self.state.charge_mode_set = true;
            writes.push(BatteryWrite::ChargeMode(charge_mode));
        } else if self.state.charge_mode_set {
            self.state.charge_mode_set = false;
            writes.push(BatteryWrite::ChargeMode(ChargeMode::Normal));
        }
        assert(writes@ =~= battery_writes(*old(self)));
        writes
    }

    /// Bring the charge rate within the limits.
    pub fn clamp_all(&mut self)
        requires
            old(self).limits.charge_rate.min <= old(self).limits.charge_rate.max,
        ensures
            final(self).charge_rate == clamped_rate(*old(self)),
            final(self).charge_mode == old(self).charge_mode,
            final(self).limits == old(self).limits,
            final(self).state == old(self).state,
            final(self).driver_mode == old(self).driver_mode,
    {
        if let Some(charge_rate) = self.charge_rate {
            self.charge_rate = Some(clamp(charge_rate, self.limits.charge_rate.min, self.limits.charge_rate.max));
        }
    }

    /// Apply the settings: clamp them, then decide the writes.
    pub fn on_set(&mut self) -> (w: Vec<BatteryWrite>)
        requires
            old(self).limits.charge_rate.min <= old(self).limits.charge_rate.max,
        ensures
            final(self).charge_rate == clamped_rate(*old(self)),
            final(self).charge_mode == old(self).charge_mode,
            w@ == battery_writes(Battery { charge_rate: clamped_rate(*old(self)), ..*old(self) }),
            final(self).state.charge_rate_set == (old(self).charge_rate is Some),
            final(self).state.charge_mode_set == (old(self).charge_mode is Some),
            final(self).limits == old(self).limits,
            final(self).driver_mode == old(self).driver_mode,
    {
        self.clamp_all();
        self.set_all()
    }

    /// Re-apply the settings after resume, without changing the bookkeeping.
    pub fn on_resume(&self) -> (w: Vec<BatteryWrite>)
        ensures
            w@ == battery_writes(*self),
    {
        let mut copy = *self;
        copy.set_all()
    }
}

impl TBattery for Battery {
    open spec fn battery_view(&self) -> BatteryView {
        BatteryView { charge_rate: self.charge_rate, charge_mode: charge_mode_view(self.charge_mode) }
    }

    open spec fn provider_view(&self) -> DriverJson {
        self.driver_mode
    }

    open spec fn after_charge_rate(&self, rate: Option<u64>) -> BatteryView {
        BatteryView { charge_rate: rate, charge_mode: charge_mode_view(self.charge_mode) }
    }

    open spec fn after_charge_mode(&self, mode: Option<Seq<char>>) -> BatteryView {
        BatteryView { charge_rate: self.charge_rate, charge_mode: charge_mode_view(requested_charge_mode(mode)) }
    }

    open spec fn battery_limits(&self) -> BatteryLimitsView {
        BatteryLimitsView {
            charge_current: Some(RangeLimit { min: self.limits.charge_rate.min, max: self.limits.charge_rate.max }),
            charge_current_step: 50,
            charge_modes: seq!["normal"@, "discharge"@, "idle"@],
        }
    }

    fn limits(&self) -> (r: crate::api::BatteryLimits) {
        let mut modes: Vec<String> = Vec::new();
        modes.push(String::from_str("normal"));
        modes.push(String::from_str("discharge"));
        modes.push(String::from_str("idle"));
        let r = crate::api::BatteryLimits {
            charge_current: Some(RangeLimit { min: self.limits.charge_rate.min, max: self.limits.charge_rate.max }),
            charge_current_step: 50,
            charge_modes: modes,
        };
        assert(r.charge_modes.deep_view() =~= seq!["normal"@, "discharge"@, "idle"@]);
        r
    }

    fn json(&self) -> (r: BatteryJson) {
        BatteryJson {
            charge_rate: self.charge_rate,
            charge_mode: match self.charge_mode {
                Some(m) => Some(Self::charge_mode_to_str(m)),
                None => None,
            },
            events: Vec::new(),
            root: None,
        }
    }

    fn charge_rate(&mut self, rate: Option<u64>) {
        self.charge_rate = rate;
    }

    fn get_charge_rate(&self) -> (r: Option<u64>) {
        self.charge_rate
    }

    fn charge_mode(&mut self, mode: Option<String>) {
        self.charge_mode = match &mode {
            Some(s) => Self::str_to_charge_mode(s.as_str()),
            None => None,
        };
    }

    fn get_charge_mode(&self) -> (r: Option<String>) {
        match self.charge_mode {
            Some(m) => Some(Self::charge_mode_to_str(m)),
            None => None,
        }
    }

    fn provider(&self) -> (r: DriverJson) {
        self.driver_mode
    }
}

/// Every charge mode is read back from its own name.
pub proof fn charge_mode_name_roundtrip(m: ChargeMode)
    ensures
        charge_mode_named(charge_mode_name(m)) == Some(m),
{
    lemma_charge_mode_names();
}

/// Once applied, a charge rate lies within the battery's limits.
pub proof fn applied_charge_rate_within_limits(b: Battery)
    requires
        b.limits.charge_rate.min <= b.limits.charge_rate.max,
        b.charge_rate is Some,
    ensures
        b.limits.charge_rate.min <= clamped_rate(b)->0 <= b.limits.charge_rate.max,
{
}

/// The charge modes are named `normal`, `idle` and `discharge`: each name selects its own mode
/// and no other (with `disacharge` also selecting `discharge`), any other name selects none, and
/// each mode is shown by its own name.
pub proof fn charge_mode_names_fixed(s: Seq<char>, m: ChargeMode)
    ensures
        charge_mode_named(s) == Some(ChargeMode::Normal) <==> s == "normal"@,
        charge_mode_named(s) == Some(ChargeMode::Idle) <==> s == "idle"@,
        charge_mode_named(s) == Some(ChargeMode::Discharge) <==> (s == "discharge"@ || s == "disacharge"@),
        charge_mode_named(s) is None <==> (s != "normal"@ && s != "idle"@ && s != "discharge"@ && s != "disacharge"@),
        charge_mode_name(m) == "normal"@ <==> m == ChargeMode::Normal,
        charge_mode_name(m) == "idle"@ <==> m == ChargeMode::Idle,
        charge_mode_name(m) == "discharge"@ <==> m == ChargeMode::Discharge,
{
    reveal_strlit("normal");
    reveal_strlit("idle");
    reveal_strlit("discharge");
    reveal_strlit("disacharge");
    assert("idle"@.len() != "normal"@.len());
    assert("discharge"@.len() != "normal"@.len());
    assert("discharge"@.len() != "idle"@.len());
    assert("disacharge"@.len() != "normal"@.len());
    assert("disacharge"@.len() != "idle"@.len());
}

} // verus!
