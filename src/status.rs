use vstd::prelude::*;

use core::time::Duration;

use crate::batteries::BatteryUnit;

verus! {

/// The whole seconds that a `Duration` holds, as `Duration::as_secs` reports them.
pub uninterp spec fn duration_secs(d: Duration) -> u64;

/// Relies on `Duration::from_secs`: the duration made of exactly `secs` whole
/// seconds, so `as_secs` gives `secs` back.
pub assume_specification[ core::time::Duration::from_secs ](secs: u64) -> (d: Duration)
    ensures
        duration_secs(d) == secs,
;

/// Where the machine draws its power from.
#[derive(Debug, Clone, Copy, PartialEq, Eq, Structural)]
pub enum PowerState {
    Battery,
    AC,
    Unknown,
}

impl Default for PowerState {
    fn default() -> (r: PowerState)
        ensures
            r == PowerState::Unknown,
    {
        PowerState::Unknown
    }
}

/// How long until the battery is full (while charging) or empty (while
/// discharging). The two are exclusive by construction.
#[derive(Debug, Clone, Copy, PartialEq, Eq)]
pub enum EstimatedTimeRemaining {
    Charging(Duration),
    Discharging(Duration),
}

/// The time remaining, as a direction and a number of seconds.
pub enum RemainingModel {
    Charging(u64),
    Discharging(u64),
}

impl EstimatedTimeRemaining {
    pub open spec fn model(self) -> RemainingModel {
        match self {
            EstimatedTimeRemaining::Charging(d) => RemainingModel::Charging(duration_secs(d)),
            EstimatedTimeRemaining::Discharging(d) => RemainingModel::Discharging(duration_secs(d)),
        }
    }
}

/// The model of an optional time remaining.
pub open spec fn remaining_model(t: Option<EstimatedTimeRemaining>) -> Option<RemainingModel> {
    match t {
        Some(e) => Some(e.model()),
        None => None,
    }
}

/// One snapshot of the machine's power state. Each query makes a fresh one.
#[derive(Debug)]
pub struct Status {
    pub power_state: PowerState,
    /// The charge level in percent, within 0 to 100 when present.
    pub estimated_energy_percentage: Option<u8>,
    pub estimated_time_remaining: Option<EstimatedTimeRemaining>,
    /// The battery units the system reported, in the order of enumeration.
    pub batteries: Vec<BatteryUnit>,
    /// Whether the system is in power saving mode (on macOS, Low Power Mode).
    pub power_saving_mode: bool,
}

impl Default for Status {
    /// A status that knows nothing: the power state is unknown.
    fn default() -> (r: Status)
        ensures
            r.power_state == PowerState::Unknown,
            r.estimated_energy_percentage is None,
            r.estimated_time_remaining is None,
            r.batteries@.len() == 0,
            !r.power_saving_mode,
    {
        Status {
            power_state: PowerState::Unknown,
            estimated_energy_percentage: None,
            estimated_time_remaining: None,
            batteries: Vec::new(),
            power_saving_mode: false,
        }
    }
}

impl Status {
    /// Whether this is the status of a machine that reports no
    /// battery-bearing power source: it is always plugged in.
    pub open spec fn is_no_battery_device(self) -> bool {
        &&& self.power_state == PowerState::AC
        &&& self.estimated_energy_percentage is None
        &&& self.estimated_time_remaining is None
        &&& !self.power_saving_mode
    }

    /// Whether the fields other than `batteries` are those of `other`.
    pub open spec fn same_reading(self, other: Status) -> bool {
        &&& self.power_state == other.power_state
        &&& self.estimated_energy_percentage == other.estimated_energy_percentage
        &&& remaining_model(self.estimated_time_remaining) == remaining_model(other.estimated_time_remaining)
        &&& self.power_saving_mode == other.power_saving_mode
    }

    pub fn no_battery_device() -> (r: Status)
        ensures
            r.is_no_battery_device(),
            r.batteries@.len() == 0,
    {
        Status {
            power_state: PowerState::AC,
            estimated_energy_percentage: None,
            estimated_time_remaining: None,
            batteries: Vec::new(),
            power_saving_mode: false,
        }
    }
}

} // verus!
