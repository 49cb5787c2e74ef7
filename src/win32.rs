use vstd::prelude::*;

use core::time::Duration;

use crate::status::{remaining_model, EstimatedTimeRemaining, PowerState, RemainingModel, Status};

verus! {

/// The value the OS puts in a time field when it has no estimate.
pub const UNKNOWN_TIME: u32 = 0xFFFF_FFFF;

/// The instantaneous power status record that the OS fills in, with the
/// fields the library reads.
#[derive(Debug, Clone, Copy, PartialEq, Eq, Structural)]
pub struct SystemPowerStatus {
    /// 0 offline (on battery), 1 online (on AC), anything else unknown.
    pub ac_line_status: u8,
    /// The charge in percent; 255 when unknown.
    pub battery_life_percent: u8,
    /// Seconds of battery life left, or `UNKNOWN_TIME`.
    pub battery_life_time: u32,
    /// Seconds of battery life at full charge, or `UNKNOWN_TIME`.
    pub battery_full_life_time: u32,
    /// 1 when battery saver is on.
    pub system_status_flag: u8,
}

impl SystemPowerStatus {
    pub open spec fn spec_power_state(self) -> PowerState {
        if self.ac_line_status == 0 {
            PowerState::Battery
        } else if self.ac_line_status == 1 {
            PowerState::AC
        } else {
            PowerState::Unknown
        }
    }

    pub open spec fn spec_percentage(self) -> Option<u8> {
        if self.battery_life_percent <= 100 {
            Some(self.battery_life_percent)
        } else {
            None
        }
    }

    /// A known time to full charge wins; otherwise a known time left on
    /// battery; the fields are already in seconds.
    pub open spec fn spec_remaining(self) -> Option<RemainingModel> {
        if self.battery_full_life_time != UNKNOWN_TIME {
            Some(RemainingModel::Charging(self.battery_full_life_time as u64))
        } else if self.battery_life_time != UNKNOWN_TIME {
            Some(RemainingModel::Discharging(self.battery_life_time as u64))
        } else {
            None
        }
    }

    pub open spec fn spec_power_saving(self) -> bool {
        self.system_status_flag == 1
    }

    /// Whether the fields of `s` other than its batteries are those this
    /// record gives.
    pub open spec fn describes(self, s: Status) -> bool {
        &&& s.power_state == self.spec_power_state()
        &&& s.estimated_energy_percentage == self.spec_percentage()
        &&& remaining_model(s.estimated_time_remaining) == self.spec_remaining()
        &&& s.power_saving_mode == self.spec_power_saving()
    }

    /// The status this record describes, with no battery details yet.
    pub fn to_status(&self) -> (r: Status)
        ensures
            self.describes(r),
            r.batteries@.len() == 0,
    {
        let power_state = if self.ac_line_status == 0 {
            PowerState::Battery
        } else if self.ac_line_status == 1 {
            PowerState::AC
        } else {
            PowerState::Unknown
        };
        let estimated_energy_percentage = if self.battery_life_percent <= 100 {
            Some(self.battery_life_percent)
        } else {
            None
        };
        let estimated_time_remaining = if self.battery_full_life_time != UNKNOWN_TIME {
            Some(EstimatedTimeRemaining::Charging(Duration::from_secs(self.battery_full_life_time as u64)))
        } else if self.battery_life_time != UNKNOWN_TIME {
            Some(EstimatedTimeRemaining::Discharging(Duration::from_secs(self.battery_life_time as u64)))
        } else {
            None
        };
        Status {
            power_state,
            estimated_energy_percentage,
            estimated_time_remaining,
            batteries: Vec::new(),
            power_saving_mode: self.system_status_flag == 1,
        }
    }
}

/// A charge percentage within 0 to 100 is kept as it is; any other value,
/// the OS's "unknown" among them, gives none.
pub proof fn lemma_record_percentage_in_range(record: SystemPowerStatus)
    ensures
        record.battery_life_percent <= 100 ==> record.spec_percentage() == Some(record.battery_life_percent),
        record.battery_life_percent > 100 ==> record.spec_percentage() is None,
{
}

} // verus!
