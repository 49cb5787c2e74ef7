use vstd::prelude::*;

use crate::batteries::BatteryUnit;
use crate::error::Error;
use crate::macos::{chooses, select_power_source, PowerSourceDescription};
use crate::status::Status;
use crate::win32::SystemPowerStatus;

verus! {

/// Whether `r` carries what the battery enumeration gave: its units when it
/// succeeded, none when it failed.
pub open spec fn carries<E>(r: Status, batteries: Result<Vec<BatteryUnit>, E>) -> bool {
    match batteries {
        Ok(v) => r.batteries@ == v@,
        Err(_) => r.batteries@.len() == 0,
    }
}

/// Adds battery details to a status. Battery details only enrich a status:
/// a failed enumeration leaves the list empty rather than failing it.
pub fn attach_batteries<E>(status: Status, batteries: Result<Vec<BatteryUnit>, E>) -> (r: Status)
    ensures
        r.same_reading(status),
        carries(r, batteries),
{
    let units = match batteries {
        Ok(v) => v,
        Err(_) => Vec::new(),
    };
    Status {
        power_state: status.power_state,
        estimated_energy_percentage: status.estimated_energy_percentage,
        estimated_time_remaining: status.estimated_time_remaining,
        batteries: units,
        power_saving_mode: status.power_saving_mode,
    }
}

/// The status given by the power sources the OS listed and by the result of
/// the battery enumeration.
pub fn status_from_sources<E>(
    sources: &Vec<Option<PowerSourceDescription>>,
    batteries: Result<Vec<BatteryUnit>, E>,
) -> (r: Status)
    ensures
        chooses(sources@, r),
        carries(r, batteries),
{
    attach_batteries(select_power_source(sources), batteries)
}

/// The status given by the OS's instantaneous power record, or by the code of
/// its failure, and by the result of the battery enumeration.
pub fn status_from_system_status<E>(
    native: Result<SystemPowerStatus, i32>,
    batteries: Result<Vec<BatteryUnit>, E>,
) -> (r: Result<Status, Error>)
    ensures
        match native {
            Ok(record) => r is Ok && record.describes(r->Ok_0) && carries(r->Ok_0, batteries),
            Err(code) => r == Err::<Status, Error>(Error::NativeQueryFailed(code)),
        },
{
    match native {
        Ok(record) => Ok(attach_batteries(record.to_status(), batteries)),
        Err(code) => Err(Error::NativeQueryFailed(code)),
    }
}

/// The status given by the OS's list of power sources, or by its failure to
/// list them, and by the result of the battery enumeration. The OS gives no
/// code for that failure, so it is reported with code 0.
pub fn status_from_source_list<E>(
    listed: Option<Vec<Option<PowerSourceDescription>>>,
    batteries: Result<Vec<BatteryUnit>, E>,
) -> (r: Result<Status, Error>)
    ensures
        match listed {
            Some(sources) => r is Ok && chooses(sources@, r->Ok_0) && carries(r->Ok_0, batteries),
            None => r == Err::<Status, Error>(Error::NativeQueryFailed(0)),
        },
{
    match listed {
        Some(sources) => Ok(status_from_sources(&sources, batteries)),
        None => Err(Error::NativeQueryFailed(0)),
    }
}

} // verus!
