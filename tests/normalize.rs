use std::time::Duration;

use powerstate::macos::{select_power_source, MAX_MINUTES};
use powerstate::snapshot::{status_from_source_list, status_from_sources, status_from_system_status};
use powerstate::{
    BatteryUnit, DescValue, Error, EstimatedTimeRemaining, PowerSourceDescription, PowerSourceState,
    PowerState, Status, SystemPowerStatus,
};

fn text(s: &str) -> DescValue {
    DescValue::Text(s.to_string())
}

fn desc(entries: Vec<(&str, DescValue)>) -> PowerSourceDescription {
    PowerSourceDescription {
        entries: entries
            .into_iter()
            .map(|(k, v)| (k.to_string(), v))
            .collect(),
    }
}

fn no_batteries() -> Result<Vec<BatteryUnit>, ()> {
    Ok(Vec::new())
}

fn record(ac: u8, pct: u8, life: u32, full: u32, flag: u8) -> SystemPowerStatus {
    SystemPowerStatus {
        ac_line_status: ac,
        battery_life_percent: pct,
        battery_life_time: life,
        battery_full_life_time: full,
        system_status_flag: flag,
    }
}

#[test]
fn system_record_on_ac_end_to_end() {
    let native = record(1, 87, u32::MAX, u32::MAX, 0);
    let status = status_from_system_status(Ok(native), no_batteries()).unwrap();
    assert_eq!(status.power_state, PowerState::AC);
    assert_eq!(status.estimated_energy_percentage, Some(87));
    assert_eq!(status.estimated_time_remaining, None);
    assert!(!status.power_saving_mode);
    assert!(status.batteries.is_empty());
}

#[test]
fn descriptor_on_battery_end_to_end() {
    let d = desc(vec![
        ("Power Source State", text("Battery Power")),
        ("Current Capacity", DescValue::Number(42)),
        ("Time to Empty", DescValue::Number(55)),
        ("LPM Active", DescValue::Number(1)),
    ]);
    let status = d.to_status();
    assert_eq!(status.power_state, PowerState::Battery);
    assert_eq!(status.estimated_energy_percentage, Some(42));
    assert_eq!(
        status.estimated_time_remaining,
        Some(EstimatedTimeRemaining::Discharging(Duration::from_secs(3300)))
    );
    assert!(status.power_saving_mode);
}

#[test]
fn percentage_kept_only_within_range() {
    for p in [0i64, 1, 50, 99, 100] {
        let d = desc(vec![("Current Capacity", DescValue::Number(p))]);
        assert_eq!(d.percentage(), Some(p as u8));
    }
    for p in [-1i64, 101, 255, 1000, i64::MIN] {
        let d = desc(vec![("Current Capacity", DescValue::Number(p))]);
        assert_eq!(d.percentage(), None);
    }
    assert_eq!(desc(vec![("Current Capacity", text("50"))]).percentage(), None);
    assert_eq!(desc(vec![("Current Capacity", DescValue::Flag(true))]).percentage(), None);
    assert_eq!(desc(vec![]).percentage(), None);
}

#[test]
fn time_to_empty_overwrites_time_to_full() {
    let d = desc(vec![
        ("Time to Empty", DescValue::Number(10)),
        ("Time to Full Charge", DescValue::Number(20)),
    ]);
    assert_eq!(
        d.time_remaining(),
        Some(EstimatedTimeRemaining::Discharging(Duration::from_secs(600)))
    );
}

#[test]
fn time_to_full_alone_is_charging() {
    let d = desc(vec![
        ("Time to Full Charge", DescValue::Number(20)),
        ("Time to Empty", DescValue::Number(0)),
    ]);
    assert_eq!(
        d.time_remaining(),
        Some(EstimatedTimeRemaining::Charging(Duration::from_secs(1200)))
    );
}

#[test]
fn non_positive_or_oversized_times_are_ignored() {
    let d = desc(vec![
        ("Time to Full Charge", DescValue::Number(-5)),
        ("Time to Empty", DescValue::Number(MAX_MINUTES + 1)),
    ]);
    assert_eq!(d.time_remaining(), None);
    let zero = desc(vec![("Time to Full Charge", DescValue::Number(0))]);
    assert_eq!(zero.time_remaining(), None);
    let largest = desc(vec![("Time to Empty", DescValue::Number(MAX_MINUTES))]);
    assert_eq!(
        largest.time_remaining(),
        Some(EstimatedTimeRemaining::Discharging(Duration::from_secs(MAX_MINUTES as u64 * 60)))
    );
}

#[test]
fn times_beyond_32_bits_are_used() {
    let both = desc(vec![
        ("Time to Full Charge", DescValue::Number(1)),
        ("Time to Empty", DescValue::Number(1i64 << 31)),
    ]);
    assert_eq!(
        both.time_remaining(),
        Some(EstimatedTimeRemaining::Discharging(Duration::from_secs((1u64 << 31) * 60)))
    );
    let full = desc(vec![("Time to Full Charge", DescValue::Number(1i64 << 31))]);
    assert_eq!(
        full.time_remaining(),
        Some(EstimatedTimeRemaining::Charging(Duration::from_secs((1u64 << 31) * 60)))
    );
}

#[test]
fn unlisted_power_sources_fail_the_query() {
    let failed = status_from_source_list(None, no_batteries());
    assert_eq!(failed.err(), Some(Error::NativeQueryFailed(0)));
    let d = desc(vec![("Power Source State", text("Battery Power"))]);
    let status = status_from_source_list(Some(vec![Some(d)]), no_batteries()).unwrap();
    assert_eq!(status.power_state, PowerState::Battery);
    let empty = status_from_source_list(Some(Vec::new()), no_batteries()).unwrap();
    assert_eq!(empty.power_state, PowerState::AC);
}

#[test]
fn power_source_state_text() {
    assert_eq!(PowerSourceState::from_name("AC Power"), Some(PowerSourceState::AcPower));
    assert_eq!(PowerSourceState::from_name("Battery Power"), Some(PowerSourceState::BatteryPower));
    assert_eq!(PowerSourceState::from_name("ac power"), None);
    assert_eq!(PowerSourceState::from_name(""), None);
    assert_eq!(PowerSourceState::AcPower.name(), "AC Power");
    assert_eq!(PowerSourceState::BatteryPower.name(), "Battery Power");
    assert_eq!(PowerState::from(PowerSourceState::AcPower), PowerState::AC);
    assert_eq!(PowerState::from(PowerSourceState::BatteryPower), PowerState::Battery);
}

#[test]
fn unknown_or_missing_state_is_unknown() {
    assert_eq!(desc(vec![("Power Source State", text("Off Line"))]).power_state(), PowerState::Unknown);
    assert_eq!(desc(vec![("Power Source State", DescValue::Number(1))]).power_state(), PowerState::Unknown);
    assert_eq!(desc(vec![]).power_state(), PowerState::Unknown);
    assert_eq!(desc(vec![("Power Source State", text("AC Power"))]).power_state(), PowerState::AC);
}

#[test]
fn low_power_mode_needs_the_number_one() {
    assert!(desc(vec![("LPM Active", DescValue::Number(1))]).power_saving_mode());
    assert!(!desc(vec![("LPM Active", DescValue::Number(2))]).power_saving_mode());
    assert!(!desc(vec![("LPM Active", DescValue::Flag(true))]).power_saving_mode());
    assert!(!desc(vec![]).power_saving_mode());
}

#[test]
fn first_entry_of_a_key_counts() {
    let d = desc(vec![
        ("Current Capacity", DescValue::Number(30)),
        ("Current Capacity", DescValue::Number(70)),
    ]);
    assert_eq!(d.get("Current Capacity"), Some(&DescValue::Number(30)));
    assert_eq!(d.get("Missing"), None);
}

#[test]
fn no_power_source_means_always_plugged_in() {
    let status = select_power_source(&Vec::new());
    assert_eq!(status.power_state, PowerState::AC);
    assert_eq!(status.estimated_energy_percentage, None);
    assert_eq!(status.estimated_time_remaining, None);
    assert!(!status.power_saving_mode);
    assert!(status.batteries.is_empty());
    let unreadable = select_power_source(&vec![None, None]);
    assert_eq!(unreadable.power_state, PowerState::AC);
}

#[test]
fn internal_battery_wins_wherever_it_stands() {
    let ups = desc(vec![
        ("Type", text("UPS")),
        ("Power Source State", text("AC Power")),
        ("Current Capacity", DescValue::Number(10)),
    ]);
    let internal = desc(vec![
        ("Type", text("InternalBattery")),
        ("Power Source State", text("Battery Power")),
        ("Current Capacity", DescValue::Number(64)),
    ]);
    for position in 0..3 {
        let mut sources = vec![Some(ups.clone()), None, Some(ups.clone())];
        sources.insert(position, Some(internal.clone()));
        let status = select_power_source(&sources);
        assert_eq!(status.power_state, PowerState::Battery);
        assert_eq!(status.estimated_energy_percentage, Some(64));
    }
}

#[test]
fn first_readable_source_without_internal_battery() {
    let first = desc(vec![("Current Capacity", DescValue::Number(11))]);
    let second = desc(vec![("Current Capacity", DescValue::Number(22))]);
    let status = select_power_source(&vec![None, Some(first), Some(second)]);
    assert_eq!(status.estimated_energy_percentage, Some(11));
    assert_eq!(status.power_state, PowerState::Unknown);
}

#[test]
fn failed_battery_enumeration_leaves_list_empty() {
    let d = desc(vec![("Power Source State", text("AC Power"))]);
    let status: Status = status_from_sources(&vec![Some(d)], Err::<Vec<BatteryUnit>, &str>("no manager"));
    assert_eq!(status.power_state, PowerState::AC);
    assert!(status.batteries.is_empty());
}

#[test]
fn system_record_fields() {
    let on_battery = record(0, 40, 1800, u32::MAX, 1);
    let s = on_battery.to_status();
    assert_eq!(s.power_state, PowerState::Battery);
    assert_eq!(s.estimated_energy_percentage, Some(40));
    assert_eq!(
        s.estimated_time_remaining,
        Some(EstimatedTimeRemaining::Discharging(Duration::from_secs(1800)))
    );
    assert!(s.power_saving_mode);

    let charging = record(1, 100, 1800, 7200, 0).to_status();
    assert_eq!(
        charging.estimated_time_remaining,
        Some(EstimatedTimeRemaining::Charging(Duration::from_secs(7200)))
    );
    assert_eq!(charging.estimated_energy_percentage, Some(100));

    let unknown = record(255, 255, u32::MAX, u32::MAX, 0).to_status();
    assert_eq!(unknown.power_state, PowerState::Unknown);
    assert_eq!(unknown.estimated_energy_percentage, None);
    assert_eq!(record(2, 101, 0, u32::MAX, 0).to_status().estimated_energy_percentage, None);
}
