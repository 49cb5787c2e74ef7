use vstd::prelude::*;

use core::time::Duration;

use crate::status::{remaining_model, EstimatedTimeRemaining, PowerState, RemainingModel, Status};

verus! {

/// Failures of attaching the event sink to the caller's run loop.
#[derive(Debug, Clone, Copy, PartialEq, Eq, Structural)]
pub enum Error {
    FailedToCreateRunLoopSource,
    MissingRunLoop,
}

impl From<Error> for crate::error::Error {
    fn from(e: Error) -> (r: crate::error::Error) {
        match e {
            Error::FailedToCreateRunLoopSource => crate::error::Error::SinkCreationFailed,
            Error::MissingRunLoop => crate::error::Error::NoRunLoopAvailable,
        }
    }
}

impl vstd::std_specs::convert::FromSpecImpl<Error> for crate::error::Error {
    open spec fn obeys_from_spec() -> bool {
        true
    }

    open spec fn from_spec(e: Error) -> crate::error::Error {
        match e {
            Error::FailedToCreateRunLoopSource => crate::error::Error::SinkCreationFailed,
            Error::MissingRunLoop => crate::error::Error::NoRunLoopAvailable,
        }
    }
}

/// The two values of a power source's "Power Source State" that the library
/// understands.
#[derive(Debug, Clone, Copy, PartialEq, Eq, Structural)]
pub enum PowerSourceState {
    AcPower,
    BatteryPower,
}

impl PowerSourceState {
    /// The text by which the OS reports this state.
    pub open spec fn spec_name(self) -> Seq<char> {
        match self {
            PowerSourceState::AcPower => "AC Power"@,
            PowerSourceState::BatteryPower => "Battery Power"@,
        }
    }

    /// The power state this source state stands for.
    pub open spec fn spec_power_state(self) -> PowerState {
        match self {
            PowerSourceState::AcPower => PowerState::AC,
            PowerSourceState::BatteryPower => PowerState::Battery,
        }
    }

    /// The state whose text is exactly `s`, if any.
    pub open spec fn spec_from_name(s: Seq<char>) -> Option<PowerSourceState> {
        if s == "AC Power"@ {
            Some(PowerSourceState::AcPower)
        } else if s == "Battery Power"@ {
            Some(PowerSourceState::BatteryPower)
        } else {
            None
        }
    }

    pub fn name(self) -> (r: &'static str)
        ensures
            r@ == self.spec_name(),
    {
        match self {
            PowerSourceState::AcPower => "AC Power",
            PowerSourceState::BatteryPower => "Battery Power",
        }
    }

    pub fn from_name(s: &str) -> (r: Option<PowerSourceState>)
        ensures
            r == Self::spec_from_name(s@),
    {
        if same_text(s, "AC Power") {
            Some(PowerSourceState::AcPower)
        } else if same_text(s, "Battery Power") {
            Some(PowerSourceState::BatteryPower)
        } else {
            None
        }
    }
}

impl From<PowerSourceState> for PowerState {
    fn from(value: PowerSourceState) -> (r: PowerState) {
        match value {
            PowerSourceState::AcPower => PowerState::AC,
            PowerSourceState::BatteryPower => PowerState::Battery,
        }
    }
}

impl vstd::std_specs::convert::FromSpecImpl<PowerSourceState> for PowerState {
    open spec fn obeys_from_spec() -> bool {
        true
    }

    open spec fn from_spec(value: PowerSourceState) -> PowerState {
        value.spec_power_state()
    }
}

/// One value of a power source descriptor. The OS types its values loosely:
/// a key may hold any of these, or be absent.
#[derive(Debug, Clone, PartialEq, Eq)]
pub enum DescValue {
    Text(String),
    Number(i64),
    Flag(bool),
}

/// A native power source descriptor: string keys, each with a loosely typed
/// value, as the OS reported them.
#[derive(Debug, Clone)]
pub struct PowerSourceDescription {
    pub entries: Vec<(String, DescValue)>,
}

/// The value of the first entry of `entries` whose key is `key`.
pub open spec fn lookup(entries: Seq<(String, DescValue)>, key: Seq<char>) -> Option<DescValue>
    decreases entries.len(),
{
    if entries.len() == 0 {
        None
    } else if entries[0].0@ == key {
        Some(entries[0].1)
    } else {
        lookup(entries.drop_first(), key)
    }
}

/// The number that `v` holds, if it is a number at all.
pub open spec fn number_of(v: Option<DescValue>) -> Option<i64> {
    match v {
        Some(DescValue::Number(n)) => Some(n),
        _ => None,
    }
}

/// The most minutes whose count of seconds fits in a `u64`.
pub const MAX_MINUTES: i64 = 307445734561825860;

/// A number of minutes as the OS reports a time estimate: any positive value
/// whose count of seconds fits in 64 bits. Anything else carries no estimate.
pub open spec fn minutes_of(v: Option<DescValue>) -> Option<u64> {
    match number_of(v) {
        Some(n) => if 0 < n && n * 60 <= u64::MAX { Some(n as u64) } else { None },
        None => None,
    }
}

impl PowerSourceDescription {
    pub open spec fn spec_get(self, key: Seq<char>) -> Option<DescValue> {
        lookup(self.entries@, key)
    }

    /// Whether the OS tags this source as the machine's internal battery.
    pub open spec fn is_internal_battery(self) -> bool {
        match self.spec_get("Type"@) {
            Some(DescValue::Text(s)) => s@ == "InternalBattery"@,
            _ => false,
        }
    }

    pub open spec fn spec_power_state(self) -> PowerState {
        match self.spec_get("Power Source State"@) {
            Some(DescValue::Text(s)) => match PowerSourceState::spec_from_name(s@) {
                Some(p) => p.spec_power_state(),
                None => PowerState::Unknown,
            },
            _ => PowerState::Unknown,
        }
    }

    pub open spec fn spec_percentage(self) -> Option<u8> {
        match number_of(self.spec_get("Current Capacity"@)) {
            Some(n) => if 0 <= n <= 100 { Some(n as u8) } else { None },
            None => None,
        }
    }

    /// The time remaining: a time to empty wins over a time to full charge;
    /// minutes become seconds.
    pub open spec fn spec_remaining(self) -> Option<RemainingModel> {
        match minutes_of(self.spec_get("Time to Empty"@)) {
            Some(m) => Some(RemainingModel::Discharging((m * 60) as u64)),
            None => match minutes_of(self.spec_get("Time to Full Charge"@)) {
                Some(m) => Some(RemainingModel::Charging((m * 60) as u64)),
                None => None,
            },
        }
    }

    pub open spec fn spec_power_saving(self) -> bool {
        number_of(self.spec_get("LPM Active"@)) == Some(1i64)
    }

    /// The value under `key`, if the descriptor has one.
    pub fn get(&self, key: &str) -> (r: Option<&DescValue>)
        ensures
            r matches Some(v) ==> self.spec_get(key@) == Some(*v),
            r is None ==> self.spec_get(key@) is None,
    {
        let k = key.to_owned();
        let mut i: usize = 0;
        assert(self.entries@.subrange(0, self.entries@.len() as int) == self.entries@);
        while i < self.entries.len()
            invariant
                i <= self.entries@.len(),
                k@ == key@,
                self.spec_get(key@) == lookup(self.entries@.subrange(i as int, self.entries@.len() as int), key@),
            decreases self.entries@.len() - i,
        {
            let ghost rest = self.entries@.subrange(i as int, self.entries@.len() as int);
            if self.entries[i].0 == k {
                return Some(&self.entries[i].1);
            }
            assert(rest.drop_first() == self.entries@.subrange(i + 1, self.entries@.len() as int));
            i = i + 1;
        }
        None
    }

    /// The minutes of a time estimate under `key`, if it holds one.
    fn minutes_under(&self, key: &str) -> (r: Option<u64>)
        ensures
            r == minutes_of(self.spec_get(key@)),
    {
        match self.get(key) {
            Some(DescValue::Number(n)) => {
                if 0 < *n && *n <= MAX_MINUTES {
                    Some(*n as u64)
                } else {
                    None
                }
            },
            _ => None,
        }
    }

    /// Where the source draws power from: "AC Power" or "Battery Power";
    /// any other value, or none, is unknown.
    pub fn power_state(&self) -> (r: PowerState)
        ensures
            r == self.spec_power_state(),
    {
        match self.get("Power Source State") {
            Some(DescValue::Text(s)) => match PowerSourceState::from_name(s.as_str()) {
                Some(p) => PowerState::from(p),
                None => PowerState::Unknown,
            },
            _ => PowerState::Unknown,
        }
    }

    /// The current capacity in percent; a value outside 0 to 100, or one that
    /// is no number, is dropped rather than clamped.
    pub fn percentage(&self) -> (r: Option<u8>)
        ensures
            r == self.spec_percentage(),
    {
        match self.get("Current Capacity") {
            Some(DescValue::Number(n)) => {
                if 0 <= *n && *n <= 100 {
                    Some(*n as u8)
                } else {
                    None
                }
            },
            _ => None,
        }
    }

    /// The time remaining. A positive time to full charge gives `Charging`,
    /// then a positive time to empty, when there is one, overwrites it with
    /// `Discharging`.
    pub fn time_remaining(&self) -> (r: Option<EstimatedTimeRemaining>)
        ensures
            remaining_model(r) == self.spec_remaining(),
    {
        let mut estimate: Option<EstimatedTimeRemaining> = None;
        if let Some(m) = self.minutes_under("Time to Full Charge") {
            estimate = Some(EstimatedTimeRemaining::Charging(Duration::from_secs(m * 60)));
        }
        if let Some(m) = self.minutes_under("Time to Empty") {
            estimate = Some(EstimatedTimeRemaining::Discharging(Duration::from_secs(m * 60)));
        }
        estimate
    }

    /// Whether Low Power Mode is on: "LPM Active" holds the number 1.
    pub fn power_saving_mode(&self) -> (r: bool)
        ensures
            r == self.spec_power_saving(),
    {
        match self.get("LPM Active") {
            Some(DescValue::Number(n)) => *n == 1,
            _ => false,
        }
    }

    /// Whether the OS tags this source as the machine's internal battery.
    pub fn internal_battery(&self) -> (r: bool)
        ensures
            r == self.is_internal_battery(),
    {
        match self.get("Type") {
            Some(DescValue::Text(s)) => same_text(s.as_str(), "InternalBattery"),
            _ => false,
        }
    }

    /// The status this descriptor describes, with no battery details yet.
    pub fn to_status(&self) -> (r: Status)
        ensures
            self.describes(r),
            r.batteries@.len() == 0,
    {
        Status {
            power_state: self.power_state(),
            estimated_energy_percentage: self.percentage(),
            estimated_time_remaining: self.time_remaining(),
            batteries: Vec::new(),
            power_saving_mode: self.power_saving_mode(),
        }
    }

    /// Whether the fields of `s` other than its batteries are those this
    /// descriptor gives.
    pub open spec fn describes(self, s: Status) -> bool {
        &&& s.power_state == self.spec_power_state()
        &&& s.estimated_energy_percentage == self.spec_percentage()
        &&& remaining_model(s.estimated_time_remaining) == self.spec_remaining()
        &&& s.power_saving_mode == self.spec_power_saving()
    }
}

/// Whether source `i` is readable and tagged as the internal battery.
pub open spec fn is_internal_at(sources: Seq<Option<PowerSourceDescription>>, i: int) -> bool {
    &&& 0 <= i < sources.len()
    &&& sources[i] matches Some(d) && d.is_internal_battery()
}

/// Whether source `i` is the first one tagged as the internal battery.
pub open spec fn is_first_internal(sources: Seq<Option<PowerSourceDescription>>, i: int) -> bool {
    &&& is_internal_at(sources, i)
    &&& forall|j: int| 0 <= j < i ==> !is_internal_at(sources, j)
}

/// Whether source `i` is the first one whose descriptor could be read.
pub open spec fn is_first_readable(sources: Seq<Option<PowerSourceDescription>>, i: int) -> bool {
    &&& 0 <= i < sources.len()
    &&& sources[i] is Some
    &&& forall|j: int| 0 <= j < i ==> (#[trigger] sources[j]) is None
}

/// Whether `r` is the status that a list of power sources gives: the first
/// internal battery if there is one, else the first readable source, else
/// the status of a machine without batteries.
pub open spec fn chooses(sources: Seq<Option<PowerSourceDescription>>, r: Status) -> bool {
    &&& forall|i: int| #[trigger] is_first_internal(sources, i) ==> sources[i]->Some_0.describes(r)
    &&& (forall|i: int| !is_internal_at(sources, i)) ==> (forall|i: int|
        #[trigger] is_first_readable(sources, i) ==> sources[i]->Some_0.describes(r))
    &&& (forall|i: int| 0 <= i < sources.len() ==> (#[trigger] sources[i]) is None)
        ==> r.is_no_battery_device()
}

/// Picks the power source to report from all those the OS listed, `None`
/// standing for one whose descriptor could not be read, and reads its status.
pub fn select_power_source(sources: &Vec<Option<PowerSourceDescription>>) -> (r: Status)
    ensures
        chooses(sources@, r),
        r.batteries@.len() == 0,
{
    let mut i: usize = 0;
    while i < sources.len()
        invariant
            i <= sources@.len(),
            forall|j: int| 0 <= j < i ==> !is_internal_at(sources@, j),
        decreases sources@.len() - i,
    {
        if let Some(d) = &sources[i] {
            if d.internal_battery() {
                let r = d.to_status();
                proof {
                    assert(is_first_internal(sources@, i as int));
                    assert forall|j: int| #[trigger] is_first_internal(sources@, j) implies j == i by {
                        if j < i {
                            assert(!is_internal_at(sources@, j));
                        } else if j > i {
                            assert(!is_internal_at(sources@, i as int));
                        }
                    }
                    assert(is_internal_at(sources@, i as int));
                }
                return r;
            }
        }
        i = i + 1;
    }
    let mut k: usize = 0;
    while k < sources.len()
        invariant
            k <= sources@.len(),
            forall|j: int| 0 <= j < sources@.len() ==> !is_internal_at(sources@, j),
            forall|j: int| 0 <= j < k ==> (#[trigger] sources@[j]) is None,
        decreases sources@.len() - k,
    {
        if let Some(d) = &sources[k] {
            let r = d.to_status();
            assert(is_first_readable(sources@, k as int));
            return r;
        }
        k = k + 1;
    }
    Status::no_battery_device()
}

/// A current capacity is kept exactly when it is a number within 0 to 100;
/// a number outside that range, or a value of another type, gives none.
pub proof fn lemma_percentage_kept_in_range(d: PowerSourceDescription)
    ensures
        match d.spec_get("Current Capacity"@) {
            Some(DescValue::Number(n)) => if 0 <= n <= 100 {
                d.spec_percentage() == Some(n as u8)
            } else {
                d.spec_percentage() is None
            },
            _ => d.spec_percentage() is None,
        },
{
}

/// When a descriptor holds both a time to full charge and a time to empty,
/// each a positive number of minutes, the estimate is the time to empty, in
/// seconds: it is never reported as charging. The one limit is that the
/// seconds fit in a `u64`.
pub proof fn lemma_time_to_empty_wins(d: PowerSourceDescription, full: i64, empty: i64)
    requires
        d.spec_get("Time to Full Charge"@) == Some(DescValue::Number(full)),
        d.spec_get("Time to Empty"@) == Some(DescValue::Number(empty)),
        0 < full,
        0 < empty,
        empty * 60 <= u64::MAX,
    ensures
        d.spec_remaining() == Some(RemainingModel::Discharging((empty * 60) as u64)),
{
}

/// A positive time to full charge with no usable time to empty (absent, not
/// a number, or not positive) gives `Charging` for that many minutes, in
/// seconds; a time to full charge that is not positive gives nothing.
pub proof fn lemma_time_to_full_charges(d: PowerSourceDescription, full: i64)
    requires
        d.spec_get("Time to Full Charge"@) == Some(DescValue::Number(full)),
        full * 60 <= u64::MAX,
        match d.spec_get("Time to Empty"@) {
            Some(DescValue::Number(empty)) => empty <= 0,
            _ => true,
        },
    ensures
        0 < full ==> d.spec_remaining() == Some(RemainingModel::Charging((full * 60) as u64)),
        full <= 0 ==> d.spec_remaining() is None,
{
}

/// A machine that lists no power source, or none that can be read, is
/// reported as always plugged in, with no estimate.
pub proof fn lemma_no_source_means_ac(sources: Seq<Option<PowerSourceDescription>>, r: Status)
    requires
        forall|i: int| 0 <= i < sources.len() ==> (#[trigger] sources[i]) is None,
        chooses(sources, r),
    ensures
        r.power_state == PowerState::AC,
        r.is_no_battery_device(),
{
}

/// When exactly one source is tagged as the internal battery, it is the one
/// reported, wherever it stands in the list.
pub proof fn lemma_internal_battery_chosen(sources: Seq<Option<PowerSourceDescription>>, k: int, r: Status)
    requires
        is_internal_at(sources, k),
        forall|j: int| 0 <= j < sources.len() && j != k ==> !is_internal_at(sources, j),
        chooses(sources, r),
    ensures
        sources[k]->Some_0.describes(r),
{
    assert(is_first_internal(sources, k));
}

/// Whether two texts are the same.
fn same_text(a: &str, b: &str) -> (r: bool)
    ensures
        r == (a@ == b@),
{
    a.to_owned() == b.to_owned()
}

} // verus!
