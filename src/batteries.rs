use vstd::prelude::*;

use starship_battery::{Battery, Error as BatteryError, Manager};

verus! {

/// `starship_battery::Manager`, carried as an opaque value.
#[verifier::external_type_specification]
#[verifier::external_body]
pub struct ExManager(Manager);

/// One battery unit as the battery manager reported it. Its readings are
/// floating-point quantities, so the library carries it without looking inside.
#[verifier::external_body]
#[derive(Debug)]
pub struct BatteryUnit(pub Battery);

/// `starship_battery::Error`, carried as an opaque value.
#[verifier::external_type_specification]
#[verifier::external_body]
pub struct ExBatteryError(BatteryError);

/// Relies on `starship_battery::Manager::new`: opens the system's battery
/// manager, which may fail.
#[verifier::external_body]
fn open_manager() -> (r: Result<Manager, BatteryError>) {
    Manager::new()
}

/// Relies on `starship_battery::Manager::batteries` and on the iterator it
/// returns: the enumeration may fail as a whole; once started, it yields every
/// unit the system reports, in order, each read on its own and each of which
/// may have failed.
#[verifier::external_body]
fn enumerate(manager: &Manager) -> (r: Result<Vec<Result<BatteryUnit, BatteryError>>, BatteryError>) {
    manager.batteries().map(|units| units.map(|unit| unit.map(BatteryUnit)).collect())
}

/// Whether every read in `units` succeeded.
pub open spec fn all_succeeded<T, E>(units: Seq<Result<T, E>>) -> bool {
    forall|i: int| 0 <= i < units.len() ==> (#[trigger] units[i]) is Ok
}

/// The values of reads that all succeeded, in order.
pub open spec fn values_of<T, E>(units: Seq<Result<T, E>>) -> Seq<T> {
    units.map_values(|u: Result<T, E>| u->Ok_0)
}

/// Whether `i` is the position of the first failed read in `units`.
pub open spec fn is_first_failure<T, E>(units: Seq<Result<T, E>>, i: int) -> bool {
    &&& 0 <= i < units.len()
    &&& units[i] is Err
    &&& forall|j: int| 0 <= j < i ==> (#[trigger] units[j]) is Ok
}

/// Gathers per-unit reads into one list: every value in order when all of
/// them succeeded, otherwise the first failure. A failed unit is never
/// skipped.
pub fn gather_units<T, E>(units: Vec<Result<T, E>>) -> (r: Result<Vec<T>, E>)
    ensures
        r is Ok <==> all_succeeded(units@),
        r is Ok ==> r->Ok_0@ == values_of(units@),
        r is Err ==> exists|i: int| is_first_failure(units@, i) && units@[i] == Err::<T, E>(r->Err_0),
{
    let mut out: Vec<T> = Vec::new();
    let ghost all = units@;
    for u in it: units
        invariant
            all == it.seq(),
            it.index() <= all.len(),
            all_succeeded(all.take(it.index() as int)),
            out@ == values_of(all.take(it.index() as int)),
    {
        let ghost k = it.index() as int;
        match u {
            Ok(v) => {
                out.push(v);
                proof {
                    assert(all.take(k + 1) == all.take(k).push(all[k]));
                }
            },
            Err(e) => {
                proof {
                    assert(is_first_failure(all, k)) by {
                        assert forall|j: int| 0 <= j < k implies (#[trigger] all[j]) is Ok by {
                            assert(all.take(k)[j] == all[j]);
                        }
                    }
                }
                return Err(e);
            },
        }
    }
    proof {
        assert(all.take(all.len() as int) == all);
    }
    Ok(out)
}

/// The batteries of a listing: a listing that could not start gives its
/// failure; otherwise what `gather_units` makes of the units.
pub fn batteries_from<T, E>(listed: Result<Vec<Result<T, E>>, E>) -> (r: Result<Vec<T>, E>)
    ensures
        match listed {
            Err(e) => r == Err::<Vec<T>, E>(e),
            Ok(units) => {
                &&& (r is Ok <==> all_succeeded(units@))
                &&& (r is Ok ==> r->Ok_0@ == values_of(units@))
                &&& (r is Err ==> exists|i: int|
                    is_first_failure(units@, i) && units@[i] == Err::<T, E>(r->Err_0))
            },
        },
{
    match listed {
        Ok(units) => gather_units(units),
        Err(e) => Err(e),
    }
}

/// Lists the batteries the system reports. The whole call fails when the
/// battery manager cannot be opened, when the enumeration cannot start, or
/// when any one unit cannot be read.
pub fn get_batteries() -> (r: Result<Vec<BatteryUnit>, BatteryError>) {
    match open_manager() {
        Ok(manager) => batteries_from(enumerate(&manager)),
        Err(e) => Err(e),
    }
}

} // verus!
