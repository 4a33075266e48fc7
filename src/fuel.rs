//! The fuel plan of a flight, in whole millilitres: taxi, reserve, trip, alternate
//! and contingency fuel, what is left over, and how long the fuel on board lasts.

use vstd::prelude::*;

verus! {

/// Fuel flow in cruise: 17 litres an hour.
pub const FUEL_FLOW_ML_PER_HOUR: i64 = 17_000;

/// Fuel for taxiing: 2 litres.
pub const TAXI_FUEL_ML: i64 = 2_000;

/// Final reserve: 45 minutes at the cruise fuel flow.
pub const RESERVE_FUEL_ML: i64 = 12_750;

/// Longest flight time that a plan accepts: about 31 million years, in seconds.
pub const FLIGHT_TIME_LIMIT: u64 = 1_000_000_000_000_000;

/// Largest fuel quantity that a plan accepts: a million cubic metres, in millilitres.
pub const FUEL_LIMIT: i64 = 1_000_000_000_000_000;

#[derive(Clone, Copy, Debug, PartialEq, Eq, Structural)]
pub struct FuelPlan {
    pub taxi_ml: i64,
    pub reserve_ml: i64,
    pub trip_ml: i64,
    pub alternate_ml: i64,
    pub contingency_ml: i64,
    /// Fuel on board beyond all of the above; negative where the fuel does not suffice.
    pub extra_ml: i64,
    /// How long the fuel on board lasts at the cruise fuel flow, in whole seconds.
    pub endurance_secs: u64,
}

/// Fuel burnt in `seconds` of flight at the cruise fuel flow, rounded down.
pub open spec fn burn(seconds: int) -> int {
    FUEL_FLOW_ML_PER_HOUR * seconds / 3600
}

/// The plan for `total_ml` on board, a trip of `trip_secs` and a diversion of `alternate_secs`.
pub open spec fn is_plan(total_ml: int, trip_secs: int, alternate_secs: int, p: FuelPlan) -> bool {
    &&& p.taxi_ml == TAXI_FUEL_ML
    &&& p.reserve_ml == RESERVE_FUEL_ML
    &&& p.trip_ml == burn(trip_secs)
    &&& p.alternate_ml == burn(alternate_secs)
    &&& p.contingency_ml == burn(trip_secs) / 10
    &&& p.extra_ml == total_ml - TAXI_FUEL_ML - RESERVE_FUEL_ML - burn(trip_secs) - burn(
        alternate_secs,
    ) - burn(trip_secs) / 10
    &&& p.endurance_secs as int == (if total_ml <= 0 {
        0
    } else {
        total_ml * 3600 / (FUEL_FLOW_ML_PER_HOUR as int)
    })
}

fn burn_ml(seconds: u64) -> (r: i64)
    requires
        seconds <= FLIGHT_TIME_LIMIT,
    ensures
        r == burn(seconds as int),
        0 <= r <= 5_000_000_000_000_000,
{
    let burnt = (FUEL_FLOW_ML_PER_HOUR as u128 * seconds as u128) / 3600;
    burnt as i64
}

/// Plans the fuel of a flight with `total_ml` on board.
pub fn plan_fuel(total_ml: i64, trip_secs: u64, alternate_secs: u64) -> (r: FuelPlan)
    requires
        -FUEL_LIMIT <= total_ml <= FUEL_LIMIT,
        trip_secs <= FLIGHT_TIME_LIMIT,
        alternate_secs <= FLIGHT_TIME_LIMIT,
    ensures
        is_plan(total_ml as int, trip_secs as int, alternate_secs as int, r),
        r.extra_ml >= 0 <==> total_ml >= r.taxi_ml + r.reserve_ml + r.trip_ml + r.alternate_ml
            + r.contingency_ml,
{
    let trip = burn_ml(trip_secs);
    let alternate = burn_ml(alternate_secs);
    let contingency = trip / 10;
    let extra = total_ml - TAXI_FUEL_ML - RESERVE_FUEL_ML - trip - alternate - contingency;
    let endurance: u64 = if total_ml <= 0 {
        0
    } else {
        ((total_ml as u128 * 3600) / FUEL_FLOW_ML_PER_HOUR as u128) as u64
    };
    FuelPlan {
        taxi_ml: TAXI_FUEL_ML,
        reserve_ml: RESERVE_FUEL_ML,
        trip_ml: trip,
        alternate_ml: alternate,
        contingency_ml: contingency,
        extra_ml: extra,
        endurance_secs: endurance,
    }
}

} // verus!
