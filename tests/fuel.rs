use aquila_perf::fuel::{plan_fuel, FuelPlan};

#[test]
fn plan_with_enough_fuel() {
    assert_eq!(
        plan_fuel(50_000, 3600, 1800),
        FuelPlan {
            taxi_ml: 2_000,
            reserve_ml: 12_750,
            trip_ml: 17_000,
            alternate_ml: 8_500,
            contingency_ml: 1_700,
            extra_ml: 8_050,
            endurance_secs: 10_588,
        }
    );
}

#[test]
fn plan_short_of_fuel() {
    let plan = plan_fuel(30_000, 3600, 1800);
    assert_eq!(plan.extra_ml, -11_950);
    assert_eq!(plan.endurance_secs, 6_352);
}

#[test]
fn plan_rounds_burn_down() {
    let plan = plan_fuel(110_000, 100, 0);
    assert_eq!(plan.trip_ml, 472);
    assert_eq!(plan.contingency_ml, 47);
    assert_eq!(plan.alternate_ml, 0);
    assert_eq!(plan.extra_ml, 110_000 - 2_000 - 12_750 - 472 - 47);
}

#[test]
fn plan_without_fuel_has_no_endurance() {
    assert_eq!(plan_fuel(0, 0, 0).endurance_secs, 0);
    assert_eq!(plan_fuel(-5, 0, 0).endurance_secs, 0);
    assert_eq!(plan_fuel(0, 0, 0).extra_ml, -14_750);
}
