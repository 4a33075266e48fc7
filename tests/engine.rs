use aquila_perf::calibration::{Chart, UNIT};
use aquila_perf::interp::{ceiling_lookup, interpolate, Segment};
use aquila_perf::pipeline::{
    calculate_aquila_performance_ldr, calculate_aquila_performance_tod, calculate_performance,
    PerfQueryParams, PerformanceInput, PerformanceResult, WindDirection,
};
use aquila_perf::stages::{
    calculate_wind_position, interpolate_tom_y, interpolate_y_values, oat_bracket,
    temperature_altitude_point, tom_x_offset, PerformanceError,
};

fn request(oat: i64, altitude: i64, mass: i64, wind: u64, direction: &str) -> PerfQueryParams {
    PerfQueryParams {
        oat: oat * UNIT,
        pressure_altitude: altitude * UNIT,
        mtow: mass * UNIT,
        wind: wind * UNIT as u64,
        wind_direction: direction.to_string(),
    }
}

fn input(oat: i64, altitude: i64, mass: i64, wind: u64, direction: WindDirection) -> PerformanceInput {
    PerformanceInput {
        oat: oat * UNIT,
        pressure_altitude: altitude * UNIT,
        mass: mass * UNIT,
        wind_speed: wind * UNIT as u64,
        wind_direction: direction,
    }
}

#[test]
fn ceiling_lookup_between_entries() {
    assert_eq!(ceiling_lookup(&[10, 20, 30], 15, 100), 20);
}

#[test]
fn ceiling_lookup_above_all_entries() {
    assert_eq!(ceiling_lookup(&[10, 20, 30], 35, 100), 100);
}

#[test]
fn ceiling_lookup_exact_entry() {
    assert_eq!(ceiling_lookup(&[10, 20, 30], 20, 100), 20);
}

#[test]
fn ceiling_lookup_below_all_and_empty() {
    assert_eq!(ceiling_lookup(&[10, 20, 30], -5, 100), 10);
    assert_eq!(ceiling_lookup(&[], 5, 100), 100);
}

#[test]
fn ceiling_lookup_first_of_equal_entries() {
    assert_eq!(ceiling_lookup(&[10, 20, 20, 30], 11, 100), 20);
    assert_eq!(ceiling_lookup(&[10, 30, 20], 15, 100), 30);
}

#[test]
fn interpolate_rounds_down() {
    assert_eq!(interpolate(10, 20, 1, 4), 12);
    assert_eq!(interpolate(0, 10, -1, 4), -3);
    assert_eq!(interpolate(100, 50, 1, 2), 75);
}

#[test]
fn interpolate_extrapolates_past_the_end() {
    assert_eq!(interpolate(10, 20, 3, 2), 25);
    assert_eq!(interpolate(10, 20, 0, 7), 10);
}

#[test]
fn segment_value_at_offset_axis() {
    let s = Segment { x_min: 100, x_max: 200, y_at_min: 1000, y_at_max: 2000 };
    assert_eq!(s.value_at(150), 1500);
    assert_eq!(s.value_at(100), 1000);
    assert_eq!(s.value_at(300), 3000);
}

#[test]
fn oat_bracket_at_chart_start() {
    assert_eq!(oat_bracket(-30 * UNIT), 0);
}

#[test]
fn oat_bracket_just_below_forty() {
    assert_eq!(oat_bracket(39_900_000), 6);
    let (y0, y1) = interpolate_y_values(Chart::Takeoff, 0, 6).unwrap();
    assert_eq!((y0, y1), (1_882_324_219, 1_932_324_219));
}

#[test]
fn oat_bracket_clamped_to_columns() {
    assert_eq!(oat_bracket(40 * UNIT), 7);
    assert_eq!(oat_bracket(55 * UNIT), 7);
    assert_eq!(oat_bracket(-45 * UNIT), 0);
    let (y0, y1) = interpolate_y_values(Chart::Takeoff, 0, 7).unwrap();
    assert_eq!(y0, y1);
}

#[test]
fn altitude_on_row_boundary_uses_lower_pair() {
    let (y0, _) = interpolate_y_values(Chart::Takeoff, 2000 * UNIT, 0).unwrap();
    assert_eq!(y0, 1_702_343_750);
    let (y0, _) = interpolate_y_values(Chart::Landing, 8000 * UNIT, 0).unwrap();
    assert_eq!(y0, 2_384_342_448);
}

#[test]
fn altitude_out_of_grid_is_refused() {
    assert_eq!(interpolate_y_values(Chart::Takeoff, 9000 * UNIT, 0), Err(PerformanceError::OutOfRangeInput));
    assert_eq!(interpolate_y_values(Chart::Landing, -1, 0), Err(PerformanceError::OutOfRangeInput));
    assert_eq!(interpolate_y_values(Chart::Landing, 8000 * UNIT + 1, 3), Err(PerformanceError::OutOfRangeInput));
}

#[test]
fn altitude_9000_fails_for_both_pipelines() {
    assert_eq!(
        calculate_aquila_performance_tod(request(15, 9000, 650, 10, "headwind")),
        Err(PerformanceError::OutOfRangeInput)
    );
    assert_eq!(
        calculate_aquila_performance_ldr(request(15, 9000, 650, 10, "headwind")),
        Err(PerformanceError::OutOfRangeInput)
    );
}

#[test]
fn unknown_wind_direction_is_refused() {
    assert_eq!(
        calculate_aquila_performance_tod(request(15, 1000, 650, 10, "crosswind")),
        Err(PerformanceError::InvalidEnum)
    );
    assert_eq!(
        calculate_aquila_performance_ldr(request(15, 9000, 650, 10, "Headwind")),
        Err(PerformanceError::InvalidEnum)
    );
    assert_eq!(WindDirection::from_tag("tailwind"), Ok(WindDirection::Tailwind));
    assert_eq!(WindDirection::from_tag("headwind"), Ok(WindDirection::Headwind));
    assert_eq!(WindDirection::from_tag(""), Err(PerformanceError::InvalidEnum));
}

#[test]
fn takeoff_end_to_end_scenario() {
    let r = calculate_aquila_performance_tod(request(15, 1000, 650, 10, "headwind")).unwrap();
    assert_eq!(
        r,
        PerformanceResult {
            oat_x: 1_595_345_051,
            oat_y: 1_870_328_776,
            tom_x: 3_072_184_245,
            tom_y: 1_709_953_051,
            wind_x: 4_588_525_390,
            wind_y: 1_549_337_915,
            obstacle_y: 2_012_590_203,
            ground_roll_distance_m: 179_947_309,
            total_distance_m: 334_998_480,
        }
    );
    assert!(r.ground_roll_distance_m >= 0 && r.total_distance_m >= 0);
    assert!(r.ground_roll_distance_m < r.total_distance_m);
    assert!(r.total_distance_m < 1000 * UNIT);
}

#[test]
fn landing_end_to_end_scenario() {
    let r = calculate_aquila_performance_ldr(request(15, 1000, 650, 10, "headwind")).unwrap();
    assert_eq!(
        r,
        PerformanceResult {
            oat_x: 1_403_785_342,
            oat_y: 2_174_829_101,
            tom_x: 2_670_166_015,
            tom_y: 2_101_548_813,
            wind_x: 4_186_474_609,
            wind_y: 1_842_017_421,
            obstacle_y: 1_331_303_609,
            ground_roll_distance_m: 180_316_947,
            total_distance_m: 433_803_934,
        }
    );
}

#[test]
fn takeoff_with_tailwind() {
    let r = calculate_performance(Chart::Takeoff, &input(20, 3000, 700, 5, WindDirection::Tailwind)).unwrap();
    assert_eq!(r.tom_y, 1_931_606_109);
    assert_eq!(r.wind_x, 4_276_977_538);
    assert_eq!(r.wind_y, 2_097_211_801);
    assert_eq!(r.obstacle_y, 3_028_292_672);
    assert_eq!(r.ground_roll_distance_m, 359_904_752);
    assert_eq!(r.total_distance_m, 669_986_827);
}

#[test]
fn landing_with_strong_tailwind_reads_strong_band() {
    let r = calculate_performance(Chart::Landing, &input(-5, 5000, 600, 12, WindDirection::Tailwind)).unwrap();
    assert_eq!(r.tom_y, 2_200_716_772);
    assert_eq!(r.wind_x, 4_335_891_927);
    assert_eq!(r.wind_y, 1_907_266_272);
    assert_eq!(r.obstacle_y, 1_359_150_886);
}

#[test]
fn takeoff_with_middle_headwind() {
    let r = calculate_performance(Chart::Takeoff, &input(25, 2000, 720, 12, WindDirection::Headwind)).unwrap();
    assert_eq!(r.wind_x, 4_713_144_531);
    assert_eq!(r.wind_y, 1_684_182_017);
    assert_eq!(r.total_distance_m, 391_032_526);
}

#[test]
fn landing_with_strong_headwind() {
    let r = calculate_performance(Chart::Landing, &input(35, 7000, 740, 18, WindDirection::Headwind)).unwrap();
    assert_eq!(r.oat_y, 2_756_323_242);
    assert_eq!(r.tom_y, 2_744_953_518);
    assert_eq!(r.wind_y, 2_110_146_771);
    assert_eq!(r.ground_roll_distance_m, 209_927_992);
    assert_eq!(r.total_distance_m, 505_230_481);
}

#[test]
fn hottest_highest_heaviest_takeoff() {
    let r = calculate_performance(Chart::Takeoff, &input(40, 8000, 750, 0, WindDirection::Headwind)).unwrap();
    assert_eq!(r.oat_y, 2_628_320_313);
    assert_eq!(r.tom_x, 2_367_122_396);
    assert_eq!(r.tom_y, 2_628_320_313);
    assert_eq!(r.total_distance_m, 954_544_533);
}

#[test]
fn calm_wind_passes_mass_point_through() {
    for chart in [Chart::Takeoff, Chart::Landing] {
        let r = calculate_performance(chart, &input(15, 1000, 650, 0, WindDirection::Headwind)).unwrap();
        assert_eq!((r.wind_x, r.wind_y), (r.tom_x, r.tom_y));
        let t = calculate_performance(chart, &input(15, 1000, 650, 0, WindDirection::Tailwind)).unwrap();
        assert_eq!(r, t);
    }
    assert_eq!(calculate_wind_position(Chart::Landing, 0, 1_700_000_000, 2_500_000_000), (2_500_000_000, 1_700_000_000));
}

#[test]
fn heavier_mass_lower_tom_x() {
    assert_eq!(tom_x_offset(Chart::Takeoff, 600 * UNIT), 3_424_715_169);
    assert_eq!(tom_x_offset(Chart::Takeoff, 700 * UNIT), 2_719_653_320);
    assert_eq!(tom_x_offset(Chart::Landing, 600 * UNIT), 2_966_691_080);
    assert_eq!(tom_x_offset(Chart::Landing, 700 * UNIT), 2_373_640_950);
    assert!(tom_x_offset(Chart::Takeoff, 700 * UNIT) < tom_x_offset(Chart::Takeoff, 600 * UNIT));
}

#[test]
fn tailwind_band_follows_height() {
    let below = calculate_wind_position(Chart::Takeoff, -5 * UNIT, 1_640_000_000, 3_000_000_000);
    let above = calculate_wind_position(Chart::Takeoff, -5 * UNIT, 1_642_000_000, 3_000_000_000);
    assert_eq!(below, (4_276_977_538, 1_752_893_967));
    assert_eq!(above, (4_276_977_538, 1_755_254_339));
    // The first band, extended past its limit, would have given 1_755_252_894.
    assert_ne!(above.1, 1_755_252_894);
    // The landing chart reads the same tailwind table as the takeoff chart, limits
    // included, although its heights run on another scale: suspicious, but as digitised.
    let landing = calculate_wind_position(Chart::Landing, -5 * UNIT, 1_640_891_928, 3_000_000_000);
    assert_eq!(landing, (3_812_931_315, 1_753_945_964));
}

#[test]
fn temperature_point_and_mass_stage() {
    let (x, y) = temperature_altitude_point(Chart::Takeoff, 15 * UNIT, 1000 * UNIT).unwrap();
    assert_eq!((x, y), (1_595_345_051, 1_870_328_776));
    assert_eq!(interpolate_tom_y(Chart::Takeoff, 650 * UNIT, y), 1_709_953_051);
    assert_eq!(
        temperature_altitude_point(Chart::Landing, 15 * UNIT, 8001 * UNIT),
        Err(PerformanceError::OutOfRangeInput)
    );
}
