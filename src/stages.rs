//! The four stages of a chart reading: temperature and altitude, mass, wind,
//! and obstacle with the distance scales.

use vstd::prelude::*;
use crate::calibration::{
    Band, Chart, ALTITUDE_MAX, ALTITUDE_STEP, DISTANCE_SCALE, MASS_MAX, MASS_SPAN, OAT_COLUMNS,
    OAT_MIN, OAT_SPAN, OAT_STEP, WIND_BASE_LIMIT, WIND_MID_LIMIT, WIND_SPAN, spec_tailwind_band,
    tailwind_band,
};
use crate::interp::{
    ceiling, ceiling_lookup, interpolate, lemma_ceiling_within, lemma_lerp_between,
    lemma_lerp_step_bound, lerp,
};

verus! {

/// Largest magnitude of a temperature, mass or wind speed that the fixed-point
/// computation accepts: 10 000 whole units. Every intermediate chart coordinate
/// then fits in an `i64`.
pub const INPUT_LIMIT: i64 = 10_000_000_000;

/// Bounds on the intermediate chart heights, for inputs within `INPUT_LIMIT`.
pub const OAT_Y_BOUND: i64 = 1_400_000_000_000;
pub const TOM_Y_BOUND: i64 = 700_000_000_000_000;
pub const WIND_Y_BOUND: i64 = 40_000_000_000_000_000;
pub const OBSTACLE_Y_BOUND: i64 = 100_000_000_000_000_000;

/// Bound on the chart x-coordinates, for inputs within `INPUT_LIMIT`.
pub const X_BOUND: i64 = 1_000_000_000_000;

/// Why a performance computation was refused.
#[derive(Clone, Copy, Debug, PartialEq, Eq, Structural)]
pub enum PerformanceError {
    /// The pressure altitude lies outside the 0 to 8000 ft of the charts.
    OutOfRangeInput,
    /// A categorical input is none of the values it may take.
    InvalidEnum,
}

pub open spec fn within(x: int, bound: int) -> bool {
    -bound <= x <= bound
}

pub open spec fn magnitude(x: int) -> int {
    if x < 0 {
        -x
    } else {
        x
    }
}

// ---------------------------------------------------------------- temperature and altitude

/// The temperature bracket: `floor((oat + 30) / 10)`, kept within the eight columns.
pub open spec fn bracket_index(oat: int) -> int {
    let b = (oat - OAT_MIN) / (OAT_STEP as int);
    if b < 0 {
        0
    } else if b > 7 {
        7
    } else {
        b
    }
}

/// The column after `b`, or `b` itself at the last column.
pub open spec fn next_bracket(b: int) -> int {
    if b + 1 < OAT_COLUMNS {
        b + 1
    } else {
        b
    }
}

/// How far the temperature lies past the start of its bracket.
pub open spec fn oat_offset(oat: int) -> int {
    oat - OAT_MIN - OAT_STEP * bracket_index(oat)
}

pub open spec fn altitude_in_range(pressure_altitude: int) -> bool {
    0 <= pressure_altitude <= ALTITUDE_MAX
}

/// The lower of the two grid rows around the altitude; a boundary altitude
/// belongs to the lower pair.
pub open spec fn altitude_row(pressure_altitude: int) -> int {
    if pressure_altitude <= 2_000_000_000 {
        0
    } else if pressure_altitude <= 4_000_000_000 {
        1
    } else if pressure_altitude <= 6_000_000_000 {
        2
    } else {
        3
    }
}

pub open spec fn grid_value(chart: Chart, row: int, column: int) -> int {
    chart.spec_oat_grid()[row * OAT_COLUMNS + column] as int
}

/// The grid interpolated to the altitude, at column `b` and at the column after it.
pub open spec fn altitude_values(chart: Chart, pressure_altitude: int, b: int) -> (int, int) {
    let row = altitude_row(pressure_altitude);
    let offset = pressure_altitude - ALTITUDE_STEP * row;
    let n = next_bracket(b);
    (
        lerp(grid_value(chart, row, b), grid_value(chart, row + 1, b), offset, ALTITUDE_STEP as int),
        lerp(grid_value(chart, row, n), grid_value(chart, row + 1, n), offset, ALTITUDE_STEP as int),
    )
}

/// Chart height of the temperature and altitude point.
pub open spec fn oat_y(chart: Chart, oat: int, pressure_altitude: int) -> int {
    let (y0, y1) = altitude_values(chart, pressure_altitude, bracket_index(oat));
    lerp(y0, y1, oat_offset(oat), OAT_STEP as int)
}

/// Chart x of the temperature on the temperature axis.
pub open spec fn oat_x(chart: Chart, oat: int) -> int {
    lerp(chart.oat_x_start() as int, chart.oat_x_end() as int, oat - OAT_MIN, OAT_SPAN as int)
}

/// The bracket of a temperature: `floor((oat + 30) / 10)`, at least the first
/// column and at most the last.
pub fn oat_bracket(oat: i64) -> (r: usize)
    requires
        within(oat as int, INPUT_LIMIT as int),
    ensures
        r == bracket_index(oat as int),
        r < OAT_COLUMNS,
{
    let shifted = oat - OAT_MIN;
    let b = match shifted.checked_div_euclid(OAT_STEP) {
        Some(q) => q,
        None => 0,
    };
    if b < 0 {
        0
    } else if b > 7 {
        7
    } else {
        b as usize
    }
}

/// The grid read at the pressure altitude, at the bracket's column and at the
/// next one; an altitude outside 0 to 8000 ft is refused.
pub fn interpolate_y_values(chart: Chart, pressure_altitude: i64, bracket: usize) -> (r: Result<
    (i64, i64),
    PerformanceError,
>)
    requires
        bracket < OAT_COLUMNS,
    ensures
        r is Err <==> !altitude_in_range(pressure_altitude as int),
        r is Err ==> r->Err_0 == PerformanceError::OutOfRangeInput,
        r is Ok ==> r->Ok_0.0 == altitude_values(chart, pressure_altitude as int, bracket as int).0,
        r is Ok ==> r->Ok_0.1 == altitude_values(chart, pressure_altitude as int, bracket as int).1,
        r is Ok ==> 1_600_000_000 <= r->Ok_0.0 <= 2_900_000_000,
        r is Ok ==> 1_600_000_000 <= r->Ok_0.1 <= 2_900_000_000,
{
    if pressure_altitude < 0 || pressure_altitude > ALTITUDE_MAX {
        return Err(PerformanceError::OutOfRangeInput);
    }
    let row: usize = if pressure_altitude <= 2_000_000_000 {
        0
    } else if pressure_altitude <= 4_000_000_000 {
        1
    } else if pressure_altitude <= 6_000_000_000 {
        2
    } else {
        3
    };
    let offset = pressure_altitude - ALTITUDE_STEP * row as i64;
    let next = if bracket + 1 < OAT_COLUMNS {
        bracket + 1
    } else {
        bracket
    };
    let grid = chart.oat_grid();
    proof {
        chart.lemma_oat_grid_bounds();
        let g = chart.spec_oat_grid();
        lemma_lerp_between(
            g[row * 8 + bracket] as int,
            g[(row + 1) * 8 + bracket] as int,
            offset as int,
            ALTITUDE_STEP as int,
        );
        lemma_lerp_between(
            g[row * 8 + next] as int,
            g[(row + 1) * 8 + next] as int,
            offset as int,
            ALTITUDE_STEP as int,
        );
    }
    let at_bracket = interpolate(
        grid[row * OAT_COLUMNS + bracket],
        grid[(row + 1) * OAT_COLUMNS + bracket],
        offset,
        ALTITUDE_STEP,
    );
    let at_next = interpolate(
        grid[row * OAT_COLUMNS + next],
        grid[(row + 1) * OAT_COLUMNS + next],
        offset,
        ALTITUDE_STEP,
    );
    Ok((at_bracket, at_next))
}

/// The temperature and altitude point: its chart x and its chart height.
pub fn temperature_altitude_point(chart: Chart, oat: i64, pressure_altitude: i64) -> (r: Result<
    (i64, i64),
    PerformanceError,
>)
    requires
        within(oat as int, INPUT_LIMIT as int),
    ensures
        r is Err <==> !altitude_in_range(pressure_altitude as int),
        r is Err ==> r->Err_0 == PerformanceError::OutOfRangeInput,
        r is Ok ==> r->Ok_0.0 == oat_x(chart, oat as int),
        r is Ok ==> r->Ok_0.1 == oat_y(chart, oat as int, pressure_altitude as int),
        r is Ok ==> within(r->Ok_0.0 as int, X_BOUND as int),
        r is Ok ==> within(r->Ok_0.1 as int, OAT_Y_BOUND as int),
{
    let bracket = oat_bracket(oat);
    let (y0, y1) = match interpolate_y_values(chart, pressure_altitude, bracket) {
        Ok(values) => values,
        Err(e) => return Err(e),
    };
    let offset = oat - OAT_MIN - OAT_STEP * bracket as i64;
    proof {
        lemma_lerp_step_bound(
            y0 as int,
            y1 as int,
            offset as int,
            OAT_STEP as int,
            1_300_000_000,
            10_100_000_000,
            OAT_STEP as int,
        );
        lemma_lerp_step_bound(
            chart.oat_x_start() as int,
            chart.oat_x_end() as int,
            oat - OAT_MIN,
            OAT_SPAN as int,
            2_000_000_000,
            10_030_000_000,
            OAT_SPAN as int,
        );
    }
    let y = interpolate(y0, y1, offset, OAT_STEP);
    let x = interpolate(chart.oat_x_start(), chart.oat_x_end(), oat - OAT_MIN, OAT_SPAN);
    Ok((x, y))
}

// ---------------------------------------------------------------- mass

/// Chart x of the mass on the mass axis, which runs from 750 kg to 550 kg.
pub open spec fn tom_x(chart: Chart, mass: int) -> int {
    lerp(chart.tom_x_start() as int, chart.tom_x_end() as int, MASS_MAX - mass, MASS_SPAN as int)
}

/// Chart height after the mass correction: both segments of the band are read at
/// the mass, then blended by where the temperature and altitude height lies in the band.
pub open spec fn tom_y(chart: Chart, mass: int, oat_y: int) -> int {
    let band = chart.spec_mass_band(oat_y);
    let u = MASS_MAX - mass;
    lerp(
        band.low.value(u),
        band.high.value(u),
        oat_y - band.low.y_at_min,
        band.high.y_at_min - band.low.y_at_min,
    )
}

/// The mass placed on the chart's mass axis.
pub fn tom_x_offset(chart: Chart, mass: i64) -> (r: i64)
    requires
        within(mass as int, INPUT_LIMIT as int),
    ensures
        r == tom_x(chart, mass as int),
        within(r as int, X_BOUND as int),
{
    proof {
        lemma_lerp_step_bound(
            chart.tom_x_start() as int,
            chart.tom_x_end() as int,
            MASS_MAX - mass,
            MASS_SPAN as int,
            1_500_000_000,
            10_750_000_000,
            MASS_SPAN as int,
        );
    }
    interpolate(chart.tom_x_start(), chart.tom_x_end(), MASS_MAX - mass, MASS_SPAN)
}

/// The chart height after the mass correction.
pub fn interpolate_tom_y(chart: Chart, mass: i64, oat_y: i64) -> (r: i64)
    requires
        within(mass as int, INPUT_LIMIT as int),
        within(oat_y as int, OAT_Y_BOUND as int),
    ensures
        r == tom_y(chart, mass as int, oat_y as int),
        within(r as int, TOM_Y_BOUND as int),
{
    let band = chart.mass_band(oat_y);
    let u = MASS_MAX - mass;
    proof {
        lemma_lerp_step_bound(
            band.low.y_at_min as int,
            band.low.y_at_max as int,
            u as int,
            MASS_SPAN as int,
            300_000_000,
            10_750_000_000,
            MASS_SPAN as int,
        );
        lemma_lerp_step_bound(
            band.high.y_at_min as int,
            band.high.y_at_max as int,
            u as int,
            MASS_SPAN as int,
            300_000_000,
            10_750_000_000,
            MASS_SPAN as int,
        );
    }
    let low = band.low.value_at(u);
    let high = band.high.value_at(u);
    proof {
        lemma_lerp_step_bound(
            low as int,
            high as int,
            oat_y - band.low.y_at_min,
            band.high.y_at_min - band.low.y_at_min,
            38_000_000_000,
            1_410_000_000_000,
            86_000_000,
        );
    }
    interpolate(low, high, oat_y - band.low.y_at_min, band.high.y_at_min - band.low.y_at_min)
}


// ---------------------------------------------------------------- wind

/// The wind band that a signed wind reads (headwind positive, tailwind negative).
/// Within 10 kt of tailwind the band is chosen by the height `tom_y`, not by the wind.
pub open spec fn wind_band(chart: Chart, wind: int, tom_y: int) -> Band {
    if 0 <= wind <= WIND_BASE_LIMIT {
        chart.spec_wind_base_band()
    } else if WIND_BASE_LIMIT < wind <= WIND_MID_LIMIT {
        chart.spec_wind_mid_band()
    } else if -WIND_BASE_LIMIT <= wind < 0 {
        spec_tailwind_band(tom_y)
    } else {
        chart.spec_wind_strong_band()
    }
}

/// How far along its band's own axis the wind reads: the wind itself up to 10 kt
/// either way, the part past 10 kt up to 15 kt of headwind, and the wind's
/// magnitude modulo 15 kt beyond.
pub open spec fn wind_offset(wind: int) -> int {
    if 0 <= wind <= WIND_BASE_LIMIT {
        wind
    } else if WIND_BASE_LIMIT < wind <= WIND_MID_LIMIT {
        wind - WIND_BASE_LIMIT
    } else if -WIND_BASE_LIMIT <= wind < 0 {
        -wind
    } else {
        magnitude(wind) % (WIND_MID_LIMIT as int)
    }
}

/// The band whose edges place the height between the two corrected values: the
/// base band for a headwind, the band read for a tailwind.
pub open spec fn blend_band(chart: Chart, wind: int, tom_y: int) -> Band {
    if wind >= 0 {
        chart.spec_wind_base_band()
    } else {
        wind_band(chart, wind, tom_y)
    }
}

/// Chart height after the wind correction; calm wind leaves it unchanged.
pub open spec fn wind_y(chart: Chart, wind: int, tom_y: int) -> int {
    if wind == 0 {
        tom_y
    } else {
        let band = wind_band(chart, wind, tom_y);
        let offset = wind_offset(wind);
        let blend = blend_band(chart, wind, tom_y);
        lerp(
            band.low.value(offset),
            band.high.value(offset),
            tom_y - blend.low.y_at_min,
            blend.high.y_at_min - blend.low.y_at_min,
        )
    }
}

/// Chart x after the wind correction: the wind's magnitude on the wind axis;
/// calm wind leaves the mass x unchanged.
pub open spec fn wind_x(chart: Chart, wind: int, tom_x: int) -> int {
    if wind == 0 {
        tom_x
    } else {
        lerp(chart.wind_x_start() as int, chart.wind_x_end() as int, magnitude(wind), WIND_SPAN as int)
    }
}

/// The point after the wind correction, as `(x, y)`, for a signed wind.
pub fn calculate_wind_position(chart: Chart, wind: i64, tom_y: i64, tom_x: i64) -> (r: (i64, i64))
    requires
        within(wind as int, INPUT_LIMIT as int),
        within(tom_y as int, TOM_Y_BOUND as int),
        within(tom_x as int, X_BOUND as int),
    ensures
        r.0 == wind_x(chart, wind as int, tom_x as int),
        r.1 == wind_y(chart, wind as int, tom_y as int),
        wind == 0 ==> r == (tom_x, tom_y),
        wind != 0 ==> r.0 >= 0,
        within(r.0 as int, X_BOUND as int),
        within(r.1 as int, WIND_Y_BOUND as int),
{
    if wind == 0 {
        return (tom_x, tom_y);
    }
    let speed = if wind < 0 {
        -wind
    } else {
        wind
    };
    let (band, offset) = if 0 <= wind && wind <= WIND_BASE_LIMIT {
        (chart.wind_base_band(), wind)
    } else if WIND_BASE_LIMIT < wind && wind <= WIND_MID_LIMIT {
        (chart.wind_mid_band(), wind - WIND_BASE_LIMIT)
    } else if -WIND_BASE_LIMIT <= wind && wind < 0 {
        (tailwind_band(tom_y), -wind)
    } else {
        (chart.wind_strong_band(), ((speed as u64) % (WIND_MID_LIMIT as u64)) as i64)
    };
    let blend = if wind >= 0 {
        chart.wind_base_band()
    } else {
        band
    };
    proof {
        lemma_lerp_step_bound(
            chart.wind_x_start() as int,
            chart.wind_x_end() as int,
            speed as int,
            WIND_SPAN as int,
            1_500_000_000,
            INPUT_LIMIT as int,
            WIND_SPAN as int,
        );
        lemma_lerp_step_bound(
            band.low.y_at_min as int,
            band.low.y_at_max as int,
            offset as int,
            band.low.x_max - band.low.x_min,
            450_000_000,
            15_000_000,
            5_000_000,
        );
        lemma_lerp_step_bound(
            band.high.y_at_min as int,
            band.high.y_at_max as int,
            offset as int,
            band.high.x_max - band.high.x_min,
            450_000_000,
            15_000_000,
            5_000_000,
        );
    }
    let x = interpolate(chart.wind_x_start(), chart.wind_x_end(), speed, WIND_SPAN);
    let low = band.low.value_at(offset);
    let high = band.high.value_at(offset);
    proof {
        lemma_lerp_step_bound(
            low as int,
            high as int,
            tom_y - blend.low.y_at_min,
            blend.high.y_at_min - blend.low.y_at_min,
            8_000_000_000,
            710_000_000_000_000,
            180_000_000,
        );
    }
    let y = interpolate(low, high, tom_y - blend.low.y_at_min, blend.high.y_at_min - blend.low.y_at_min);
    (x, y)
}

// ---------------------------------------------------------------- obstacle and distances

/// Chart height after the obstacle correction.
pub open spec fn obstacle_y(chart: Chart, wind_y: int) -> int {
    chart.spec_obstacle_segment().value(wind_y)
}

/// A height on the distance scale in metres: 1000 m at the scale's end.
pub open spec fn scaled_distance(chart: Chart, chart_y: int) -> int {
    lerp(
        0,
        DISTANCE_SCALE as int,
        chart_y - chart.distance_y_start(),
        chart.distance_y_end() - chart.distance_y_start(),
    )
}

/// The ground roll: the ground-roll scale read at its height, in metres.
pub open spec fn ground_roll_distance(chart: Chart, wind_y: int, obstacle_y: int) -> int {
    scaled_distance(
        chart,
        ceiling(
            chart.spec_ground_roll_brackets(),
            chart.ground_roll_query(wind_y, obstacle_y),
            chart.distance_y_end() as int,
        ),
    )
}

/// The total distance: the total distance scale read at its height, in metres.
pub open spec fn total_distance(chart: Chart, wind_y: int, obstacle_y: int) -> int {
    scaled_distance(
        chart,
        ceiling(
            chart.spec_total_brackets(),
            chart.total_query(wind_y, obstacle_y),
            chart.distance_y_end() as int,
        ),
    )
}

/// The obstacle correction of the wind-corrected height.
pub fn interpolate_obstacle_y(chart: Chart, wind_y: i64) -> (r: i64)
    requires
        within(wind_y as int, WIND_Y_BOUND as int),
    ensures
        r == obstacle_y(chart, wind_y as int),
        within(r as int, OBSTACLE_Y_BOUND as int),
{
    let segment = chart.obstacle_segment();
    proof {
        lemma_lerp_step_bound(
            segment.y_at_min as int,
            segment.y_at_max as int,
            wind_y - segment.x_min,
            segment.x_max - segment.x_min,
            180_000_000,
            40_002_000_000_000_000,
            96_000_000,
        );
    }
    segment.value_at(wind_y)
}

/// A height of the distance scale, turned into metres.
pub fn scale_distance(chart: Chart, chart_y: i64) -> (r: i64)
    requires
        900_000_000 <= chart_y <= 5_000_000_000,
    ensures
        r == scaled_distance(chart, chart_y as int),
{
    let start = chart.distance_y_start();
    let end = chart.distance_y_end();
    proof {
        lemma_lerp_step_bound(
            0,
            DISTANCE_SCALE as int,
            chart_y - start,
            end - start,
            DISTANCE_SCALE as int,
            4_200_000_000,
            2_200_000_000,
        );
    }
    interpolate(0, DISTANCE_SCALE, chart_y - start, end - start)
}

/// The ground roll and the total distance, in metres, from the wind-corrected and
/// the obstacle-corrected heights.
pub fn read_distances(chart: Chart, wind_y: i64, obstacle_y: i64) -> (r: (i64, i64))
    ensures
        r.0 == ground_roll_distance(chart, wind_y as int, obstacle_y as int),
        r.1 == total_distance(chart, wind_y as int, obstacle_y as int),
{
    let end = chart.distance_y_end();
    let (ground_query, total_query) = match chart {
        Chart::Takeoff => (wind_y, obstacle_y),
        Chart::Landing => (obstacle_y, wind_y),
    };
    let ground_brackets = chart.ground_roll_brackets();
    let total_brackets = chart.total_brackets();
    let ground_y = ceiling_lookup(ground_brackets.as_slice(), ground_query, end);
    let total_y = ceiling_lookup(total_brackets.as_slice(), total_query, end);
    proof {
        chart.lemma_bracket_bounds();
        lemma_ceiling_within(
            chart.spec_ground_roll_brackets(),
            0,
            ground_query as int,
            end as int,
            900_000_000,
            5_000_000_000,
        );
        lemma_ceiling_within(
            chart.spec_total_brackets(),
            0,
            total_query as int,
            end as int,
            900_000_000,
            5_000_000_000,
        );
    }
    (scale_distance(chart, ground_y), scale_distance(chart, total_y))
}


} // verus!
