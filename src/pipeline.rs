//! The takeoff and landing computations: one pipeline over the four stages,
//! read against either chart.

use vstd::prelude::*;
use crate::form::text_is;
use crate::calibration::{Chart, MASS_MAX, MASS_SPAN, TAILWIND_FIRST_LIMIT, WIND_BASE_LIMIT};
use crate::stages::{
    INPUT_LIMIT, PerformanceError, altitude_in_range, calculate_wind_position, ground_roll_distance,
    interpolate_obstacle_y, interpolate_tom_y, obstacle_y, oat_x, oat_y, read_distances,
    temperature_altitude_point, tom_x, tom_x_offset, tom_y, total_distance, wind_band, wind_x, wind_y,
    within,
};

verus! {

/// Which way the wind blows along the runway.
#[derive(Clone, Copy, Debug, PartialEq, Eq, Structural)]
pub enum WindDirection {
    Headwind,
    Tailwind,
}

pub open spec fn headwind_tag() -> Seq<char> {
    seq!['h', 'e', 'a', 'd', 'w', 'i', 'n', 'd']
}

pub open spec fn tailwind_tag() -> Seq<char> {
    seq!['t', 'a', 'i', 'l', 'w', 'i', 'n', 'd']
}

/// The direction that a tag names: "headwind" or "tailwind", nothing else.
pub open spec fn direction_of_tag(tag: Seq<char>) -> Option<WindDirection> {
    if tag == headwind_tag() {
        Some(WindDirection::Headwind)
    } else if tag == tailwind_tag() {
        Some(WindDirection::Tailwind)
    } else {
        None
    }
}

impl WindDirection {
    /// Reads a direction tag; any tag but "headwind" and "tailwind" is refused.
    pub fn from_tag(tag: &str) -> (r: Result<WindDirection, PerformanceError>)
        ensures
            direction_of_tag(tag@) is Some ==> r == Ok::<WindDirection, PerformanceError>(
                direction_of_tag(tag@)->Some_0,
            ),
            direction_of_tag(tag@) is None ==> r == Err::<WindDirection, PerformanceError>(
                PerformanceError::InvalidEnum,
            ),
    {
        proof {
            reveal_strlit("headwind");
            assert("headwind"@ =~= seq!['h', 'e', 'a', 'd', 'w', 'i', 'n', 'd']);
            reveal_strlit("tailwind");
            assert("tailwind"@ =~= seq!['t', 'a', 'i', 'l', 'w', 'i', 'n', 'd']);
        }
        if text_is(tag, "headwind") {
            Ok(WindDirection::Headwind)
        } else if text_is(tag, "tailwind") {
            Ok(WindDirection::Tailwind)
        } else {
            Err(PerformanceError::InvalidEnum)
        }
    }
}

/// What one computation reads the chart with. Temperature in °C, pressure altitude
/// in ft, mass in kg and wind speed in kt, each in millionths.
#[derive(Clone, Copy, Debug, PartialEq, Eq, Structural)]
pub struct PerformanceInput {
    pub oat: i64,
    pub pressure_altitude: i64,
    pub mass: i64,
    pub wind_speed: u64,
    pub wind_direction: WindDirection,
}

impl PerformanceInput {
    /// The temperature, mass and wind speed lie within the fixed-point domain.
    pub open spec fn within_limits(self) -> bool {
        &&& within(self.oat as int, INPUT_LIMIT as int)
        &&& within(self.mass as int, INPUT_LIMIT as int)
        &&& self.wind_speed <= INPUT_LIMIT
    }

    /// The wind as the chart reads it: headwind positive, tailwind negative.
    pub open spec fn signed_wind(self) -> int {
        match self.wind_direction {
            WindDirection::Headwind => self.wind_speed as int,
            WindDirection::Tailwind => -(self.wind_speed as int),
        }
    }
}

/// The result of one computation: the chart coordinates of each stage, for drawing
/// the reading over the chart, and the two distances in metres, all in millionths.
#[derive(Clone, Copy, Debug, PartialEq, Eq, Structural)]
pub struct PerformanceResult {
    pub oat_x: i64,
    pub oat_y: i64,
    pub tom_x: i64,
    pub tom_y: i64,
    pub wind_x: i64,
    pub wind_y: i64,
    pub obstacle_y: i64,
    pub ground_roll_distance_m: i64,
    pub total_distance_m: i64,
}

/// `r` is the reading of `chart` for `input`: each stage applied to the one before.
pub open spec fn is_reading(chart: Chart, input: PerformanceInput, r: PerformanceResult) -> bool {
    &&& r.oat_x == oat_x(chart, input.oat as int)
    &&& r.oat_y == oat_y(chart, input.oat as int, input.pressure_altitude as int)
    &&& r.tom_x == tom_x(chart, input.mass as int)
    &&& r.tom_y == tom_y(chart, input.mass as int, r.oat_y as int)
    &&& r.wind_x == wind_x(chart, input.signed_wind(), r.tom_x as int)
    &&& r.wind_y == wind_y(chart, input.signed_wind(), r.tom_y as int)
    &&& r.obstacle_y == obstacle_y(chart, r.wind_y as int)
    &&& r.ground_roll_distance_m == ground_roll_distance(chart, r.wind_y as int, r.obstacle_y as int)
    &&& r.total_distance_m == total_distance(chart, r.wind_y as int, r.obstacle_y as int)
}

/// Reads `chart` for `input`, stage after stage. Fails only where the pressure
/// altitude lies outside the charts.
pub fn calculate_performance(chart: Chart, input: &PerformanceInput) -> (r: Result<
    PerformanceResult,
    PerformanceError,
>)
    requires
        input.within_limits(),
    ensures
        r is Err <==> !altitude_in_range(input.pressure_altitude as int),
        r is Err ==> r->Err_0 == PerformanceError::OutOfRangeInput,
        r is Ok ==> is_reading(chart, *input, r->Ok_0),
{
    let (oat_x, oat_y) = match temperature_altitude_point(chart, input.oat, input.pressure_altitude) {
        Ok(point) => point,
        Err(e) => return Err(e),
    };
    let wind: i64 = match input.wind_direction {
        WindDirection::Headwind => input.wind_speed as i64,
        WindDirection::Tailwind => -(input.wind_speed as i64),
    };
    let tom_x = tom_x_offset(chart, input.mass);
    let tom_y = interpolate_tom_y(chart, input.mass, oat_y);
    let (wind_x, wind_y) = calculate_wind_position(chart, wind, tom_y, tom_x);
    let obstacle_y = interpolate_obstacle_y(chart, wind_y);
    let (ground_roll, total) = read_distances(chart, wind_y, obstacle_y);
    Ok(PerformanceResult {
        oat_x,
        oat_y,
        tom_x,
        tom_y,
        wind_x,
        wind_y,
        obstacle_y,
        ground_roll_distance_m: ground_roll,
        total_distance_m: total,
    })
}

/// A computation request as the web form sends it, with the wind direction as a tag.
/// Temperature, altitude, mass and wind speed in millionths of °C, ft, kg and kt.
#[derive(Debug)]
pub struct PerfQueryParams {
    pub oat: i64,
    pub pressure_altitude: i64,
    pub mtow: i64,
    pub wind: u64,
    pub wind_direction: String,
}

impl PerfQueryParams {
    pub open spec fn within_limits(&self) -> bool {
        &&& within(self.oat as int, INPUT_LIMIT as int)
        &&& within(self.mtow as int, INPUT_LIMIT as int)
        &&& self.wind <= INPUT_LIMIT
    }

    /// The input that the request stands for, once its direction is read.
    pub open spec fn input(&self, direction: WindDirection) -> PerformanceInput {
        PerformanceInput {
            oat: self.oat,
            pressure_altitude: self.pressure_altitude,
            mass: self.mtow,
            wind_speed: self.wind,
            wind_direction: direction,
        }
    }
}

/// What a request gives on `chart`: an unknown direction tag is refused first,
/// then an altitude outside the charts; otherwise the chart's reading.
pub open spec fn request_answered(
    chart: Chart,
    params: PerfQueryParams,
    r: Result<PerformanceResult, PerformanceError>,
) -> bool {
    match direction_of_tag(params.wind_direction@) {
        None => r == Err::<PerformanceResult, PerformanceError>(PerformanceError::InvalidEnum),
        Some(direction) => if !altitude_in_range(params.pressure_altitude as int) {
            r == Err::<PerformanceResult, PerformanceError>(PerformanceError::OutOfRangeInput)
        } else {
            r is Ok && is_reading(chart, params.input(direction), r->Ok_0)
        },
    }
}

fn answer_request(chart: Chart, query_params: &PerfQueryParams) -> (r: Result<
    PerformanceResult,
    PerformanceError,
>)
    requires
        query_params.within_limits(),
    ensures
        request_answered(chart, *query_params, r),
{
    let direction = match WindDirection::from_tag(query_params.wind_direction.as_str()) {
        Ok(d) => d,
        Err(e) => return Err(e),
    };
    let input = PerformanceInput {
        oat: query_params.oat,
        pressure_altitude: query_params.pressure_altitude,
        mass: query_params.mtow,
        wind_speed: query_params.wind,
        wind_direction: direction,
    };
    calculate_performance(chart, &input)
}

/// The landing distance computation for a request.
pub fn calculate_aquila_performance_ldr(query_params: PerfQueryParams) -> (r: Result<
    PerformanceResult,
    PerformanceError,
>)
    requires
        query_params.within_limits(),
    ensures
        request_answered(Chart::Landing, query_params, r),
{
    answer_request(Chart::Landing, &query_params)
}

/// The takeoff distance computation for a request.
pub fn calculate_aquila_performance_tod(query_params: PerfQueryParams) -> (r: Result<
    PerformanceResult,
    PerformanceError,
>)
    requires
        query_params.within_limits(),
    ensures
        request_answered(Chart::Takeoff, query_params, r),
{
    answer_request(Chart::Takeoff, &query_params)
}

// ---------------------------------------------------------------- laws

/// With calm wind the wind stage hands on the mass stage's point unchanged:
/// in every reading of either chart, the wind point is the mass point.
pub proof fn lemma_calm_wind_is_identity(chart: Chart, input: PerformanceInput, r: PerformanceResult)
    requires
        input.wind_speed == 0,
        is_reading(chart, input, r),
    ensures
        r.wind_x == r.tom_x,
        r.wind_y == r.tom_y,
{
}

/// The mass axis runs from 750 kg at its start to 550 kg at its end, so a heavier
/// aircraft is placed strictly nearer the start: the mass x falls as the mass grows.
pub proof fn lemma_heavier_mass_lower_tom_x(chart: Chart, lighter: int, heavier: int)
    requires
        lighter < heavier,
    ensures
        tom_x(chart, heavier) < tom_x(chart, lighter),
{
    let d = chart.tom_x_end() - chart.tom_x_start();
    let span = MASS_SPAN as int;
    assert(d >= span);
    let n_heavy = d * (MASS_MAX - heavier);
    let n_light = d * (MASS_MAX - lighter);
    let k = heavier - lighter;
    assert(n_light == n_heavy + d * k) by (nonlinear_arith)
        requires
            n_heavy == d * (MASS_MAX - heavier),
            n_light == d * (MASS_MAX - lighter),
            k == heavier - lighter,
    ;
    assert(d * k >= d) by (nonlinear_arith)
        requires
            k >= 1,
            d >= 0,
    ;
    let q_heavy = n_heavy / span;
    let q_light = n_light / span;
    vstd::arithmetic::div_mod::lemma_fundamental_div_mod(n_heavy, span);
    vstd::arithmetic::div_mod::lemma_fundamental_div_mod(n_light, span);
    assert(q_heavy < q_light) by (nonlinear_arith)
        requires
            n_heavy == span * q_heavy + n_heavy % span,
            n_light == span * q_light + n_light % span,
            0 <= n_heavy % span < span,
            0 <= n_light % span < span,
            n_light >= n_heavy + span,
            span > 0,
    ;
}

/// Within 10 kt of tailwind the correction band follows the height reached after
/// the mass correction, not the wind: two heights on either side of the first band
/// limit read different bands for the same wind.
pub proof fn lemma_tailwind_band_follows_height(chart: Chart, wind: int, below: int, above: int)
    requires
        -WIND_BASE_LIMIT <= wind < 0,
        below <= TAILWIND_FIRST_LIMIT < above,
    ensures
        wind_band(chart, wind, below) != wind_band(chart, wind, above),
{
}


} // verus!
