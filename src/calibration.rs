//! Calibration data digitised from the takeoff and landing charts of the handbook.
//!
//! Every value is in millionths of its unit: chart coordinates, degrees Celsius,
//! feet, kilograms, knots and metres alike.

use vstd::prelude::*;
use crate::interp::Segment;

verus! {

/// One whole unit, in the millionths that every quantity is carried in.
pub const UNIT: i64 = 1_000_000;

/// The coldest temperature of the charts' grid: -30 °C.
pub const OAT_MIN: i64 = -30_000_000;

/// Width of one temperature bracket of the grid: 10 °C.
pub const OAT_STEP: i64 = 10_000_000;

/// Width of the whole temperature axis: 70 °C, from -30 °C to +40 °C.
pub const OAT_SPAN: i64 = 70_000_000;

/// Number of temperature columns in each altitude row of the grid.
pub const OAT_COLUMNS: usize = 8;

/// Number of altitude rows of the grid: 0, 2000, 4000, 6000 and 8000 ft.
pub const ALTITUDE_ROWS: usize = 5;

/// Altitude step between two rows of the grid: 2000 ft.
pub const ALTITUDE_STEP: i64 = 2_000_000_000;

/// Highest pressure altitude that the grid covers: 8000 ft.
pub const ALTITUDE_MAX: i64 = 8_000_000_000;

/// The heaviest mass of the mass axis: 750 kg.
pub const MASS_MAX: i64 = 750_000_000;

/// Width of the mass axis: 200 kg, from 750 kg down to 550 kg.
pub const MASS_SPAN: i64 = 200_000_000;

/// Width of the wind axis: 20 kt.
pub const WIND_SPAN: i64 = 20_000_000;

/// Upper end of the base wind band: 10 kt.
pub const WIND_BASE_LIMIT: i64 = 10_000_000;

/// Upper end of the middle headwind band: 15 kt.
pub const WIND_MID_LIMIT: i64 = 15_000_000;

/// The distance that the end of the distance scale stands for: 1000 m.
pub const DISTANCE_SCALE: i64 = 1_000_000_000;

/// Chart heights up to which the tailwind correction reads its first and second band.
pub const TAILWIND_FIRST_LIMIT: i64 = 1_640_891_927;
pub const TAILWIND_SECOND_LIMIT: i64 = 1_958_915_365;

/// Chart heights up to which the landing mass correction reads its first three bands.
pub const LANDING_MASS_FIRST_LIMIT: i64 = 2_002_083_333;
pub const LANDING_MASS_SECOND_LIMIT: i64 = 2_112_076_823;
pub const LANDING_MASS_THIRD_LIMIT: i64 = 2_232_096_354;

/// Which of the two charts a computation reads.
#[derive(Clone, Copy, Debug, PartialEq, Eq, Structural)]
pub enum Chart {
    /// Takeoff distance: ground roll and distance to clear the obstacle.
    Takeoff,
    /// Landing distance: distance from the obstacle and ground roll.
    Landing,
}

/// Two segments that bound one band of a correction grid; a point inside the
/// band is blended between them.
#[derive(Clone, Copy, Debug, PartialEq, Eq, Structural)]
pub struct Band {
    pub low: Segment,
    pub high: Segment,
}

/// A correction segment whose own axis starts at zero.
pub open spec fn spec_segment(x_max: i64, y_at_min: i64, y_at_max: i64) -> Segment {
    Segment { x_min: 0, x_max, y_at_min, y_at_max }
}

#[verifier::when_used_as_spec(spec_segment)]
pub fn segment(x_max: i64, y_at_min: i64, y_at_max: i64) -> (r: Segment)
    ensures
        r == spec_segment(x_max, y_at_min, y_at_max),
{
    Segment { x_min: 0, x_max, y_at_min, y_at_max }
}

pub open spec fn spec_band(low: Segment, high: Segment) -> Band {
    Band { low, high }
}

#[verifier::when_used_as_spec(spec_band)]
pub fn band(low: Segment, high: Segment) -> (r: Band)
    ensures
        r == spec_band(low, high),
{
    Band { low, high }
}

/// The tailwind correction: its band is chosen by the height at which the mass
/// correction left the chart, not by the wind. Both charts read this one table,
/// although their heights run on different scales; it is kept as digitised.
pub open spec fn spec_tailwind_band(tom_y: int) -> Band {
    if tom_y <= TAILWIND_FIRST_LIMIT {
        band(segment(10_000_000, 1_389_843_750, 1_525_843_750), segment(10_000_000, 1_640_891_927, 1_867_000_000))
    } else if tom_y <= TAILWIND_SECOND_LIMIT {
        band(segment(10_000_000, 1_640_891_927, 1_867_000_000), segment(10_000_000, 1_958_915_365, 2_300_000_000))
    } else {
        band(segment(10_000_000, 1_958_915_365, 2_300_000_000), segment(10_000_000, 2_262_979_167, 2_710_000_000))
    }
}

pub fn tailwind_band(tom_y: i64) -> (r: Band)
    ensures
        r == spec_tailwind_band(tom_y as int),
{
    if tom_y <= TAILWIND_FIRST_LIMIT {
        band(segment(10_000_000, 1_389_843_750, 1_525_843_750), segment(10_000_000, 1_640_891_927, 1_867_000_000))
    } else if tom_y <= TAILWIND_SECOND_LIMIT {
        band(segment(10_000_000, 1_640_891_927, 1_867_000_000), segment(10_000_000, 1_958_915_365, 2_300_000_000))
    } else {
        band(segment(10_000_000, 1_958_915_365, 2_300_000_000), segment(10_000_000, 2_262_979_167, 2_710_000_000))
    }
}

impl Chart {
    /// Chart x of -30 °C on the temperature axis.
    pub open spec fn spec_oat_x_start(self) -> i64 {
        match self {
            Chart::Takeoff => 562_923_177,
            Chart::Landing => 562_923_177,
        }
    }

    #[verifier::when_used_as_spec(spec_oat_x_start)]
    pub fn oat_x_start(self) -> (r: i64)
        ensures
            r == self.spec_oat_x_start(),
    {
        match self {
            Chart::Takeoff => 562_923_177,
            Chart::Landing => 562_923_177,
        }
    }

    /// Chart x of +40 °C on the temperature axis.
    pub open spec fn spec_oat_x_end(self) -> i64 {
        match self {
            Chart::Takeoff => 2_168_912_760,
            Chart::Landing => 1_870_930_990,
        }
    }

    #[verifier::when_used_as_spec(spec_oat_x_end)]
    pub fn oat_x_end(self) -> (r: i64)
        ensures
            r == self.spec_oat_x_end(),
    {
        match self {
            Chart::Takeoff => 2_168_912_760,
            Chart::Landing => 1_870_930_990,
        }
    }

    /// Chart x of 750 kg on the mass axis.
    pub open spec fn spec_tom_x_start(self) -> i64 {
        match self {
            Chart::Takeoff => 2_367_122_396,
            Chart::Landing => 2_077_115_885,
        }
    }

    #[verifier::when_used_as_spec(spec_tom_x_start)]
    pub fn tom_x_start(self) -> (r: i64)
        ensures
            r == self.spec_tom_x_start(),
    {
        match self {
            Chart::Takeoff => 2_367_122_396,
            Chart::Landing => 2_077_115_885,
        }
    }

    /// Chart x of 550 kg on the mass axis.
    pub open spec fn spec_tom_x_end(self) -> i64 {
        match self {
            Chart::Takeoff => 3_777_246_094,
            Chart::Landing => 3_263_216_146,
        }
    }

    #[verifier::when_used_as_spec(spec_tom_x_end)]
    pub fn tom_x_end(self) -> (r: i64)
        ensures
            r == self.spec_tom_x_end(),
    {
        match self {
            Chart::Takeoff => 3_777_246_094,
            Chart::Landing => 3_263_216_146,
        }
    }

    /// Chart x of calm wind on the wind axis.
    pub open spec fn spec_wind_x_start(self) -> i64 {
        match self {
            Chart::Takeoff => 3_965_429_687,
            Chart::Landing => 3_439_388_021,
        }
    }

    #[verifier::when_used_as_spec(spec_wind_x_start)]
    pub fn wind_x_start(self) -> (r: i64)
        ensures
            r == self.spec_wind_x_start(),
    {
        match self {
            Chart::Takeoff => 3_965_429_687,
            Chart::Landing => 3_439_388_021,
        }
    }

    /// Chart x of 20 kt on the wind axis.
    pub open spec fn spec_wind_x_end(self) -> i64 {
        match self {
            Chart::Takeoff => 5_211_621_094,
            Chart::Landing => 4_933_561_198,
        }
    }

    #[verifier::when_used_as_spec(spec_wind_x_end)]
    pub fn wind_x_end(self) -> (r: i64)
        ensures
            r == self.spec_wind_x_end(),
    {
        match self {
            Chart::Takeoff => 5_211_621_094,
            Chart::Landing => 4_933_561_198,
        }
    }

    /// Chart y of 0 m on the distance scale.
    pub open spec fn spec_distance_y_start(self) -> i64 {
        match self {
            Chart::Takeoff => 1_009_635_417,
            Chart::Landing => 965_462_240,
        }
    }

    #[verifier::when_used_as_spec(spec_distance_y_start)]
    pub fn distance_y_start(self) -> (r: i64)
        ensures
            r == self.spec_distance_y_start(),
    {
        match self {
            Chart::Takeoff => 1_009_635_417,
            Chart::Landing => 965_462_240,
        }
    }

    /// Chart y of 1000 m on the distance scale.
    pub open spec fn spec_distance_y_end(self) -> i64 {
        match self {
            Chart::Takeoff => 4_222_200_521,
            Chart::Landing => 3_261_946_615,
        }
    }

    #[verifier::when_used_as_spec(spec_distance_y_end)]
    pub fn distance_y_end(self) -> (r: i64)
        ensures
            r == self.spec_distance_y_end(),
    {
        match self {
            Chart::Takeoff => 4_222_200_521,
            Chart::Landing => 3_261_946_615,
        }
    }

    /// Wind correction from calm to 10 kt of headwind; it also places every headwind point.
    pub open spec fn spec_wind_base_band(self) -> Band {
        match self {
            Chart::Takeoff => band(segment(10_000_000, 1_389_843_750, 1_303_841_146), segment(10_000_000, 1_655_891_927, 1_507_877_604)),
            Chart::Landing => band(segment(10_000_000, 1_787_923_177, 1_599_902_344), segment(10_000_000, 2_173_958_333, 1_897_916_667)),
        }
    }

    #[verifier::when_used_as_spec(spec_wind_base_band)]
    pub fn wind_base_band(self) -> (r: Band)
        ensures
            r == self.spec_wind_base_band(),
    {
        match self {
            Chart::Takeoff => band(segment(10_000_000, 1_389_843_750, 1_303_841_146), segment(10_000_000, 1_655_891_927, 1_507_877_604)),
            Chart::Landing => band(segment(10_000_000, 1_787_923_177, 1_599_902_344), segment(10_000_000, 2_173_958_333, 1_897_916_667)),
        }
    }

    /// Wind correction from 10 kt to 15 kt of headwind.
    pub open spec fn spec_wind_mid_band(self) -> Band {
        match self {
            Chart::Takeoff => band(segment(5_000_000, 1_303_841_146, 1_269_856_771), segment(5_000_000, 1_507_877_604, 1_449_869_792)),
            Chart::Landing => band(segment(5_000_000, 1_599_902_344, 1_527_864_583), segment(5_000_000, 1_897_916_667, 1_791_894_531)),
        }
    }

    #[verifier::when_used_as_spec(spec_wind_mid_band)]
    pub fn wind_mid_band(self) -> (r: Band)
        ensures
            r == self.spec_wind_mid_band(),
    {
        match self {
            Chart::Takeoff => band(segment(5_000_000, 1_303_841_146, 1_269_856_771), segment(5_000_000, 1_507_877_604, 1_449_869_792)),
            Chart::Landing => band(segment(5_000_000, 1_599_902_344, 1_527_864_583), segment(5_000_000, 1_897_916_667, 1_791_894_531)),
        }
    }

    /// Wind correction read beyond 15 kt of headwind and beyond 10 kt of tailwind.
    pub open spec fn spec_wind_strong_band(self) -> Band {
        match self {
            Chart::Takeoff => band(segment(5_000_000, 1_269_856_771, 1_243_847_656), segment(5_000_000, 1_449_869_792, 1_407_845_052)),
            Chart::Landing => band(segment(5_000_000, 1_527_864_583, 1_471_875_000), segment(5_000_000, 1_791_894_531, 1_709_895_833)),
        }
    }

    #[verifier::when_used_as_spec(spec_wind_strong_band)]
    pub fn wind_strong_band(self) -> (r: Band)
        ensures
            r == self.spec_wind_strong_band(),
    {
        match self {
            Chart::Takeoff => band(segment(5_000_000, 1_269_856_771, 1_243_847_656), segment(5_000_000, 1_449_869_792, 1_407_845_052)),
            Chart::Landing => band(segment(5_000_000, 1_527_864_583, 1_471_875_000), segment(5_000_000, 1_791_894_531, 1_709_895_833)),
        }
    }

    /// Maps the height after the wind correction to the height after the obstacle correction.
    pub open spec fn spec_obstacle_segment(self) -> Segment {
        match self {
            Chart::Takeoff => Segment { x_min: 1_395_703_125, x_max: 1_491_731_771, y_at_min: 1_727_766_927, y_at_max: 1_905_794_271 },
            Chart::Landing => Segment { x_min: 1_467_545_573, x_max: 1_631_608_073, y_at_min: 1_171_484_375, y_at_max: 1_241_503_906 },
        }
    }

    #[verifier::when_used_as_spec(spec_obstacle_segment)]
    pub fn obstacle_segment(self) -> (r: Segment)
        ensures
            r == self.spec_obstacle_segment(),
    {
        match self {
            Chart::Takeoff => Segment { x_min: 1_395_703_125, x_max: 1_491_731_771, y_at_min: 1_727_766_927, y_at_max: 1_905_794_271 },
            Chart::Landing => Segment { x_min: 1_467_545_573, x_max: 1_631_608_073, y_at_min: 1_171_484_375, y_at_max: 1_241_503_906 },
        }
    }
    /// Chart heights over temperature and altitude: one row of eight temperature columns
    /// (-30 °C to +40 °C) for each of 0, 2000, 4000, 6000 and 8000 ft, row after row.
    pub open spec fn spec_oat_grid(self) -> Seq<i64> {
        match self {
            Chart::Takeoff => seq![
                1_614_322_917, 1_656_315_104, 1_698_339_844, 1_742_317_708, 1_788_313_802, 1_834_342_448,
                1_882_324_219, 1_932_324_219, 1_702_343_750, 1_750_325_521, 1_800_325_521, 1_850_325_521,
                1_902_343_750, 1_956_315_104, 2_010_319_010, 2_066_341_146, 1_804_329_427, 1_860_319_010,
                1_916_341_146, 1_974_316_406, 2_034_342_448, 2_096_321_615, 2_160_319_010, 2_224_316_406,
                1_924_316_406, 1_988_313_802, 2_052_343_750, 2_120_345_052, 2_190_332_031, 2_262_337_240,
                2_334_342_448, 2_410_319_010, 2_064_322_917, 2_138_313_802, 2_214_322_917, 2_292_317_708,
                2_372_330_729, 2_456_315_104, 2_540_332_031, 2_628_320_313,
            ],
            Chart::Landing => seq![
                1_902_343_750, 1_948_339_844, 1_994_335_938, 2_042_317_708, 2_090_332_031, 2_136_328_125,
                2_184_342_448, 2_234_342_448, 2_002_343_750, 2_054_329_427, 2_104_329_427, 2_158_333_333,
                2_210_319_010, 2_262_337_240, 2_316_341_146, 2_370_345_052, 2_114_322_917, 2_172_330_729,
                2_228_320_313, 2_286_328_125, 2_344_335_938, 2_404_329_427, 2_462_337_240, 2_522_330_729,
                2_242_317_708, 2_304_329_427, 2_368_326_823, 2_432_324_219, 2_498_339_844, 2_562_337_240,
                2_628_320_313, 2_694_335_938, 2_384_342_448, 2_454_329_427, 2_526_334_635, 2_598_339_844,
                2_670_345_052, 2_742_317_708, 2_814_322_917, 2_888_313_802,
            ],
        }
    }

    pub fn oat_grid(self) -> (r: Vec<i64>)
        ensures
            r@ == self.spec_oat_grid(),
    {
        match self {
            Chart::Takeoff => vec![
                1_614_322_917, 1_656_315_104, 1_698_339_844, 1_742_317_708, 1_788_313_802, 1_834_342_448,
                1_882_324_219, 1_932_324_219, 1_702_343_750, 1_750_325_521, 1_800_325_521, 1_850_325_521,
                1_902_343_750, 1_956_315_104, 2_010_319_010, 2_066_341_146, 1_804_329_427, 1_860_319_010,
                1_916_341_146, 1_974_316_406, 2_034_342_448, 2_096_321_615, 2_160_319_010, 2_224_316_406,
                1_924_316_406, 1_988_313_802, 2_052_343_750, 2_120_345_052, 2_190_332_031, 2_262_337_240,
                2_334_342_448, 2_410_319_010, 2_064_322_917, 2_138_313_802, 2_214_322_917, 2_292_317_708,
                2_372_330_729, 2_456_315_104, 2_540_332_031, 2_628_320_313,
            ],
            Chart::Landing => vec![
                1_902_343_750, 1_948_339_844, 1_994_335_938, 2_042_317_708, 2_090_332_031, 2_136_328_125,
                2_184_342_448, 2_234_342_448, 2_002_343_750, 2_054_329_427, 2_104_329_427, 2_158_333_333,
                2_210_319_010, 2_262_337_240, 2_316_341_146, 2_370_345_052, 2_114_322_917, 2_172_330_729,
                2_228_320_313, 2_286_328_125, 2_344_335_938, 2_404_329_427, 2_462_337_240, 2_522_330_729,
                2_242_317_708, 2_304_329_427, 2_368_326_823, 2_432_324_219, 2_498_339_844, 2_562_337_240,
                2_628_320_313, 2_694_335_938, 2_384_342_448, 2_454_329_427, 2_526_334_635, 2_598_339_844,
                2_670_345_052, 2_742_317_708, 2_814_322_917, 2_888_313_802,
            ],
        }
    }

    /// Chart heights of the ground-roll distance scale, in ascending order.
    pub open spec fn spec_ground_roll_brackets(self) -> Seq<i64> {
        match self {
            Chart::Takeoff => seq![
                1_395_703_125, 1_491_731_771, 1_587_727_865, 1_683_756_510, 1_779_785_156, 1_877_799_479,
                1_973_795_573, 2_069_824_219, 2_165_852_865, 2_261_848_958, 2_359_895_833, 2_455_891_927,
                2_551_920_573, 2_655_924_479,
            ],
            Chart::Landing => seq![
                1_171_484_375, 1_241_503_906, 1_309_537_760, 1_379_557_292, 1_447_558_594, 1_517_578_125,
                1_585_579_427, 1_653_613_281, 1_723_632_813, 1_791_634_115, 1_861_653_646, 1_929_654_948,
                1_999_674_479,
            ],
        }
    }

    pub fn ground_roll_brackets(self) -> (r: Vec<i64>)
        ensures
            r@ == self.spec_ground_roll_brackets(),
    {
        match self {
            Chart::Takeoff => vec![
                1_395_703_125, 1_491_731_771, 1_587_727_865, 1_683_756_510, 1_779_785_156, 1_877_799_479,
                1_973_795_573, 2_069_824_219, 2_165_852_865, 2_261_848_958, 2_359_895_833, 2_455_891_927,
                2_551_920_573, 2_655_924_479,
            ],
            Chart::Landing => vec![
                1_171_484_375, 1_241_503_906, 1_309_537_760, 1_379_557_292, 1_447_558_594, 1_517_578_125,
                1_585_579_427, 1_653_613_281, 1_723_632_813, 1_791_634_115, 1_861_653_646, 1_929_654_948,
                1_999_674_479,
            ],
        }
    }

    /// Chart heights of the total distance scale, in ascending order.
    pub open spec fn spec_total_brackets(self) -> Seq<i64> {
        match self {
            Chart::Takeoff => seq![
                1_727_766_927, 1_905_794_271, 2_085_839_844, 2_265_852_865, 2_443_880_208, 2_623_925_781,
                2_803_938_802, 2_983_984_375, 3_162_011_719, 3_342_057_292, 3_522_070_313, 3_700_097_656,
                3_880_143_229, 4_076_171_875,
            ],
            Chart::Landing => seq![
                1_467_545_573, 1_631_608_073, 1_797_656_250, 1_961_686_198, 2_125_716_146, 2_289_746_094,
                2_453_776_042, 2_617_805_990, 2_781_835_938, 2_947_884_115, 3_111_914_063, 3_275_944_010,
                3_440_006_510,
            ],
        }
    }

    pub fn total_brackets(self) -> (r: Vec<i64>)
        ensures
            r@ == self.spec_total_brackets(),
    {
        match self {
            Chart::Takeoff => vec![
                1_727_766_927, 1_905_794_271, 2_085_839_844, 2_265_852_865, 2_443_880_208, 2_623_925_781,
                2_803_938_802, 2_983_984_375, 3_162_011_719, 3_342_057_292, 3_522_070_313, 3_700_097_656,
                3_880_143_229, 4_076_171_875,
            ],
            Chart::Landing => vec![
                1_467_545_573, 1_631_608_073, 1_797_656_250, 1_961_686_198, 2_125_716_146, 2_289_746_094,
                2_453_776_042, 2_617_805_990, 2_781_835_938, 2_947_884_115, 3_111_914_063, 3_275_944_010,
                3_440_006_510,
            ],
        }
    }

    /// The landing chart picks its mass correction band by the height that the
    /// temperature and altitude gave; the takeoff chart has a single band.
    pub open spec fn spec_mass_band(self, oat_y: int) -> Band {
        match self {
            Chart::Takeoff => band(
                segment(200_000_000, 1_632_031_250, 1_400_032_552),
                segment(200_000_000, 1_718_033_854, 1_454_003_906),
            ),
            Chart::Landing => if oat_y <= LANDING_MASS_FIRST_LIMIT {
                band(segment(200_000_000, 1_906_054_688, 1_796_061_198), segment(200_000_000, 2_002_083_333, 1_882_063_802))
            } else if oat_y <= LANDING_MASS_SECOND_LIMIT {
                band(segment(200_000_000, 2_002_083_333, 1_882_063_802), segment(200_000_000, 2_112_076_823, 1_978_059_896))
            } else if oat_y <= LANDING_MASS_THIRD_LIMIT {
                band(segment(200_000_000, 2_112_076_823, 1_978_059_896), segment(200_000_000, 2_232_096_354, 2_074_088_542))
            } else {
                band(segment(200_000_000, 2_232_096_354, 2_074_088_542), segment(200_000_000, 2_368_098_958, 2_192_089_844))
            },
        }
    }

    pub fn mass_band(self, oat_y: i64) -> (r: Band)
        ensures
            r == self.spec_mass_band(oat_y as int),
    {
        match self {
            Chart::Takeoff => band(
                segment(200_000_000, 1_632_031_250, 1_400_032_552),
                segment(200_000_000, 1_718_033_854, 1_454_003_906),
            ),
            Chart::Landing => if oat_y <= LANDING_MASS_FIRST_LIMIT {
                band(segment(200_000_000, 1_906_054_688, 1_796_061_198), segment(200_000_000, 2_002_083_333, 1_882_063_802))
            } else if oat_y <= LANDING_MASS_SECOND_LIMIT {
                band(segment(200_000_000, 2_002_083_333, 1_882_063_802), segment(200_000_000, 2_112_076_823, 1_978_059_896))
            } else if oat_y <= LANDING_MASS_THIRD_LIMIT {
                band(segment(200_000_000, 2_112_076_823, 1_978_059_896), segment(200_000_000, 2_232_096_354, 2_074_088_542))
            } else {
                band(segment(200_000_000, 2_232_096_354, 2_074_088_542), segment(200_000_000, 2_368_098_958, 2_192_089_844))
            },
        }
    }

    /// The height that the ground roll is read at: on the takeoff chart the
    /// wind-corrected height, on the landing chart the obstacle-corrected one.
    pub open spec fn ground_roll_query(self, wind_y: int, obstacle_y: int) -> int {
        match self {
            Chart::Takeoff => wind_y,
            Chart::Landing => obstacle_y,
        }
    }

    /// The height that the total distance is read at: the other of the two.
    pub open spec fn total_query(self, wind_y: int, obstacle_y: int) -> int {
        match self {
            Chart::Takeoff => obstacle_y,
            Chart::Landing => wind_y,
        }
    }

    /// Every height of the grid lies between 1600 and 2900.
    pub proof fn lemma_oat_grid_bounds(self)
        ensures
            self.spec_oat_grid().len() == 40,
            forall|i: int|
                0 <= i < 40 ==> 1_600_000_000 <= #[trigger] self.spec_oat_grid()[i] <= 2_900_000_000,
    {
    }

    /// Every height of both distance scales lies between 900 and 5000.
    pub proof fn lemma_bracket_bounds(self)
        ensures
            forall|i: int|
                0 <= i < self.spec_ground_roll_brackets().len() ==> 900_000_000
                    <= #[trigger] self.spec_ground_roll_brackets()[i] <= 5_000_000_000,
            forall|i: int|
                0 <= i < self.spec_total_brackets().len() ==> 900_000_000
                    <= #[trigger] self.spec_total_brackets()[i] <= 5_000_000_000,
    {
    }
}

} // verus!
