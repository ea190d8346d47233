use vstd::prelude::*;
use crate::ratio::ratio_milli;
use crate::rng::rand_u64_in;

verus! {

/// Diameter of the Sun, in metres.
pub const SUN_DIAMETER_M: u64 = 1_390_950_000;

/// One hundredth of the Sun's diameter, in metres; the class boundaries for
/// diameters are multiples of it.
pub const SUN_DIAMETER_HUNDREDTH_M: u64 = 13_909_500;

/// Surface temperature of the Sun, in millikelvin.
pub const SUN_TEMP_MK: u64 = 5_777_000;

/// Harvard spectral class, ordered by descending temperature.
#[derive(Debug, Clone, Copy, PartialEq, Eq, Structural)]
pub enum StarClass {
    O,
    B,
    A,
    F,
    G,
    K,
    M,
}

impl StarClass {
    /// ANSI truecolor escape used to draw a star of this class.
    pub fn color(self) -> (r: &'static str)
        ensures
            r@ == spec_color(self),
    {
        match self {
            StarClass::O => "\x1b[38;2;0;102;196m",
            StarClass::B => "\x1b[38;2;68;199;255m",
            StarClass::A => "\x1b[38;2;255;255;255m",
            StarClass::F => "\x1b[38;2;254;252;150m",
            StarClass::G => "\x1b[38;2;254;254;76m",
            StarClass::K => "\x1b[38;2;254;207;81m",
            StarClass::M => "\x1b[38;2;254;85;43m",
        }
    }

    /// Human-readable description of this class's color.
    pub fn color_str(self) -> (r: &'static str)
        ensures
            r@ == spec_color_str(self),
    {
        match self {
            StarClass::O => "Blue star",
            StarClass::B => "Light blue star",
            StarClass::A => "White star",
            StarClass::F => "Yellow-white star",
            StarClass::G => "Yellow star",
            StarClass::K => "Orange star",
            StarClass::M => "Red star",
        }
    }
}

pub open spec fn spec_color(c: StarClass) -> Seq<char> {
    match c {
        StarClass::O => "\x1b[38;2;0;102;196m"@,
        StarClass::B => "\x1b[38;2;68;199;255m"@,
        StarClass::A => "\x1b[38;2;255;255;255m"@,
        StarClass::F => "\x1b[38;2;254;252;150m"@,
        StarClass::G => "\x1b[38;2;254;254;76m"@,
        StarClass::K => "\x1b[38;2;254;207;81m"@,
        StarClass::M => "\x1b[38;2;254;85;43m"@,
    }
}

pub open spec fn spec_color_str(c: StarClass) -> Seq<char> {
    match c {
        StarClass::O => "Blue star"@,
        StarClass::B => "Light blue star"@,
        StarClass::A => "White star"@,
        StarClass::F => "Yellow-white star"@,
        StarClass::G => "Yellow star"@,
        StarClass::K => "Orange star"@,
        StarClass::M => "Red star"@,
    }
}

/// Position of a class in the temperature order: M coolest, O hottest.
pub open spec fn class_rank(c: StarClass) -> int {
    match c {
        StarClass::M => 0,
        StarClass::K => 1,
        StarClass::G => 2,
        StarClass::F => 3,
        StarClass::A => 4,
        StarClass::B => 5,
        StarClass::O => 6,
    }
}

/// Lower bound (inclusive) of a class's surface temperature, in millikelvin.
pub open spec fn temp_lo_mk(c: StarClass) -> int {
    match c {
        StarClass::O => 33_000_000,
        StarClass::B => 10_000_000,
        StarClass::A => 7_500_000,
        StarClass::F => 6_000_000,
        StarClass::G => 5_200_000,
        StarClass::K => 3_700_000,
        StarClass::M => 1_000_000,
    }
}

/// Upper bound (exclusive) of a class's surface temperature, in millikelvin.
pub open spec fn temp_hi_mk(c: StarClass) -> int {
    match c {
        StarClass::O => 70_000_000,
        StarClass::B => 33_000_000,
        StarClass::A => 10_000_000,
        StarClass::F => 7_500_000,
        StarClass::G => 6_000_000,
        StarClass::K => 5_200_000,
        StarClass::M => 3_700_000,
    }
}

/// Lower bound (inclusive) of a class's diameter as a multiple of the Sun's,
/// in hundredths.
pub open spec fn diameter_mult_lo_centi(c: StarClass) -> int {
    match c {
        StarClass::O => 660,
        StarClass::B => 180,
        StarClass::A => 140,
        StarClass::F => 115,
        StarClass::G => 96,
        StarClass::K => 70,
        StarClass::M => 10,
    }
}

/// Upper bound (exclusive) of a class's diameter as a multiple of the Sun's,
/// in hundredths.
pub open spec fn diameter_mult_hi_centi(c: StarClass) -> int {
    match c {
        StarClass::O => 700,
        StarClass::B => 660,
        StarClass::A => 180,
        StarClass::F => 140,
        StarClass::G => 115,
        StarClass::K => 96,
        StarClass::M => 70,
    }
}

/// Lower bound (inclusive) of a class's diameter, in metres.
pub open spec fn diameter_lo_m(c: StarClass) -> int {
    diameter_mult_lo_centi(c) * SUN_DIAMETER_HUNDREDTH_M
}

/// Upper bound (exclusive) of a class's diameter, in metres.
pub open spec fn diameter_hi_m(c: StarClass) -> int {
    diameter_mult_hi_centi(c) * SUN_DIAMETER_HUNDREDTH_M
}

/// Class of a star with surface temperature `t_mk` millikelvin: a temperature
/// equal to a boundary (3700 K, 5200 K, 6000 K, 7500 K, 10000 K, 33000 K)
/// belongs to the hotter class.
pub open spec fn spec_class_of_temp(t_mk: int) -> StarClass {
    if t_mk < 3_700_000 {
        StarClass::M
    } else if t_mk < 5_200_000 {
        StarClass::K
    } else if t_mk < 6_000_000 {
        StarClass::G
    } else if t_mk < 7_500_000 {
        StarClass::F
    } else if t_mk < 10_000_000 {
        StarClass::A
    } else if t_mk < 33_000_000 {
        StarClass::B
    } else {
        StarClass::O
    }
}

/// Class of a star with diameter `d_m` metres, by its ratio to the Sun's
/// diameter: boundaries 0.70, 0.96, 1.15, 1.40, 1.80 and 6.60 of the Sun, a
/// ratio equal to a boundary belonging to the larger class. The comparison
/// `d_m / sun < b / 100` is taken exactly, as `100 * d_m < b * sun`.
pub open spec fn spec_class_of_diameter(d_m: int) -> StarClass {
    if 100 * d_m < 70 * SUN_DIAMETER_M {
        StarClass::M
    } else if 100 * d_m < 96 * SUN_DIAMETER_M {
        StarClass::K
    } else if 100 * d_m < 115 * SUN_DIAMETER_M {
        StarClass::G
    } else if 100 * d_m < 140 * SUN_DIAMETER_M {
        StarClass::F
    } else if 100 * d_m < 180 * SUN_DIAMETER_M {
        StarClass::A
    } else if 100 * d_m < 660 * SUN_DIAMETER_M {
        StarClass::B
    } else {
        StarClass::O
    }
}

/// A star: a name, a spectral class, a diameter in metres and a surface
/// temperature in millikelvin.
pub struct Star {
    pub name: String,
    pub class: StarClass,
    pub diameter: u64,
    pub temp: u64,
}

impl Star {
    pub fn new(name: String, class: StarClass, diameter: u64, temp: u64) -> (s: Star)
        ensures
            s.name@ == name@,
            s.class == class,
            s.diameter == diameter,
            s.temp == temp,
    {
        Star { name, class, diameter, temp }
    }

    /// Class of the star whose surface temperature is `temp` millikelvin.
    pub fn class_from_temp(temp: u64) -> (c: StarClass)
        ensures
            c == spec_class_of_temp(temp as int),
    {
        if temp < 3_700_000 {
            StarClass::M
        } else if temp < 5_200_000 {
            StarClass::K
        } else if temp < 6_000_000 {
            StarClass::G
        } else if temp < 7_500_000 {
            StarClass::F
        } else if temp < 10_000_000 {
            StarClass::A
        } else if temp < 33_000_000 {
            StarClass::B
        } else {
            StarClass::O
        }
    }

    /// Class of the star whose diameter is `diameter` metres.
    pub fn class_from_diameter(diameter: u64) -> (c: StarClass)
        ensures
            c == spec_class_of_diameter(diameter as int),
    {
        let d100: u128 = (diameter as u128) * 100;
        let sun_m: u128 = SUN_DIAMETER_M as u128;
        if d100 < 70 * sun_m {
            StarClass::M
        } else if d100 < 96 * sun_m {
            StarClass::K
        } else if d100 < 115 * sun_m {
            StarClass::G
        } else if d100 < 140 * sun_m {
            StarClass::F
        } else if d100 < 180 * sun_m {
            StarClass::A
        } else if d100 < 660 * sun_m {
            StarClass::B
        } else {
            StarClass::O
        }
    }

    /// Surface temperature drawn uniformly from the class's range.
    fn rand_temp_from_class(class: StarClass) -> (t: u64)
        ensures
            temp_lo_mk(class) <= t < temp_hi_mk(class),
    {
        match class {
            StarClass::O => rand_u64_in(33_000_000, 70_000_000),
            StarClass::B => rand_u64_in(10_000_000, 33_000_000),
            StarClass::A => rand_u64_in(7_500_000, 10_000_000),
            StarClass::F => rand_u64_in(6_000_000, 7_500_000),
            StarClass::G => rand_u64_in(5_200_000, 6_000_000),
            StarClass::K => rand_u64_in(3_700_000, 5_200_000),
            StarClass::M => rand_u64_in(1_000_000, 3_700_000),
        }
    }

    /// Diameter drawn uniformly from the class's range of multiples of the
    /// Sun's diameter.
    fn rand_diameter_from_class(class: StarClass) -> (d: u64)
        ensures
            diameter_lo_m(class) <= d < diameter_hi_m(class),
    {
        let (lo_centi, hi_centi): (u64, u64) = match class {
            StarClass::O => (660, 700),
            StarClass::B => (180, 660),
            StarClass::A => (140, 180),
            StarClass::F => (115, 140),
            StarClass::G => (96, 115),
            StarClass::K => (70, 96),
            StarClass::M => (10, 70),
        };
        rand_u64_in(lo_centi * SUN_DIAMETER_HUNDREDTH_M, hi_centi * SUN_DIAMETER_HUNDREDTH_M)
    }

    /// Star of a class drawn uniformly from the seven classes, with diameter
    /// and temperature drawn from that class's ranges.
    pub fn generate(name: String) -> (s: Star)
        ensures
            s.name@ == name@,
            diameter_lo_m(s.class) <= s.diameter < diameter_hi_m(s.class),
            temp_lo_mk(s.class) <= s.temp < temp_hi_mk(s.class),
            spec_class_of_diameter(s.diameter as int) == s.class,
            spec_class_of_temp(s.temp as int) == s.class,
    {
        let idx = rand_u64_in(0, 7);
        let class = Star::class_from_index(idx);
        Star::generate_from_class(name, class)
    }

    /// Class drawn by index, in temperature order from hottest to coolest.
    pub fn class_from_index(idx: u64) -> (c: StarClass)
        ensures
            idx == 0 ==> c == StarClass::O,
            idx == 1 ==> c == StarClass::B,
            idx == 2 ==> c == StarClass::A,
            idx == 3 ==> c == StarClass::F,
            idx == 4 ==> c == StarClass::G,
            idx == 5 ==> c == StarClass::K,
            idx >= 6 ==> c == StarClass::M,
    {
        match idx {
            0 => StarClass::O,
            1 => StarClass::B,
            2 => StarClass::A,
            3 => StarClass::F,
            4 => StarClass::G,
            5 => StarClass::K,
            _ => StarClass::M,
        }
    }

    /// Star of the given class, with diameter and temperature drawn from that
    /// class's ranges; both drawn attributes classify back to the same class.
    pub fn generate_from_class(name: String, class: StarClass) -> (s: Star)
        ensures
            s.name@ == name@,
            s.class == class,
            diameter_lo_m(class) <= s.diameter < diameter_hi_m(class),
            temp_lo_mk(class) <= s.temp < temp_hi_mk(class),
            spec_class_of_diameter(s.diameter as int) == class,
            spec_class_of_temp(s.temp as int) == class,
    {
        let diameter = Star::rand_diameter_from_class(class);
        let temp = Star::rand_temp_from_class(class);
        proof {
            lemma_class_of_diameter_band(class, diameter as int);
            lemma_class_of_temp_band(class, temp as int);
        }
        Star::new(name, class, diameter, temp)
    }

    /// Star whose temperature is exactly `temp` millikelvin: the class is
    /// derived from the temperature and only the diameter is drawn.
    pub fn generate_from_temp(name: String, temp: u64) -> (s: Star)
        ensures
            s.name@ == name@,
            s.temp == temp,
            s.class == spec_class_of_temp(temp as int),
            diameter_lo_m(s.class) <= s.diameter < diameter_hi_m(s.class),
            spec_class_of_diameter(s.diameter as int) == s.class,
    {
        let class = Star::class_from_temp(temp);
        let diameter = Star::rand_diameter_from_class(class);
        proof {
            lemma_class_of_diameter_band(class, diameter as int);
        }
        Star::new(name, class, diameter, temp)
    }

    /// Star whose diameter is exactly `diameter` metres: the class is derived
    /// from the diameter and only the temperature is drawn.
    pub fn generate_from_diameter(name: String, diameter: u64) -> (s: Star)
        ensures
            s.name@ == name@,
            s.diameter == diameter,
            s.class == spec_class_of_diameter(diameter as int),
            temp_lo_mk(s.class) <= s.temp < temp_hi_mk(s.class),
            spec_class_of_temp(s.temp as int) == s.class,
    {
        let class = Star::class_from_diameter(diameter);
        let temp = Star::rand_temp_from_class(class);
        proof {
            lemma_class_of_temp_band(class, temp as int);
        }
        Star::new(name, class, diameter, temp)
    }

    /// Ratios of this star's diameter and temperature to the Sun's, in
    /// thousandths.
    pub fn respect_to_sun(&self) -> (r: (u64, u64))
        ensures
            r.0 == self.diameter as int * 1000 / SUN_DIAMETER_M as int,
            r.1 == self.temp as int * 1000 / SUN_TEMP_MK as int,
    {
        (ratio_milli(self.diameter, SUN_DIAMETER_M), ratio_milli(self.temp, SUN_TEMP_MK))
    }
}

/// Radius, in grid cells, of the disc drawn for a star of diameter `d_m`
/// metres: ten cells stand for seven Sun diameters, clamped into [4, 10].
pub open spec fn spec_disc_radius(d_m: int) -> int {
    let q = 10 * d_m / (7 * SUN_DIAMETER_M as int);
    if q < 4 {
        4
    } else if q > 10 {
        10
    } else {
        q
    }
}

/// Whether the grid cell at offset (x, y) from the centre lies inside a disc
/// of the given radius.
pub open spec fn spec_cell_filled(radius: int, x: int, y: int) -> bool {
    x * x + y * y < radius * radius
}

/// Radius, in grid cells, of the disc drawn for a star of the given diameter.
pub fn disc_radius(diameter: u64) -> (r: u64)
    ensures
        r == spec_disc_radius(diameter as int),
        4 <= r <= 10,
{
    let num: u128 = 10 * (diameter as u128);
    let den: u128 = 7 * (SUN_DIAMETER_M as u128);
    let q: u128 = num / den;
    if q < 4 {
        4
    } else if q > 10 {
        10
    } else {
        q as u64
    }
}

/// The 21-by-21 grid of the star's disc: cell `x` of row `y` is filled
/// exactly when it lies inside the disc of the given radius centred on the
/// middle cell.
pub fn disc_rows(radius: u64) -> (rows: Vec<Vec<bool>>)
    requires
        4 <= radius <= 10,
    ensures
        rows.len() == 21,
        forall|y: int| 0 <= y < 21 ==> #[trigger] rows[y].len() == 21,
        forall|y: int, x: int|
            0 <= y < 21 && 0 <= x < 21 ==> #[trigger] rows[y][x] == spec_cell_filled(
                radius as int,
                x - 10,
                y - 10,
            ),
{
    let mut rows: Vec<Vec<bool>> = Vec::new();
    let mut yi: usize = 0;
    while yi < 21
        invariant
            yi <= 21,
            rows.len() == yi,
            4 <= radius <= 10,
            forall|y: int| 0 <= y < yi ==> #[trigger] rows[y].len() == 21,
            forall|y: int, x: int|
                0 <= y < yi && 0 <= x < 21 ==> #[trigger] rows[y][x] == spec_cell_filled(
                    radius as int,
                    x - 10,
                    y - 10,
                ),
        decreases 21 - yi,
    {
        let mut row: Vec<bool> = Vec::new();
        let mut xi: usize = 0;
        while xi < 21
            invariant
                xi <= 21,
                yi < 21,
                row.len() == xi,
                4 <= radius <= 10,
                forall|x: int|
                    0 <= x < xi ==> #[trigger] row[x] == spec_cell_filled(
                        radius as int,
                        x - 10,
                        yi as int - 10,
                    ),
            decreases 21 - xi,
        {
            let dx: i64 = xi as i64 - 10;
            let dy: i64 = yi as i64 - 10;
            proof {
                assert(0 <= dx * dx <= 100 && 0 <= dy * dy <= 100) by (nonlinear_arith)
                    requires -10 <= dx <= 10 && -10 <= dy <= 10,
                ;
                assert(radius * radius <= 100) by (nonlinear_arith)
                    requires radius <= 10,
                ;
            }
            let rr: i64 = (radius * radius) as i64;
            row.push(dx * dx + dy * dy < rr);
            xi += 1;
        }
        rows.push(row);
        yi += 1;
    }
    rows
}

/// The reference star: the Sun.
pub fn sun() -> (s: Star)
    ensures
        s.name@ == "Sun"@,
        s.class == StarClass::G,
        s.diameter == SUN_DIAMETER_M,
        s.temp == SUN_TEMP_MK,
{
    Star::new("Sun".to_owned(), StarClass::G, SUN_DIAMETER_M, SUN_TEMP_MK)
}

/// A temperature inside a class's range is classified back to that class:
/// the temperature table and the classifier agree class for class.
pub proof fn lemma_class_of_temp_band(c: StarClass, t_mk: int)
    requires
        temp_lo_mk(c) <= t_mk < temp_hi_mk(c),
    ensures
        spec_class_of_temp(t_mk) == c,
{
}

/// A diameter inside a class's range is classified back to that class: the
/// diameter table mirrors the temperature table class for class.
pub proof fn lemma_class_of_diameter_band(c: StarClass, d_m: int)
    requires
        diameter_lo_m(c) <= d_m < diameter_hi_m(c),
    ensures
        spec_class_of_diameter(d_m) == c,
{
}

/// The temperature classifier is monotone: a hotter star is never of a
/// cooler class.
pub proof fn lemma_class_of_temp_monotone(t1: int, t2: int)
    requires
        t1 <= t2,
    ensures
        class_rank(spec_class_of_temp(t1)) <= class_rank(spec_class_of_temp(t2)),
{
}

/// The diameter classifier is monotone, in the same class order as the
/// temperature classifier: a larger star is never of a smaller class.
pub proof fn lemma_class_of_diameter_monotone(d1: int, d2: int)
    requires
        d1 <= d2,
    ensures
        class_rank(spec_class_of_diameter(d1)) <= class_rank(spec_class_of_diameter(d2)),
{
}

} // verus!
