use vstd::prelude::*;
use vstd::arithmetic::div_mod::{
    lemma_div_by_multiple,
    lemma_div_is_ordered,
    lemma_div_is_ordered_by_denominator,
};
use crate::ratio::ratio_milli;
use crate::rng::{rand_u128_in, rand_u64_in};

verus! {

/// Diameter of Earth, in metres.
pub const EARTH_DIAMETER_M: u64 = 12_745_274;

/// Mass of Earth, in kilograms.
pub const EARTH_MASS_KG: u128 = 5_972_600_000_000_000_000_000_000;

/// Orbital period of Earth, in millidays.
pub const EARTH_PERIOD_MD: u64 = 365_000;

/// Largest mass, in kilograms, that the fixed-point surface-gravity formula
/// accepts without overflowing.
pub const GRAVITY_MASS_LIMIT_KG: u128 = 1_000_000_000_000_000_000_000_000_000_000;

/// Largest diameter, in metres, that the fixed-point surface-gravity formula
/// accepts without overflowing.
pub const GRAVITY_DIAMETER_LIMIT_M: u64 = 1_000_000_000_000;

/// Composition category of a planet.
#[derive(Debug, Clone, Copy, PartialEq, Eq, Structural)]
pub enum PlanetType {
    TERRESTRIAL,
    GASGIANT,
    ICEGIANT,
}

/// Lower bound (inclusive) of a generated planet's diameter, in metres.
pub open spec fn planet_diameter_lo_m(t: PlanetType) -> int {
    match t {
        PlanetType::TERRESTRIAL => 4_000_000,
        PlanetType::GASGIANT => 45_000_000,
        PlanetType::ICEGIANT => 45_000_000,
    }
}

/// Upper bound (exclusive) of a generated planet's diameter, in metres.
pub open spec fn planet_diameter_hi_m(t: PlanetType) -> int {
    match t {
        PlanetType::TERRESTRIAL => 20_000_000,
        PlanetType::GASGIANT => 150_000_000,
        PlanetType::ICEGIANT => 60_000_000,
    }
}

/// Lower bound (inclusive) of a generated planet's mass, in kilograms.
pub open spec fn planet_mass_lo_kg(t: PlanetType) -> int {
    match t {
        PlanetType::TERRESTRIAL => 20_000_000_000_000_000_000_000,
        PlanetType::GASGIANT => 500_000_000_000_000_000_000_000_000,
        PlanetType::ICEGIANT => 800_000_000_000_000_000_000_000_000,
    }
}

/// Upper bound (exclusive) of a generated planet's mass, in kilograms.
pub open spec fn planet_mass_hi_kg(t: PlanetType) -> int {
    match t {
        PlanetType::TERRESTRIAL => 29_000_000_000_000_000_000_000_000,
        PlanetType::GASGIANT => 30_000_000_000_000_000_000_000_000_000,
        PlanetType::ICEGIANT => 36_000_000_000_000_000_000_000_000_000,
    }
}

/// Lower bound (inclusive) of a generated planet's orbital period, in
/// millidays.
pub open spec fn planet_period_lo_md(t: PlanetType) -> int {
    match t {
        PlanetType::TERRESTRIAL => 70_000,
        PlanetType::GASGIANT => 3_000_000,
        PlanetType::ICEGIANT => 3_000_000,
    }
}

/// Upper bound (exclusive) of a generated planet's orbital period, in
/// millidays.
pub open spec fn planet_period_hi_md(t: PlanetType) -> int {
    match t {
        PlanetType::TERRESTRIAL => 750_000,
        PlanetType::GASGIANT => 80_000_000,
        PlanetType::ICEGIANT => 80_000_000,
    }
}

/// Surface gravity in nanometres per second squared: with the gravitational
/// constant 6.67e-11 and the radius `diameter / 2` in metres,
/// g = 6.67e-11 * mass / radius^2 m/s^2, which in nanometres per second
/// squared is 667 * mass / (10_000 * radius^2), rounded toward zero.
pub open spec fn spec_surface_gravity_nm(mass: int, diameter: int) -> int {
    667 * mass / (10_000 * (diameter / 2) * (diameter / 2))
}

/// Orbital velocity in micrometres per second: the diameter in metres over
/// the period in seconds, where a period of `p` millidays lasts
/// `p * 86_400 / 1000` seconds, rounded toward zero.
pub open spec fn spec_orbital_velocity_um(diameter: int, period_md: int) -> int {
    1_000_000_000 * diameter / (86_400 * period_md)
}

/// A planet: a name, a composition category, a diameter in metres, a mass in
/// kilograms and an orbital period in millidays.
pub struct Planet {
    pub name: String,
    pub planet_type: PlanetType,
    pub diameter: u64,
    pub mass: u128,
    pub orbital_period: u64,
}

impl Planet {
    pub fn new(name: String, planet_type: PlanetType, diameter: u64, mass: u128, orbital_period: u64) -> (p: Planet)
        ensures
            p.name@ == name@,
            p.planet_type == planet_type,
            p.diameter == diameter,
            p.mass == mass,
            p.orbital_period == orbital_period,
    {
        Planet { name, planet_type, diameter, mass, orbital_period }
    }

    /// Planet of the given category, with diameter, mass and orbital period
    /// drawn uniformly and independently from that category's ranges.
    pub fn generate_from_type(name: String, planet_type: PlanetType) -> (p: Planet)
        ensures
            p.name@ == name@,
            p.planet_type == planet_type,
            planet_diameter_lo_m(planet_type) <= p.diameter < planet_diameter_hi_m(planet_type),
            planet_mass_lo_kg(planet_type) <= p.mass < planet_mass_hi_kg(planet_type),
            planet_period_lo_md(planet_type) <= p.orbital_period < planet_period_hi_md(planet_type),
            spec_surface_gravity_nm(p.mass as int, p.diameter as int) > 0,
    {
        let diameter = match planet_type {
            PlanetType::TERRESTRIAL => rand_u64_in(4_000_000, 20_000_000),
            PlanetType::GASGIANT => rand_u64_in(45_000_000, 150_000_000),
            PlanetType::ICEGIANT => rand_u64_in(45_000_000, 60_000_000),
        };
        let mass = match planet_type {
            PlanetType::TERRESTRIAL => rand_u128_in(
                20_000_000_000_000_000_000_000,
                29_000_000_000_000_000_000_000_000,
            ),
            PlanetType::GASGIANT => rand_u128_in(
                500_000_000_000_000_000_000_000_000,
                30_000_000_000_000_000_000_000_000_000,
            ),
            PlanetType::ICEGIANT => rand_u128_in(
                800_000_000_000_000_000_000_000_000,
                36_000_000_000_000_000_000_000_000_000,
            ),
        };
        let orbital_period = match planet_type {
            PlanetType::TERRESTRIAL => rand_u64_in(70_000, 750_000),
            PlanetType::GASGIANT => rand_u64_in(3_000_000, 80_000_000),
            PlanetType::ICEGIANT => rand_u64_in(3_000_000, 80_000_000),
        };
        proof {
            lemma_surface_gravity_positive(mass as int, diameter as int);
        }
        Planet::new(name, planet_type, diameter, mass, orbital_period)
    }

    /// Planet whose diameter is exactly `diameter` metres. Mass and orbital
    /// period are drawn from the terrestrial ranges whatever `planet_type`
    /// says.
    pub fn generate_from_type_and_diameter(name: String, planet_type: PlanetType, diameter: u64) -> (p: Planet)
        ensures
            p.name@ == name@,
            p.planet_type == planet_type,
            p.diameter == diameter,
            planet_mass_lo_kg(PlanetType::TERRESTRIAL) <= p.mass
                < planet_mass_hi_kg(PlanetType::TERRESTRIAL),
            planet_period_lo_md(PlanetType::TERRESTRIAL) <= p.orbital_period
                < planet_period_hi_md(PlanetType::TERRESTRIAL),
    {
        let mass = rand_u128_in(
            20_000_000_000_000_000_000_000,
            29_000_000_000_000_000_000_000_000,
        );
        let orbital_period = rand_u64_in(70_000, 750_000);
        Planet::new(name, planet_type, diameter, mass, orbital_period)
    }

    /// Planet of a category drawn uniformly from the three categories.
    pub fn generate(name: String) -> (p: Planet)
        ensures
            p.name@ == name@,
            planet_diameter_lo_m(p.planet_type) <= p.diameter < planet_diameter_hi_m(p.planet_type),
            planet_mass_lo_kg(p.planet_type) <= p.mass < planet_mass_hi_kg(p.planet_type),
            planet_period_lo_md(p.planet_type) <= p.orbital_period < planet_period_hi_md(p.planet_type),
            spec_surface_gravity_nm(p.mass as int, p.diameter as int) > 0,
    {
        let idx = rand_u64_in(0, 3);
        let planet_type = Planet::planet_type_from_index(idx);
        Planet::generate_from_type(name, planet_type)
    }

    /// Category drawn by index.
    pub fn planet_type_from_index(idx: u64) -> (t: PlanetType)
        ensures
            idx == 0 ==> t == PlanetType::TERRESTRIAL,
            idx == 1 ==> t == PlanetType::GASGIANT,
            idx >= 2 ==> t == PlanetType::ICEGIANT,
    {
        match idx {
            0 => PlanetType::TERRESTRIAL,
            1 => PlanetType::GASGIANT,
            _ => PlanetType::ICEGIANT,
        }
    }

    /// Surface gravity of this planet, in nanometres per second squared.
    /// The bounds on mass and diameter are what the fixed-point formula
    /// needs to stay inside `u128`.
    pub fn surface_gravity(&self) -> (g: u128)
        requires
            2 <= self.diameter <= GRAVITY_DIAMETER_LIMIT_M,
            self.mass <= GRAVITY_MASS_LIMIT_KG,
        ensures
            g == spec_surface_gravity_nm(self.mass as int, self.diameter as int),
    {
        let radius: u128 = (self.diameter / 2) as u128;
        proof {
            assert(10_000 <= (10_000 * radius) * radius
                && (10_000 * radius) * radius <= 2_500_000_000_000_000_000_000_000_000u128)
                by (nonlinear_arith)
                requires 1 <= radius <= 500_000_000_000u128,
            ;
        }
        let num: u128 = 667 * self.mass;
        let den: u128 = 10_000 * radius * radius;
        num / den
    }

    /// Orbital velocity of this planet, in micrometres per second.
    pub fn orbital_velocity(&self) -> (v: u128)
        requires
            self.orbital_period >= 1,
        ensures
            v == spec_orbital_velocity_um(self.diameter as int, self.orbital_period as int),
    {
        let num: u128 = 1_000_000_000 * (self.diameter as u128);
        let den: u128 = 86_400 * (self.orbital_period as u128);
        num / den
    }

    /// Ratios of this planet's diameter, mass, orbital period and surface
    /// gravity to Earth's, in thousandths. The bounds on mass and diameter
    /// are what the fixed-point gravity ratio needs to fit in `u64`.
    pub fn respect_to_earth(&self) -> (r: (u64, u64, u64, u64))
        requires
            1_000 <= self.diameter <= GRAVITY_DIAMETER_LIMIT_M,
            self.mass <= GRAVITY_MASS_LIMIT_KG,
        ensures
            r.0 == self.diameter as int * 1000 / EARTH_DIAMETER_M as int,
            r.1 == self.mass as int * 1000 / EARTH_MASS_KG as int,
            r.2 == self.orbital_period as int * 1000 / EARTH_PERIOD_MD as int,
            r.3 == spec_surface_gravity_nm(self.mass as int, self.diameter as int) * 1000
                / spec_surface_gravity_nm(EARTH_MASS_KG as int, EARTH_DIAMETER_M as int),
    {
        let d_ratio = ratio_milli(self.diameter, EARTH_DIAMETER_M);
        let p_ratio = ratio_milli(self.orbital_period, EARTH_PERIOD_MD);

        let m_num: u128 = self.mass * 1000;
        let m_q: u128 = m_num / EARTH_MASS_KG;
        proof {
            lemma_div_is_ordered(
                m_num as int,
                1000 * GRAVITY_MASS_LIMIT_KG as int,
                EARTH_MASS_KG as int,
            );
        }
        let m_ratio: u64 = m_q as u64;

        let g: u128 = self.surface_gravity();
        let reference = earth();
        let eg: u128 = reference.surface_gravity();
        proof {
            let emass = EARTH_MASS_KG as int;
            lemma_div_by_multiple(6_372_637, 2);
            assert(EARTH_DIAMETER_M as int / 2 == 6_372_637);
            let eden = (10_000 * (EARTH_DIAMETER_M as int / 2)) * (EARTH_DIAMETER_M as int / 2);
            assert((10_000 * 6_372_637) * 6_372_637 == 406_105_023_337_690_000int)
                by (nonlinear_arith);
            assert(eden == 406_105_023_337_690_000);
            assert(667 * emass == 3_983_724_200_000_000_000_000_000_000);
            lemma_div_is_ordered(9_000_000_000 * eden, 667 * emass, eden);
            lemma_div_by_multiple(9_000_000_000, eden);
            assert(eg >= 9_000_000_000);
            assert((10_000 * ((self.diameter as int) / 2)) * ((self.diameter as int) / 2)
                >= 2_500_000_000) by (nonlinear_arith)
                requires (self.diameter as int) / 2 >= 500,
            ;
            lemma_div_is_ordered_by_denominator(
                667 * self.mass as int,
                2_500_000_000,
                10_000 * ((self.diameter as int) / 2) * ((self.diameter as int) / 2),
            );
            lemma_div_is_ordered(667 * self.mass as int, 667 * GRAVITY_MASS_LIMIT_KG as int, 2_500_000_000);
            assert(g <= 667 * GRAVITY_MASS_LIMIT_KG / 2_500_000_000);
            lemma_div_is_ordered(
                g as int * 1000,
                667 * GRAVITY_MASS_LIMIT_KG as int / 2_500_000_000 * 1000,
                9_000_000_000,
            );
            lemma_div_is_ordered_by_denominator(g as int * 1000, 9_000_000_000, eg as int);
        }
        let g_num: u128 = g * 1000;
        let g_q: u128 = g_num / eg;
        let g_ratio: u64 = g_q as u64;

        (d_ratio, m_ratio, p_ratio, g_ratio)
    }
}

/// The reference planet: Earth.
pub fn earth() -> (p: Planet)
    ensures
        p.name@ == "Earth"@,
        p.planet_type == PlanetType::TERRESTRIAL,
        p.diameter == EARTH_DIAMETER_M,
        p.mass == EARTH_MASS_KG,
        p.orbital_period == EARTH_PERIOD_MD,
{
    Planet::new(
        "Earth".to_owned(),
        PlanetType::TERRESTRIAL,
        EARTH_DIAMETER_M,
        EARTH_MASS_KG,
        EARTH_PERIOD_MD,
    )
}

/// A planet with at least the smallest generated mass and at most the largest
/// generated diameter always has a strictly positive surface gravity.
pub proof fn lemma_surface_gravity_positive(mass: int, diameter: int)
    requires
        mass >= planet_mass_lo_kg(PlanetType::TERRESTRIAL),
        2 <= diameter,
        diameter <= planet_diameter_hi_m(PlanetType::GASGIANT),
    ensures
        spec_surface_gravity_nm(mass, diameter) > 0,
{
    let r = diameter / 2;
    assert(10_000 <= (10_000 * r) * r && (10_000 * r) * r <= 56_250_000_000_000_000_000)
        by (nonlinear_arith)
        requires 1 <= r <= 75_000_000,
    ;
    assert(667 * mass >= 10_000 * r * r);
    vstd::arithmetic::div_mod::lemma_div_non_zero(667 * mass, 10_000 * r * r);
}

} // verus!
