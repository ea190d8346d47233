use vstd::prelude::*;
use crate::ratio::ratio_milli;
use crate::rng::rand_u64_in;

verus! {

/// Diameter of Luna, in metres.
pub const LUNA_DIAMETER_M: u64 = 3_474_000;

/// Orbital distance of Luna, in metres.
pub const LUNA_ORBITAL_DISTANCE_M: u64 = 384_400_000;

/// Smallest diameter a generated satellite can have, in metres.
pub const SATELLITE_DIAMETER_MIN_M: u64 = 5_000;

/// Upper bound (exclusive) on a generated satellite's diameter, in metres.
pub const SATELLITE_DIAMETER_MAX_M: u64 = 8_000_000;

/// Smallest orbital distance a generated satellite can have, in metres.
pub const SATELLITE_ORBIT_MIN_M: u64 = 1_000_000;

/// Upper bound (exclusive) on a generated satellite's orbital distance, in metres.
pub const SATELLITE_ORBIT_MAX_M: u64 = 1_000_000_000;

/// A natural satellite: a name, a diameter and an orbital distance, both in
/// metres.
pub struct Satellite {
    pub name: String,
    pub diameter: u64,
    pub orbital_distance: u64,
}

impl Satellite {
    pub fn new(name: String, diameter: u64, orbital_distance: u64) -> (s: Satellite)
        ensures
            s.name@ == name@,
            s.diameter == diameter,
            s.orbital_distance == orbital_distance,
    {
        Satellite { name, diameter, orbital_distance }
    }

    /// Satellite with the diameter drawn uniformly from
    /// [`SATELLITE_DIAMETER_MIN_M`, `SATELLITE_DIAMETER_MAX_M`) and the
    /// orbital distance from [`SATELLITE_ORBIT_MIN_M`, `SATELLITE_ORBIT_MAX_M`).
    pub fn generate(name: String) -> (s: Satellite)
        ensures
            s.name@ == name@,
            SATELLITE_DIAMETER_MIN_M <= s.diameter < SATELLITE_DIAMETER_MAX_M,
            SATELLITE_ORBIT_MIN_M <= s.orbital_distance < SATELLITE_ORBIT_MAX_M,
    {
        let diameter = rand_u64_in(SATELLITE_DIAMETER_MIN_M, SATELLITE_DIAMETER_MAX_M);
        let orbital_distance = rand_u64_in(SATELLITE_ORBIT_MIN_M, SATELLITE_ORBIT_MAX_M);
        Satellite::new(name, diameter, orbital_distance)
    }

    /// Ratios of this satellite's diameter and orbital distance to Luna's,
    /// in thousandths.
    pub fn respect_to_luna(&self) -> (r: (u64, u64))
        ensures
            r.0 == self.diameter as int * 1000 / LUNA_DIAMETER_M as int,
            r.1 == self.orbital_distance as int * 1000 / LUNA_ORBITAL_DISTANCE_M as int,
    {
        (
            ratio_milli(self.diameter, LUNA_DIAMETER_M),
            ratio_milli(self.orbital_distance, LUNA_ORBITAL_DISTANCE_M),
        )
    }
}

/// The reference satellite: Luna.
pub fn luna() -> (s: Satellite)
    ensures
        s.name@ == "Luna"@,
        s.diameter == LUNA_DIAMETER_M,
        s.orbital_distance == LUNA_ORBITAL_DISTANCE_M,
{
    Satellite::new("Luna".to_owned(), LUNA_DIAMETER_M, LUNA_ORBITAL_DISTANCE_M)
}

} // verus!
