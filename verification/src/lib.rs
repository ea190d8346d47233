//! Generator of randomized, physically-plausible descriptions of celestial
//! bodies: stars, planets and satellites.
//!
//! Every physical quantity is held as a fixed-point integer so that
//! classification, generation and comparison are exact:
//! - lengths and distances in metres (`u64`),
//! - temperatures in millikelvin (`u64`),
//! - masses in kilograms (`u128`),
//! - orbital periods in millidays (`u64`),
//! - ratios to a reference body in thousandths (`u64`).

mod rng;

pub mod parse;
pub mod planet;
pub mod ratio;
pub mod satellite;
pub mod star;

pub use parse::BodyType;
pub use planet::Planet;
pub use planet::PlanetType;
pub use satellite::Satellite;
pub use star::Star;
pub use star::StarClass;
