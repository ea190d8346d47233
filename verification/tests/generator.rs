use scifi_generator::parse::{body_type_from_str, planet_type_from_str, star_class_from_str, BodyType};
use scifi_generator::planet::{
    earth, Planet, PlanetType, EARTH_DIAMETER_M, EARTH_MASS_KG, EARTH_PERIOD_MD,
};
use scifi_generator::ratio::ratio_milli;
use scifi_generator::satellite::{
    luna, Satellite, LUNA_DIAMETER_M, LUNA_ORBITAL_DISTANCE_M, SATELLITE_DIAMETER_MAX_M,
    SATELLITE_DIAMETER_MIN_M, SATELLITE_ORBIT_MAX_M, SATELLITE_ORBIT_MIN_M,
};
use scifi_generator::star::{
    disc_radius, disc_rows, sun, Star, StarClass, SUN_DIAMETER_M, SUN_TEMP_MK,
};

#[test]
fn class_from_temp_boundaries() {
    assert!(matches!(Star::class_from_temp(0), StarClass::M));
    assert!(matches!(Star::class_from_temp(3_699_999), StarClass::M));
    assert!(matches!(Star::class_from_temp(3_700_000), StarClass::K));
    assert!(matches!(Star::class_from_temp(5_199_999), StarClass::K));
    assert!(matches!(Star::class_from_temp(5_200_000), StarClass::G));
    assert!(matches!(Star::class_from_temp(5_999_999), StarClass::G));
    assert!(matches!(Star::class_from_temp(6_000_000), StarClass::F));
    assert!(matches!(Star::class_from_temp(7_499_999), StarClass::F));
    assert!(matches!(Star::class_from_temp(7_500_000), StarClass::A));
    assert!(matches!(Star::class_from_temp(9_999_999), StarClass::A));
    assert!(matches!(Star::class_from_temp(10_000_000), StarClass::B));
    assert!(matches!(Star::class_from_temp(32_999_999), StarClass::B));
    assert!(matches!(Star::class_from_temp(33_000_000), StarClass::O));
    assert!(matches!(Star::class_from_temp(u64::MAX), StarClass::O));
}

#[test]
fn class_from_diameter_boundaries() {
    // Boundaries are 0.70, 0.96, 1.15, 1.40, 1.80 and 6.60 of the Sun's
    // diameter of 1_390_950_000 m; a diameter equal to a boundary belongs to
    // the larger class.
    assert!(matches!(Star::class_from_diameter(0), StarClass::M));
    assert!(matches!(Star::class_from_diameter(973_664_999), StarClass::M));
    assert!(matches!(Star::class_from_diameter(973_665_000), StarClass::K));
    assert!(matches!(Star::class_from_diameter(1_335_311_999), StarClass::K));
    assert!(matches!(Star::class_from_diameter(1_335_312_000), StarClass::G));
    assert!(matches!(Star::class_from_diameter(1_599_592_499), StarClass::G));
    assert!(matches!(Star::class_from_diameter(1_599_592_500), StarClass::F));
    assert!(matches!(Star::class_from_diameter(1_947_329_999), StarClass::F));
    assert!(matches!(Star::class_from_diameter(1_947_330_000), StarClass::A));
    assert!(matches!(Star::class_from_diameter(2_503_709_999), StarClass::A));
    assert!(matches!(Star::class_from_diameter(2_503_710_000), StarClass::B));
    assert!(matches!(Star::class_from_diameter(9_180_269_999), StarClass::B));
    assert!(matches!(Star::class_from_diameter(9_180_270_000), StarClass::O));
    assert!(matches!(Star::class_from_diameter(u64::MAX), StarClass::O));
}

#[test]
fn generate_from_class_keeps_class() {
    let classes = [
        StarClass::O,
        StarClass::B,
        StarClass::A,
        StarClass::F,
        StarClass::G,
        StarClass::K,
        StarClass::M,
    ];
    for class in classes {
        let s = Star::generate_from_class("test".to_string(), class);
        assert_eq!(s.class, class);
        assert_eq!(s.name, "test");
        // The drawn diameter classifies back to the same class.
        assert_eq!(Star::class_from_diameter(s.diameter), class);
        assert_eq!(Star::class_from_temp(s.temp), class);
    }
}

#[test]
fn sirius_class_a_ranges() {
    for _ in 0..20 {
        let s = Star::generate_from_class("Sirius".to_string(), StarClass::A);
        assert!(matches!(s.class, StarClass::A));
        // 1.40 to 1.80 of the Sun's diameter.
        assert!(s.diameter >= 1_947_330_000 && s.diameter < 2_503_710_000);
        assert!(s.temp >= 7_500_000 && s.temp < 10_000_000);
    }
}

#[test]
fn generate_from_temp_preserves_temperature() {
    let s = Star::generate_from_temp("t".to_string(), 4_321_777);
    assert_eq!(s.temp, 4_321_777);
    assert!(matches!(s.class, StarClass::K));
    assert!(s.diameter >= 973_665_000 && s.diameter < 1_335_312_000);
}

#[test]
fn generate_from_diameter_preserves_diameter() {
    let s = Star::generate_from_diameter("d".to_string(), 2_000_000_123);
    assert_eq!(s.diameter, 2_000_000_123);
    assert!(matches!(s.class, StarClass::A));
    assert!(s.temp >= 7_500_000 && s.temp < 10_000_000);
}

#[test]
fn generate_star_within_its_class() {
    for _ in 0..20 {
        let s = Star::generate("any".to_string());
        assert_eq!(Star::class_from_diameter(s.diameter), s.class);
        assert_eq!(Star::class_from_temp(s.temp), s.class);
    }
}

#[test]
fn reference_constants_exact() {
    let s = sun();
    assert_eq!(s.name, "Sun");
    assert!(matches!(s.class, StarClass::G));
    assert_eq!(s.diameter, 1_390_950_000);
    assert_eq!(s.temp, 5_777_000);
    assert_eq!(SUN_DIAMETER_M, 1_390_950_000);
    assert_eq!(SUN_TEMP_MK, 5_777_000);

    let e = earth();
    assert_eq!(e.name, "Earth");
    assert!(matches!(e.planet_type, PlanetType::TERRESTRIAL));
    assert_eq!(e.diameter, 12_745_274);
    assert_eq!(e.mass, 5_972_600_000_000_000_000_000_000);
    assert_eq!(e.orbital_period, 365_000);
    assert_eq!(EARTH_DIAMETER_M, 12_745_274);
    assert_eq!(EARTH_MASS_KG, 5_972_600_000_000_000_000_000_000);
    assert_eq!(EARTH_PERIOD_MD, 365_000);

    let l = luna();
    assert_eq!(l.name, "Luna");
    assert_eq!(l.diameter, 3_474_000);
    assert_eq!(l.orbital_distance, 384_400_000);
    assert_eq!(LUNA_DIAMETER_M, 3_474_000);
    assert_eq!(LUNA_ORBITAL_DISTANCE_M, 384_400_000);
}

#[test]
fn ratios_to_self_are_one() {
    let s = sun();
    assert_eq!(s.respect_to_sun(), (1000, 1000));
    let e = earth();
    assert_eq!(e.respect_to_earth(), (1000, 1000, 1000, 1000));
    let l = luna();
    assert_eq!(l.respect_to_luna(), (1000, 1000));
}

#[test]
fn ratio_milli_truncates_exactly() {
    assert_eq!(ratio_milli(2_345, 1000), 2345);
    assert_eq!(ratio_milli(1, 3000), 0);
    assert_eq!(ratio_milli(u64::MAX, 1000), u64::MAX);
    let half_luna = Satellite::new("half".to_string(), 1_737_000, 192_200_000);
    assert_eq!(half_luna.respect_to_luna(), (500, 500));
    let bigger = Satellite::new("x".to_string(), 5_211_000, 768_800_000);
    assert_eq!(bigger.respect_to_luna(), (1500, 2000));
}

#[test]
fn satellite_ranges() {
    for _ in 0..20 {
        let s = Satellite::generate("moonlet".to_string());
        assert_eq!(s.name, "moonlet");
        assert!(s.diameter >= SATELLITE_DIAMETER_MIN_M && s.diameter < SATELLITE_DIAMETER_MAX_M);
        assert!(
            s.orbital_distance >= SATELLITE_ORBIT_MIN_M && s.orbital_distance < SATELLITE_ORBIT_MAX_M
        );
    }
}

#[test]
fn jove_gas_giant_ranges() {
    for _ in 0..20 {
        let p = Planet::generate_from_type("Jove".to_string(), PlanetType::GASGIANT);
        assert!(matches!(p.planet_type, PlanetType::GASGIANT));
        assert!(p.diameter >= 45_000_000 && p.diameter < 150_000_000);
        assert!(
            p.mass >= 500_000_000_000_000_000_000_000_000
                && p.mass < 30_000_000_000_000_000_000_000_000_000
        );
        assert!(p.orbital_period >= 3_000_000 && p.orbital_period < 80_000_000);
    }
}

#[test]
fn terrestrial_and_ice_giant_ranges() {
    let t = Planet::generate_from_type("rock".to_string(), PlanetType::TERRESTRIAL);
    assert!(t.diameter >= 4_000_000 && t.diameter < 20_000_000);
    assert!(t.mass >= 20_000_000_000_000_000_000_000 && t.mass < 29_000_000_000_000_000_000_000_000);
    assert!(t.orbital_period >= 70_000 && t.orbital_period < 750_000);

    let i = Planet::generate_from_type("ice".to_string(), PlanetType::ICEGIANT);
    assert!(i.diameter >= 45_000_000 && i.diameter < 60_000_000);
    assert!(
        i.mass >= 800_000_000_000_000_000_000_000_000
            && i.mass < 36_000_000_000_000_000_000_000_000_000
    );
    assert!(i.orbital_period >= 3_000_000 && i.orbital_period < 80_000_000);
}

#[test]
fn fixed_diameter_planet_uses_terrestrial_ranges() {
    let p = Planet::generate_from_type_and_diameter(
        "odd".to_string(),
        PlanetType::GASGIANT,
        123_456_789,
    );
    assert!(matches!(p.planet_type, PlanetType::GASGIANT));
    assert_eq!(p.diameter, 123_456_789);
    assert!(p.mass >= 20_000_000_000_000_000_000_000 && p.mass < 29_000_000_000_000_000_000_000_000);
    assert!(p.orbital_period >= 70_000 && p.orbital_period < 750_000);
}

#[test]
fn earth_surface_gravity_exact() {
    // 667 * mass / (10_000 * radius^2) with radius 6_372_637 m: about
    // 9.81 m/s^2, in nanometres per second squared.
    assert_eq!(earth().surface_gravity(), 9_809_591_044);
}

#[test]
fn earth_orbital_velocity_exact() {
    // 12_745_274 m over 365 days of 86_400 s, in micrometres per second.
    assert_eq!(earth().orbital_velocity(), 404_149);
}

#[test]
fn surface_gravity_formula_exact() {
    // radius 1_000_000 m: g = 667e24 / (10_000 * 1e12) = 6.67e10 nm/s^2,
    // that is 66.7 m/s^2.
    let p = Planet::new(
        "dense".to_string(),
        PlanetType::TERRESTRIAL,
        2_000_000,
        1_000_000_000_000_000_000_000_000,
        100_000,
    );
    assert_eq!(p.surface_gravity(), 66_700_000_000);
}

#[test]
fn orbital_velocity_formula_exact() {
    // 86_400_000 m over 1000 days: exactly one metre per second.
    let p = Planet::new(
        "steady".to_string(),
        PlanetType::GASGIANT,
        86_400_000,
        1_000_000_000_000_000_000_000_000,
        1_000_000,
    );
    assert_eq!(p.orbital_velocity(), 1_000_000);
}

#[test]
fn generated_planet_gravity_positive() {
    for _ in 0..20 {
        let p = Planet::generate("heavy".to_string());
        assert!(p.surface_gravity() > 0);
    }
}

#[test]
fn star_class_parsing() {
    assert!(matches!(star_class_from_str("O"), StarClass::O));
    assert!(matches!(star_class_from_str("o"), StarClass::O));
    assert!(matches!(star_class_from_str("B"), StarClass::B));
    assert!(matches!(star_class_from_str("a"), StarClass::A));
    assert!(matches!(star_class_from_str("F"), StarClass::F));
    assert!(matches!(star_class_from_str("g"), StarClass::G));
    assert!(matches!(star_class_from_str("K"), StarClass::K));
    assert!(matches!(star_class_from_str("m"), StarClass::M));
    // Unknown names fall back to G.
    assert!(matches!(star_class_from_str("q"), StarClass::G));
    assert!(matches!(star_class_from_str(""), StarClass::G));
    assert!(matches!(star_class_from_str("OB"), StarClass::G));
}

#[test]
fn planet_type_parsing() {
    assert!(matches!(planet_type_from_str("terrestrial"), PlanetType::TERRESTRIAL));
    assert!(matches!(planet_type_from_str("t"), PlanetType::TERRESTRIAL));
    assert!(matches!(planet_type_from_str("Rocky"), PlanetType::TERRESTRIAL));
    assert!(matches!(planet_type_from_str("gasgiant"), PlanetType::GASGIANT));
    assert!(matches!(planet_type_from_str("GG"), PlanetType::GASGIANT));
    assert!(matches!(planet_type_from_str("GAS"), PlanetType::GASGIANT));
    assert!(matches!(planet_type_from_str("gas giant"), PlanetType::GASGIANT));
    assert!(matches!(planet_type_from_str("icegiant"), PlanetType::ICEGIANT));
    assert!(matches!(planet_type_from_str("ig"), PlanetType::ICEGIANT));
    assert!(matches!(planet_type_from_str("ice"), PlanetType::ICEGIANT));
    assert!(matches!(planet_type_from_str("Ice Giant"), PlanetType::ICEGIANT));
    // Unknown names fall back to terrestrial.
    assert!(matches!(planet_type_from_str("comet"), PlanetType::TERRESTRIAL));
    assert!(matches!(planet_type_from_str(""), PlanetType::TERRESTRIAL));
}

#[test]
fn body_type_parsing() {
    assert!(matches!(body_type_from_str("star"), BodyType::STAR));
    assert!(matches!(body_type_from_str("S"), BodyType::STAR));
    assert!(matches!(body_type_from_str("Planet"), BodyType::PLANET));
    assert!(matches!(body_type_from_str("p"), BodyType::PLANET));
    assert!(matches!(body_type_from_str("satellite"), BodyType::SATELLITE));
    assert!(matches!(body_type_from_str("SAT"), BodyType::SATELLITE));
    // Unknown names fall back to a star.
    assert!(matches!(body_type_from_str("comet"), BodyType::STAR));
}

#[test]
fn disc_radius_clamped() {
    // The Sun itself is one seventh of the frame: clamped up to 4.
    assert_eq!(disc_radius(SUN_DIAMETER_M), 4);
    assert_eq!(disc_radius(0), 4);
    // Seven Sun diameters fill the frame.
    assert_eq!(disc_radius(7 * SUN_DIAMETER_M), 10);
    assert_eq!(disc_radius(u64::MAX), 10);
    // Five Sun diameters: floor(50 / 7) = 7.
    assert_eq!(disc_radius(5 * SUN_DIAMETER_M), 7);
}

#[test]
fn disc_rows_shape() {
    let rows = disc_rows(4);
    assert_eq!(rows.len(), 21);
    for row in &rows {
        assert_eq!(row.len(), 21);
    }
    // The centre is filled, the corners are not.
    assert!(rows[10][10]);
    assert!(!rows[0][0]);
    assert!(!rows[20][20]);
    // Directly right of the centre: distance 3 < 4 filled, 4 not.
    assert!(rows[10][13]);
    assert!(!rows[10][14]);

    let full = disc_rows(10);
    // Distance 9 from the centre is inside a radius-10 disc.
    assert!(full[10][19]);
    assert!(!full[10][20]);
}
