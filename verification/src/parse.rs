use vstd::prelude::*;
use vstd::string::StringSliceAdditionalSpecFns;
use crate::planet::PlanetType;
use crate::star::StarClass;

verus! {

/// Kind of celestial body to generate.
#[derive(Debug, Clone, Copy, PartialEq, Eq, Structural)]
pub enum BodyType {
    STAR,
    PLANET,
    SATELLITE,
}

/// `b` with an ASCII capital letter folded to the small letter.
pub open spec fn spec_ascii_lower(b: u8) -> u8 {
    if 65 <= b && b <= 90 {
        (b + 32) as u8
    } else {
        b
    }
}

/// `s` with every ASCII capital letter folded to the small letter.
pub open spec fn spec_ascii_lower_seq(s: Seq<u8>) -> Seq<u8> {
    s.map_values(|b: u8| spec_ascii_lower(b))
}

/// Spectral class named by `s`, compared without regard to ASCII case; an
/// unrecognized name falls back to G.
pub open spec fn spec_star_class_of_str(s: Seq<u8>) -> StarClass {
    let l = spec_ascii_lower_seq(s);
    if l == "o".spec_bytes() {
        StarClass::O
    } else if l == "b".spec_bytes() {
        StarClass::B
    } else if l == "a".spec_bytes() {
        StarClass::A
    } else if l == "f".spec_bytes() {
        StarClass::F
    } else if l == "g".spec_bytes() {
        StarClass::G
    } else if l == "k".spec_bytes() {
        StarClass::K
    } else if l == "m".spec_bytes() {
        StarClass::M
    } else {
        StarClass::G
    }
}

/// Planet category named by `s`, compared without regard to ASCII case: the
/// command-line spellings `terrestrial`/`t`, `gasgiant`/`gg` and
/// `icegiant`/`ig`, with `rocky`, `gas`, `gas giant`, `ice` and `ice giant`
/// as synonyms; an unrecognized name falls back to terrestrial.
pub open spec fn spec_planet_type_of_str(s: Seq<u8>) -> PlanetType {
    let l = spec_ascii_lower_seq(s);
    if l == "terrestrial".spec_bytes() || l == "t".spec_bytes() || l == "rocky".spec_bytes() {
        PlanetType::TERRESTRIAL
    } else if l == "gasgiant".spec_bytes() || l == "gg".spec_bytes() || l == "gas".spec_bytes()
        || l == "gas giant".spec_bytes() {
        PlanetType::GASGIANT
    } else if l == "icegiant".spec_bytes() || l == "ig".spec_bytes() || l == "ice".spec_bytes()
        || l == "ice giant".spec_bytes() {
        PlanetType::ICEGIANT
    } else {
        PlanetType::TERRESTRIAL
    }
}

/// Kind of body named by `s`, compared without regard to ASCII case; an
/// unrecognized name falls back to a star.
pub open spec fn spec_body_type_of_str(s: Seq<u8>) -> BodyType {
    let l = spec_ascii_lower_seq(s);
    if l == "star".spec_bytes() || l == "s".spec_bytes() {
        BodyType::STAR
    } else if l == "planet".spec_bytes() || l == "p".spec_bytes() {
        BodyType::PLANET
    } else if l == "satellite".spec_bytes() || l == "sat".spec_bytes() {
        BodyType::SATELLITE
    } else {
        BodyType::STAR
    }
}

fn ascii_lower(b: u8) -> (r: u8)
    ensures
        r == spec_ascii_lower(b),
{
    if 65 <= b && b <= 90 {
        b + 32
    } else {
        b
    }
}

/// Does `s`, folded to lower case, spell the word `w`?
fn eq_ignore_case(s: &[u8], w: &str) -> (r: bool)
    ensures
        r == (spec_ascii_lower_seq(s@) == w.spec_bytes()),
{
    let wb: &[u8] = w.as_bytes();
    let n = s.len();
    if n != wb.len() {
        assert(spec_ascii_lower_seq(s@).len() == s@.len());
        return false;
    }
    let mut i: usize = 0;
    while i < n
        invariant
            n == s@.len(),
            n == wb@.len(),
            i <= n,
            wb@ == w.spec_bytes(),
            forall|j: int| 0 <= j < i ==> spec_ascii_lower(#[trigger] s@[j]) == wb@[j],
        decreases n - i,
    {
        if ascii_lower(s[i]) != wb[i] {
            assert(spec_ascii_lower_seq(s@)[i as int] != wb@[i as int]);
            return false;
        }
        i += 1;
    }
    proof {
        assert(spec_ascii_lower_seq(s@) =~= wb@);
    }
    true
}

/// Spectral class named by `s`: one of the seven class letters, in either
/// case; any other text gives G.
pub fn star_class_from_str(s: &str) -> (c: StarClass)
    ensures
        c == spec_star_class_of_str(s.spec_bytes()),
{
    let b: &[u8] = s.as_bytes();
    if eq_ignore_case(b, "o") {
        StarClass::O
    } else if eq_ignore_case(b, "b") {
        StarClass::B
    } else if eq_ignore_case(b, "a") {
        StarClass::A
    } else if eq_ignore_case(b, "f") {
        StarClass::F
    } else if eq_ignore_case(b, "g") {
        StarClass::G
    } else if eq_ignore_case(b, "k") {
        StarClass::K
    } else if eq_ignore_case(b, "m") {
        StarClass::M
    } else {
        StarClass::G
    }
}

/// Planet category named by `s`, in either case; any other text gives a
/// terrestrial planet.
pub fn planet_type_from_str(s: &str) -> (t: PlanetType)
    ensures
        t == spec_planet_type_of_str(s.spec_bytes()),
{
    let b: &[u8] = s.as_bytes();
    if eq_ignore_case(b, "terrestrial") || eq_ignore_case(b, "t") || eq_ignore_case(b, "rocky") {
        PlanetType::TERRESTRIAL
    } else if eq_ignore_case(b, "gasgiant") || eq_ignore_case(b, "gg") || eq_ignore_case(b, "gas")
        || eq_ignore_case(b, "gas giant") {
        PlanetType::GASGIANT
    } else if eq_ignore_case(b, "icegiant") || eq_ignore_case(b, "ig") || eq_ignore_case(b, "ice")
        || eq_ignore_case(b, "ice giant") {
        PlanetType::ICEGIANT
    } else {
        PlanetType::TERRESTRIAL
    }
}

/// Kind of body named by `s`, in either case; any other text gives a star.
pub fn body_type_from_str(s: &str) -> (t: BodyType)
    ensures
        t == spec_body_type_of_str(s.spec_bytes()),
{
    let b: &[u8] = s.as_bytes();
    if eq_ignore_case(b, "star") || eq_ignore_case(b, "s") {
        BodyType::STAR
    } else if eq_ignore_case(b, "planet") || eq_ignore_case(b, "p") {
        BodyType::PLANET
    } else if eq_ignore_case(b, "satellite") || eq_ignore_case(b, "sat") {
        BodyType::SATELLITE
    } else {
        BodyType::STAR
    }
}

} // verus!
