use nbodies::keys::{KEY_NEXT_LOGGER_STATE, KEY_RESET};
use nbodies::log::{Logger, State};
use nbodies::orbital::Kind;
use nbodies::units::prefix::Standard;
use nbodies::units::{Compound, Rescale, Scale, Unit};

fn unit(prefix: &str, suffix: &str, pow: i8) -> Unit<f64> {
    Unit::new(Scale::new(prefix, 1., 1), Scale::new(suffix, 1., pow))
}

fn pows(c: &Compound<f64>) -> Vec<(String, i8)> {
    c.units.iter().map(|u| (u.suffix.label.clone(), u.suffix.pow)).collect()
}

#[test]
fn logger_pages() {
    let mut l = Logger::new();
    assert_eq!(l.state, State::Hide);
    l.update(&KEY_RESET);
    assert_eq!(l.state, State::Hide);
    let expected = [
        State::Status,
        State::Config,
        State::Step,
        State::Cinematic,
        State::Points,
        State::Bodies,
        State::Physics,
        State::Hide,
    ];
    for page in expected {
        l.update(&KEY_NEXT_LOGGER_STATE);
        assert_eq!(l.state, page);
    }
}

#[test]
fn pages_with_scale() {
    assert!(State::Step.shows_scale());
    assert!(State::Points.shows_scale());
    assert!(State::Cinematic.shows_scale());
    assert!(State::Physics.shows_scale());
    assert!(!State::Hide.shows_scale());
    assert!(!State::Status.shows_scale());
    assert!(!State::Config.shows_scale());
    assert!(!State::Bodies.shows_scale());
}

#[test]
fn unit_labels() {
    assert_eq!(unit("k", "m", 1).label(), "km");
    assert_eq!(unit("", "s", -2).label(), "s-2");
    assert_eq!(unit("M", "m", 3).label(), "Mm3");
    assert_eq!(unit("", "kg", 0).label(), "kg0");
}

#[test]
fn compound_labels() {
    let speed = unit("", "m", 1).div(unit("", "s", 1));
    assert_eq!(speed.label(), "m/s");
    let acceleration = speed.div(unit("", "s", 1));
    assert_eq!(acceleration.label(), "m/s2");
    let c = Compound::new(vec![unit("", "s", -1), unit("k", "g", 2), unit("", "A", -3)]);
    assert_eq!(c.label(), "kg2/sA3");
    let c = Compound::new(vec![unit("", "m", 1)]);
    assert_eq!(c.label(), unit("", "m", 1).label());
    let c: Compound<f64> = Compound::new(vec![]);
    assert_eq!(c.label(), "");
    let c = Compound::new(vec![unit("", "", -1)]);
    assert_eq!(c.label(), "");
}

#[test]
fn products_merge_suffixes() {
    let mut c = Compound::new(vec![unit("", "m", 1), unit("", "s", -1)]);
    c.mul_assign(unit("k", "m", 2));
    assert_eq!(pows(&c), vec![(String::from("m"), 3), (String::from("s"), -1)]);
    assert_eq!(c.units[0].prefix.label, "");
    c.mul_assign(unit("", "g", 1));
    assert_eq!(pows(&c).len(), 3);
    c.div_assign(unit("", "g", 1));
    assert_eq!(pows(&c)[2], (String::from("g"), 0));
    let c = c.mul(unit("", "s", 1)).div(unit("", "m", 1));
    assert_eq!(pows(&c), vec![(String::from("m"), 2), (String::from("s"), 0), (String::from("g"), 0)]);
}

#[test]
fn products_of_compounds() {
    let speed = Compound::new(vec![unit("", "m", 1), unit("", "s", -1)]);
    let time = Compound::new(vec![unit("", "s", 1), unit("", "h", 1)]);
    let distance = speed.mul_compound(time);
    assert_eq!(
        pows(&distance),
        vec![(String::from("m"), 1), (String::from("s"), 0), (String::from("h"), 1)]
    );
    let back = distance.div_compound(Compound::new(vec![unit("", "h", 1), unit("", "m", 2)]));
    assert_eq!(
        pows(&back),
        vec![(String::from("m"), -1), (String::from("s"), 0), (String::from("h"), 0)]
    );
    assert_eq!(back.label(), "s0h0/m");
}

#[test]
fn unit_products() {
    let area = unit("", "m", 1).mul(unit("", "m", 1));
    assert_eq!(pows(&area), vec![(String::from("m"), 2)]);
    let mixed = unit("", "m", 1).mul(unit("", "s", 1));
    assert_eq!(pows(&mixed), vec![(String::from("m"), 1), (String::from("s"), 1)]);
}

#[test]
fn rescaled_prefix() {
    let mut u = unit("", "m", 1);
    u.rescale(&Scale::new("k", 1e-3, 1));
    assert_eq!(u.label(), "km");
    assert_eq!(u.prefix.multiplier, 1e-3);
}

#[test]
fn standard_prefixes() {
    assert_eq!(Standard::from_exponent(-15), Standard::Femto);
    assert_eq!(Standard::from_exponent(-13), Standard::Femto);
    assert_eq!(Standard::from_exponent(-12), Standard::Pico);
    assert_eq!(Standard::from_exponent(-7), Standard::Nano);
    assert_eq!(Standard::from_exponent(-4), Standard::Micro);
    assert_eq!(Standard::from_exponent(-1), Standard::Milli);
    assert_eq!(Standard::from_exponent(0), Standard::Base);
    assert_eq!(Standard::from_exponent(2), Standard::Base);
    assert_eq!(Standard::from_exponent(3), Standard::Kilo);
    assert_eq!(Standard::from_exponent(8), Standard::Mega);
    assert_eq!(Standard::from_exponent(11), Standard::Giga);
    assert_eq!(Standard::from_exponent(14), Standard::Tera);
    assert_eq!(Standard::from_exponent(17), Standard::Tera);
    assert_eq!(Standard::from_exponent(18), Standard::Base);
    assert_eq!(Standard::from_exponent(-16), Standard::Base);
    assert_eq!(Standard::from_exponent(i32::MIN), Standard::Base);
}

#[test]
fn kinds_drawn() {
    assert_eq!(Kind::from_draw(0), Kind::Artificial);
    assert_eq!(Kind::from_draw(1), Kind::Terrestrial);
    assert_eq!(Kind::from_draw(2), Kind::Giant);
    assert_eq!(Kind::from_draw(3), Kind::Star);
    assert_eq!(Kind::from_draw(4), Kind::Hole);
    assert_eq!(Kind::from_draw(9), Kind::Artificial);
    for _ in 0..200 {
        assert_ne!(Kind::random(), Kind::Hole);
    }
}

#[test]
fn powers_written_in_decimal() {
    assert_eq!(unit("", "m", 127).label(), "m127");
    assert_eq!(unit("", "m", -128).label(), "m-128");
    assert_eq!(unit("", "m", 10).label(), "m10");
    assert_eq!(unit("", "m", -9).label(), "m-9");
    assert_eq!(unit("", "m", 100).label(), "m100");
}
