use unit_algebra::{BaseUnit, CompoundUnit, Dimension, Unit};

fn base(dimension: Dimension, name: &str) -> Unit<'static> {
    Unit::Base(BaseUnit { dimension, name: String::from(name) })
}

fn metre() -> Unit<'static> {
    base(Dimension(1, 0, 0, 0, 0), "m")
}

fn second() -> Unit<'static> {
    base(Dimension(0, 1, 0, 0, 0), "s")
}

fn kilogram() -> Unit<'static> {
    base(Dimension(0, 0, 1, 0, 0), "kg")
}

fn ampere() -> Unit<'static> {
    base(Dimension(0, 0, 0, 1, 0), "A")
}

#[test]
fn base_unit_reports_what_it_was_given() {
    let m = metre();
    assert_eq!(m.get_dimension(), Dimension(1, 0, 0, 0, 0));
    assert_eq!(m.get_name(), "m");
}

#[test]
fn newton_from_base_units() {
    let (m, s, kg) = (metre(), second(), kilogram());
    let newton = Unit::Compound(CompoundUnit::new(vec![(&m, 1), (&kg, 1), (&s, -2)], None));
    assert_eq!(newton.get_dimension(), Dimension(1, -2, 1, 0, 0));
    assert_eq!(newton.get_name(), "m * kg * s^-2");
}

#[test]
fn joule_from_newton_and_metre() {
    let (m, s, kg) = (metre(), second(), kilogram());
    let newton = Unit::Compound(CompoundUnit::new(vec![(&m, 1), (&kg, 1), (&s, -2)], None));
    let joule = Unit::Compound(CompoundUnit::new(vec![(&newton, 1), (&m, 1)], None));
    assert_eq!(joule.get_dimension(), Dimension(2, -2, 1, 0, 0));
    assert_eq!(joule.get_name(), "m * kg * s^-2 * m");
}

#[test]
fn volt_through_a_chain_of_compound_units() {
    let (m, s, kg, a) = (metre(), second(), kilogram(), ampere());
    let newton = Unit::Compound(CompoundUnit::new(vec![(&m, 1), (&kg, 1), (&s, -2)], None));
    let joule = Unit::Compound(CompoundUnit::new(vec![(&newton, 1), (&m, 1)], None));
    let watt = Unit::Compound(CompoundUnit::new(vec![(&joule, 1), (&s, -1)], None));
    let volt = Unit::Compound(CompoundUnit::new(vec![(&watt, 1), (&a, -1)], None));
    assert_eq!(watt.get_dimension(), Dimension(2, -3, 1, 0, 0));
    assert_eq!(watt.get_name(), "m * kg * s^-2 * m * s^-1");
    assert_eq!(volt.get_dimension(), Dimension(2, -3, 1, -1, 0));
    assert_eq!(volt.get_name(), "m * kg * s^-2 * m * s^-1 * A^-1");
}

#[test]
fn a_unit_alone_in_the_first_power_composes_to_itself() {
    let kg = kilogram();
    let same = Unit::Compound(CompoundUnit::new(vec![(&kg, 1)], None));
    assert_eq!(same.get_dimension(), kg.get_dimension());
    assert_eq!(same.get_name(), kg.get_name());
    assert_eq!(same.get_name(), "kg");
}

#[test]
fn a_compound_unit_alone_in_the_first_power_composes_to_itself() {
    let (m, s) = (metre(), second());
    let speed = Unit::Compound(CompoundUnit::new(vec![(&m, 1), (&s, -1)], None));
    let same = Unit::Compound(CompoundUnit::new(vec![(&speed, 1)], None));
    assert_eq!(same.get_dimension(), Dimension(1, -1, 0, 0, 0));
    assert_eq!(same.get_name(), "m * s^-1");
}

#[test]
fn the_inverse_of_a_unit_has_the_negated_dimension() {
    let (m, s, kg) = (metre(), second(), kilogram());
    let newton = Unit::Compound(CompoundUnit::new(vec![(&m, 1), (&kg, 1), (&s, -2)], None));
    let inverse = Unit::Compound(CompoundUnit::new(vec![(&newton, -1)], None));
    assert_eq!(inverse.get_dimension(), Dimension(-1, 2, -1, 0, 0));
    assert_eq!(inverse.get_name(), "m * kg * s^-2^-1");
    let hertz = Unit::Compound(CompoundUnit::new(vec![(&s, -1)], None));
    assert_eq!(hertz.get_dimension(), Dimension(0, -1, 0, 0, 0));
    assert_eq!(hertz.get_name(), "s^-1");
}

#[test]
fn reordering_keeps_the_dimension_and_reorders_the_name() {
    let (m, s, kg) = (metre(), second(), kilogram());
    let one = Unit::Compound(CompoundUnit::new(vec![(&m, 1), (&kg, 1), (&s, -2)], None));
    let other = Unit::Compound(CompoundUnit::new(vec![(&s, -2), (&m, 1), (&kg, 1)], None));
    assert_eq!(one.get_dimension(), other.get_dimension());
    assert_eq!(one.get_name(), "m * kg * s^-2");
    assert_eq!(other.get_name(), "s^-2 * m * kg");
    let mut tokens_of_one: Vec<&str> = one.get_name().split(" * ").collect();
    let mut tokens_of_other: Vec<&str> = other.get_name().split(" * ").collect();
    tokens_of_one.sort();
    tokens_of_other.sort();
    assert_eq!(tokens_of_one, tokens_of_other);
}

#[test]
fn a_zeroth_power_contributes_nothing() {
    let (m, s, kg) = (metre(), second(), kilogram());
    let with = Unit::Compound(CompoundUnit::new(vec![(&m, 1), (&s, 0), (&kg, 1)], None));
    let without = Unit::Compound(CompoundUnit::new(vec![(&m, 1), (&kg, 1)], None));
    assert_eq!(with.get_dimension(), Dimension(1, 0, 1, 0, 0));
    assert_eq!(with.get_name(), "m * kg");
    assert_eq!(with.get_dimension(), without.get_dimension());
    assert_eq!(with.get_name(), without.get_name());
}

#[test]
fn zeroth_powers_at_the_ends_leave_no_separator() {
    let (m, s, kg) = (metre(), second(), kilogram());
    let first = Unit::Compound(CompoundUnit::new(vec![(&s, 0), (&m, 1), (&kg, 2)], None));
    assert_eq!(first.get_name(), "m * kg^2");
    let last = Unit::Compound(CompoundUnit::new(vec![(&m, 1), (&kg, 2), (&s, 0)], None));
    assert_eq!(last.get_name(), "m * kg^2");
    let only = Unit::Compound(CompoundUnit::new(vec![(&s, 0)], None));
    assert_eq!(only.get_name(), "");
    assert_eq!(only.get_dimension(), Dimension::new());
}

#[test]
fn an_explicit_name_is_used_as_given() {
    let (m, s, kg) = (metre(), second(), kilogram());
    let newton = Unit::Compound(
        CompoundUnit::new(vec![(&m, 1), (&kg, 1), (&s, -2)], Some(String::from("N"))),
    );
    assert_eq!(newton.get_name(), "N");
    assert_eq!(newton.get_dimension(), Dimension(1, -2, 1, 0, 0));
    let joule = Unit::Compound(CompoundUnit::new(vec![(&newton, 1), (&m, 1)], None));
    assert_eq!(joule.get_name(), "N * m");
    assert_eq!(joule.get_dimension(), Dimension(2, -2, 1, 0, 0));
}

#[test]
fn an_explicit_empty_name_is_used_as_given() {
    let m = metre();
    let unnamed = Unit::Compound(CompoundUnit::new(vec![(&m, 2)], Some(String::new())));
    assert_eq!(unnamed.get_name(), "");
    assert_eq!(unnamed.get_dimension(), Dimension(2, 0, 0, 0, 0));
}

#[test]
fn no_constituents_compose_to_the_pure_number() {
    let one = Unit::Compound(CompoundUnit::new(Vec::new(), None));
    assert_eq!(one.get_dimension(), Dimension::new());
    assert_eq!(one.get_name(), "");
}

#[test]
fn a_repeated_unit_adds_its_exponents() {
    let m = metre();
    let volume = Unit::Compound(CompoundUnit::new(vec![(&m, 1), (&m, 2)], None));
    assert_eq!(volume.get_dimension(), Dimension(3, 0, 0, 0, 0));
    assert_eq!(volume.get_name(), "m * m^2");
}

#[test]
fn a_unit_without_a_name_leaves_no_token_in_the_first_power() {
    let (m, anonymous) = (metre(), base(Dimension(0, 0, 0, 0, 1), ""));
    let first = Unit::Compound(CompoundUnit::new(vec![(&anonymous, 1), (&m, 1)], None));
    assert_eq!(first.get_name(), "m");
    assert_eq!(first.get_dimension(), Dimension(1, 0, 0, 0, 1));
    let squared = Unit::Compound(CompoundUnit::new(vec![(&anonymous, 2), (&m, 1)], None));
    assert_eq!(squared.get_name(), "^2 * m");
}

#[test]
fn exponents_of_several_digits_are_written_in_full() {
    let pure = base(Dimension::new(), "x");
    let high = Unit::Compound(CompoundUnit::new(vec![(&pure, i32::MAX), (&pure, i32::MIN)], None));
    assert_eq!(high.get_name(), "x^2147483647 * x^-2147483648");
    assert_eq!(high.get_dimension(), Dimension::new());
}

#[test]
fn the_constituents_are_kept_in_order() {
    let (m, s) = (metre(), second());
    let speed = CompoundUnit::new(vec![(&m, 1), (&s, -1)], None);
    let kept = speed.get_units();
    assert_eq!(kept.len(), 2);
    assert!(std::ptr::eq(kept[0].0, &m));
    assert_eq!(kept[0].1, 1);
    assert!(std::ptr::eq(kept[1].0, &s));
    assert_eq!(kept[1].1, -1);
}

#[test]
fn checked_new_builds_what_new_builds() {
    let (m, s, kg) = (metre(), second(), kilogram());
    let built = CompoundUnit::checked_new(vec![(&m, 1), (&kg, 1), (&s, -2)], None);
    assert!(built.is_some());
    let newton = Unit::Compound(built.unwrap());
    assert_eq!(newton.get_dimension(), Dimension(1, -2, 1, 0, 0));
    assert_eq!(newton.get_name(), "m * kg * s^-2");
}

#[test]
fn checked_new_refuses_a_dimension_that_cannot_be_stored() {
    let area = base(Dimension(2, 0, 0, 0, 0), "m2");
    assert!(CompoundUnit::checked_new(vec![(&area, i32::MAX)], None).is_none());
    assert!(CompoundUnit::checked_new(vec![(&area, i32::MIN)], Some(String::from("x"))).is_none());
    let large = base(Dimension(0, 0, 0, 0, i32::MAX), "big");
    assert!(CompoundUnit::checked_new(vec![(&large, 1), (&large, 1)], None).is_none());
    let low = base(Dimension(0, i32::MIN, 0, 0, 0), "low");
    assert!(CompoundUnit::checked_new(vec![(&low, -1)], None).is_none());
}

#[test]
fn checked_new_accepts_a_sum_that_fits_in_the_end() {
    let large = base(Dimension(i32::MAX, 0, 0, 0, 0), "big");
    let built = CompoundUnit::checked_new(vec![(&large, 1), (&large, 1), (&large, -1)], None);
    let unit = Unit::Compound(built.unwrap());
    assert_eq!(unit.get_dimension(), Dimension(i32::MAX, 0, 0, 0, 0));
    assert_eq!(unit.get_name(), "big * big * big^-1");
}

#[test]
fn checked_new_reaches_the_limits_of_a_component() {
    let low = base(Dimension(i32::MIN, 0, 0, 0, 0), "low");
    let built = CompoundUnit::checked_new(vec![(&low, 1)], None);
    assert_eq!(Unit::Compound(built.unwrap()).get_dimension(), Dimension(i32::MIN, 0, 0, 0, 0));
    let one = base(Dimension(0, 1, 0, 0, 0), "s");
    let built = CompoundUnit::checked_new(vec![(&one, i32::MAX)], None);
    assert_eq!(Unit::Compound(built.unwrap()).get_dimension(), Dimension(0, i32::MAX, 0, 0, 0));
}

#[test]
fn debug_text_shows_the_structure_of_a_unit() {
    let (m, s) = (metre(), second());
    let speed = Unit::Compound(CompoundUnit::new(vec![(&m, 1), (&s, -1)], None));
    let text = format!("{:?}", speed);
    assert!(text.starts_with("Compound(CompoundUnit {"));
    assert!(text.contains("dimension: Dimension(1, -1, 0, 0, 0)"));
    assert!(text.contains("name: \"m * s^-1\""));
    assert!(text.contains("Base(BaseUnit { dimension: Dimension(0, 1, 0, 0, 0), name: \"s\" }), -1"));
}
