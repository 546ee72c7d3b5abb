//! Units: base units, given directly, and compound units, derived from other
//! units raised to integer powers.

use crate::composition::{
    combined_dimension, generated_name, lemma_combined_dimension_push, lemma_name_tokens_push,
    name_tokens,
};
use crate::dimension::{Dimension, Exponents};
use crate::name::{join, separator, texts, token_text};
use vstd::prelude::*;

verus! {

/// A fundamental unit: its dimension and name are given, not derived.
#[derive(Debug)]
pub struct BaseUnit {
    pub dimension: Dimension,
    pub name: String,
}

/// A unit derived from an ordered list of constituents, each a unit and the
/// integer power to which it is raised. Its dimension is always the one that
/// the constituents combine to.
#[derive(Debug)]
pub struct CompoundUnit<'u> {
    dimension: Dimension,
    units: Vec<(&'u Unit<'u>, i32)>,
    name: String,
}

/// A unit of either kind.
#[derive(Debug)]
pub enum Unit<'u> {
    Base(BaseUnit),
    Compound(CompoundUnit<'u>),
}

/// The largest magnitude that one component of a contribution can have: the
/// product of two `i32` magnitudes.
const STEP: i128 = 0x4000_0000_0000_0000;

/// The running sum of contributions, wide enough to hold the sum of as many
/// contributions as a vector has elements.
struct Accumulator {
    length: i128,
    time: i128,
    mass: i128,
    current: i128,
    reserved: i128,
}

impl View for Accumulator {
    type V = Exponents;

    closed spec fn view(&self) -> Exponents {
        Exponents {
            length: self.length as int,
            time: self.time as int,
            mass: self.mass as int,
            current: self.current as int,
            reserved: self.reserved as int,
        }
    }
}

/// Whether every component of `sum` has a magnitude of at most `bound`.
spec fn within(sum: Exponents, bound: int) -> bool {
    &&& -bound <= sum.length <= bound
    &&& -bound <= sum.time <= bound
    &&& -bound <= sum.mass <= bound
    &&& -bound <= sum.current <= bound
    &&& -bound <= sum.reserved <= bound
}

/// The product of two `i32` values has a magnitude of at most `STEP`.
proof fn lemma_product_bound(x: i32, y: i32)
    ensures
        -STEP <= x * y <= STEP,
{
    assert(-0x4000_0000_0000_0000 <= x * y <= 0x4000_0000_0000_0000) by (nonlinear_arith)
        requires
            -0x8000_0000 <= x <= 0x8000_0000,
            -0x8000_0000 <= y <= 0x8000_0000,
    ;
}

impl Accumulator {
    /// Adds the contribution of a unit of dimension `d` raised to `exponent`,
    /// as the one after `count` others.
    fn absorb(&mut self, d: Dimension, exponent: i32, Ghost(count): Ghost<int>)
        requires
            0 <= count < usize::MAX,
            within(old(self)@, count * STEP),
        ensures
            final(self)@ == old(self)@.plus(d@.scaled(exponent as int)),
            within(final(self)@, (count + 1) * STEP),
    {
        proof {
            lemma_product_bound(d.0, exponent);
            lemma_product_bound(d.1, exponent);
            lemma_product_bound(d.2, exponent);
            lemma_product_bound(d.3, exponent);
            lemma_product_bound(d.4, exponent);
            assert(count * STEP + STEP == (count + 1) * STEP) by (nonlinear_arith);
            assert((count + 1) * STEP <= 0x1_0000_0000_0000_0000 * STEP) by (nonlinear_arith)
                requires
                    0 <= count + 1 <= 0x1_0000_0000_0000_0000,
                    STEP >= 0,
            ;
        }
        let e = exponent as i128;
        self.length = self.length + (d.0 as i128) * e;
        self.time = self.time + (d.1 as i128) * e;
        self.mass = self.mass + (d.2 as i128) * e;
        self.current = self.current + (d.3 as i128) * e;
        self.reserved = self.reserved + (d.4 as i128) * e;
    }

    /// The sum as a dimension, where every component fits.
    fn narrow(&self) -> (stored: Option<Dimension>)
        ensures
            match stored {
                Some(dimension) => dimension@ == self@,
                None => !self@.fits(),
            },
    {
        if Self::small(self.length) && Self::small(self.time) && Self::small(self.mass)
            && Self::small(self.current) && Self::small(self.reserved) {
            Some(
                Dimension(
                    self.length as i32,
                    self.time as i32,
                    self.mass as i32,
                    self.current as i32,
                    self.reserved as i32,
                ),
            )
        } else {
            None
        }
    }

    /// Whether `component` can be stored in an `i32`.
    fn small(component: i128) -> (fits: bool)
        ensures
            fits == (i32::MIN <= component <= i32::MAX),
    {
        -0x8000_0000 <= component && component <= 0x7fff_ffff
    }
}

/// Sums the contributions of `units`; `None` where a component of the sum
/// cannot be stored.
fn fold_dimension(units: &Vec<(&Unit, i32)>) -> (total: Option<Dimension>)
    ensures
        match total {
            Some(dimension) => dimension@ == combined_dimension(units@),
            None => !combined_dimension(units@).fits(),
        },
{
    let mut sum = Accumulator { length: 0, time: 0, mass: 0, current: 0, reserved: 0 };
    let mut i: usize = 0;
    while i < units.len()
        invariant
            i <= units.len(),
            sum@ == combined_dimension(units@.take(i as int)),
            within(sum@, i * STEP),
        decreases units.len() - i,
    {
        let (unit, exponent) = units[i];
        proof {
            assert(units@.take(i + 1) =~= units@.take(i as int).push(units@[i as int]));
            lemma_combined_dimension_push(units@.take(i as int), units@[i as int]);
        }
        sum.absorb(unit.get_dimension(), exponent, Ghost(i as int));
        i += 1;
    }
    assert(units@.take(i as int) =~= units@);
    sum.narrow()
}

/// Builds the name generated for `units`.
fn generate_name(units: &Vec<(&Unit, i32)>) -> (name: String)
    ensures
        name@ == generated_name(units@),
{
    let mut parts: Vec<String> = Vec::new();
    let mut i: usize = 0;
    while i < units.len()
        invariant
            i <= units.len(),
            texts(parts@) == name_tokens(units@.take(i as int)),
        decreases units.len() - i,
    {
        let (unit, exponent) = units[i];
        let text = token_text(unit.get_name().as_str(), exponent);
        proof {
            assert(units@.take(i + 1) =~= units@.take(i as int).push(units@[i as int]));
            lemma_name_tokens_push(units@.take(i as int), units@[i as int]);
            assert(texts(parts@.push(text)) =~= texts(parts@).push(text@));
        }
        if !text.as_str().is_empty() {
            parts.push(text);
        }
        i += 1;
    }
    proof {
        assert(units@.take(i as int) =~= units@);
        reveal_strlit(" * ");
        assert(" * "@ =~= separator());
    }
    join(&parts, " * ")
}

impl<'u> CompoundUnit<'u> {
    /// The dimension is the one that the constituents combine to.
    #[verifier::type_invariant]
    spec fn derived(self) -> bool {
        self.dimension@ == combined_dimension(self.units@)
    }

    /// The dimension of this unit.
    pub closed spec fn dimension(&self) -> Dimension {
        self.dimension
    }

    /// The name of this unit.
    pub closed spec fn name(&self) -> Seq<char> {
        self.name@
    }

    /// The constituents from which this unit was built.
    pub closed spec fn units(&self) -> Seq<(&'u Unit<'u>, i32)> {
        self.units@
    }

    /// Builds the unit that `units` compose: its dimension is the one that
    /// they combine to, its name is `name` where one is given and the
    /// generated name otherwise, and the constituents are kept as given. A
    /// constituent raised to the power zero is accepted and contributes
    /// nothing. `None` where a component of the combined dimension cannot be
    /// stored.
    pub fn checked_new(units: Vec<(&'u Unit<'u>, i32)>, name: Option<String>) -> (built: Option<
        CompoundUnit<'u>,
    >)
        ensures
            built is Some <==> combined_dimension(units@).fits(),
            built matches Some(unit) ==> {
                &&& unit.dimension()@ == combined_dimension(units@)
                &&& unit.units() == units@
                &&& unit.name() == match name {
                    Some(given) => given@,
                    None => generated_name(units@),
                }
            },
    {
        match fold_dimension(&units) {
            None => None,
            Some(dimension) => {
                let name = match name {
                    Some(given) => given,
                    None => generate_name(&units),
                };
                Some(CompoundUnit { dimension, units, name })
            },
        }
    }

    /// Builds the unit that `units` compose: its dimension is the one that
    /// they combine to, its name is `name` where one is given and the
    /// generated name otherwise, and the constituents are kept as given. A
    /// constituent raised to the power zero is accepted and contributes
    /// nothing. Every component of the combined dimension must fit in an
    /// `i32`; the sums on the way to it need not.
    pub fn new(units: Vec<(&'u Unit<'u>, i32)>, name: Option<String>) -> (unit: CompoundUnit<'u>)
        requires
            combined_dimension(units@).fits(),
        ensures
            unit.dimension()@ == combined_dimension(units@),
            unit.units() == units@,
            unit.name() == match name {
                Some(given) => given@,
                None => generated_name(units@),
            },
    {
        Self::checked_new(units, name).unwrap()
    }

    /// The constituents from which this unit was built, as they were given.
    pub fn get_units(&self) -> (units: &Vec<(&'u Unit<'u>, i32)>)
        ensures
            units@ == self.units(),
    {
        &self.units
    }
}

impl<'u> Unit<'u> {
    /// The dimension of this unit.
    pub open spec fn dimension(&self) -> Dimension {
        match self {
            Unit::Base(unit) => unit.dimension,
            Unit::Compound(unit) => unit.dimension(),
        }
    }

    /// The name of this unit.
    pub open spec fn name(&self) -> Seq<char> {
        match self {
            Unit::Base(unit) => unit.name@,
            Unit::Compound(unit) => unit.name(),
        }
    }

    /// The dimension of this unit. That of a compound unit is the one that
    /// its constituents combine to.
    pub fn get_dimension(&self) -> (dimension: Dimension)
        ensures
            dimension == self.dimension(),
            self matches Unit::Compound(unit) ==> dimension@ == combined_dimension(unit.units()),
    {
        match self {
            Unit::Base(unit) => unit.dimension,
            Unit::Compound(unit) => {
                proof {
                    use_type_invariant(unit);
                }
                unit.dimension
            },
        }
    }

    /// The name of this unit.
    pub fn get_name(&self) -> (name: &String)
        ensures
            name@ == self.name(),
    {
        match self {
            Unit::Base(unit) => &unit.name,
            Unit::Compound(unit) => &unit.name,
        }
    }
}

} // verus!
