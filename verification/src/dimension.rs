//! Dimension vectors: the exponents of the base physical quantities, with
//! component-wise addition and multiplication by an integer.

use vstd::arithmetic::mul::lemma_mul_is_distributive_add;
use vstd::prelude::*;
use vstd::std_specs::ops::{AddSpecImpl, MulSpecImpl};

verus! {

/// The mathematical value of a dimension: one unbounded integer exponent for
/// each base quantity.
pub struct Exponents {
    pub length: int,
    pub time: int,
    pub mass: int,
    pub current: int,
    pub reserved: int,
}

impl Exponents {
    /// The vector with every exponent zero.
    pub open spec fn zero() -> Exponents {
        Exponents { length: 0, time: 0, mass: 0, current: 0, reserved: 0 }
    }

    /// Component-wise sum.
    pub open spec fn plus(self, other: Exponents) -> Exponents {
        Exponents {
            length: self.length + other.length,
            time: self.time + other.time,
            mass: self.mass + other.mass,
            current: self.current + other.current,
            reserved: self.reserved + other.reserved,
        }
    }

    /// Every component multiplied by `k`.
    pub open spec fn scaled(self, k: int) -> Exponents {
        Exponents {
            length: self.length * k,
            time: self.time * k,
            mass: self.mass * k,
            current: self.current * k,
            reserved: self.reserved * k,
        }
    }

    /// Every component with its sign flipped.
    pub open spec fn negated(self) -> Exponents {
        Exponents {
            length: -self.length,
            time: -self.time,
            mass: -self.mass,
            current: -self.current,
            reserved: -self.reserved,
        }
    }

    /// Whether every component can be stored in an `i32`.
    pub open spec fn fits(self) -> bool {
        &&& i32::MIN <= self.length <= i32::MAX
        &&& i32::MIN <= self.time <= i32::MAX
        &&& i32::MIN <= self.mass <= i32::MAX
        &&& i32::MIN <= self.current <= i32::MAX
        &&& i32::MIN <= self.reserved <= i32::MAX
    }

    /// The stored form of this vector; meaningful where `self.fits()`.
    pub open spec fn stored(self) -> Dimension
        recommends
            self.fits(),
    {
        Dimension(
            self.length as i32,
            self.time as i32,
            self.mass as i32,
            self.current as i32,
            self.reserved as i32,
        )
    }
}

/// The exponents of length, time, mass, electric current and one reserved
/// quantity, in this order.
#[derive(Clone, Copy, Debug, PartialEq, Eq, Structural)]
pub struct Dimension(pub i32, pub i32, pub i32, pub i32, pub i32);

impl View for Dimension {
    type V = Exponents;

    open spec fn view(&self) -> Exponents {
        Exponents {
            length: self.0 as int,
            time: self.1 as int,
            mass: self.2 as int,
            current: self.3 as int,
            reserved: self.4 as int,
        }
    }
}

impl Dimension {
    /// The dimension of a pure number: the additive identity.
    pub fn new() -> (zero: Dimension)
        ensures
            zero@ == Exponents::zero(),
    {
        Dimension(0, 0, 0, 0, 0)
    }
}

impl AddSpecImpl<Dimension> for Dimension {
    open spec fn obeys_add_spec() -> bool {
        true
    }

    open spec fn add_req(self, rhs: Dimension) -> bool {
        self@.plus(rhs@).fits()
    }

    open spec fn add_spec(self, rhs: Dimension) -> Dimension {
        self@.plus(rhs@).stored()
    }
}

impl core::ops::Add<Dimension> for Dimension {
    type Output = Dimension;

    /// Component-wise sum, where every component of the sum fits.
    fn add(self, rhs: Dimension) -> (sum: Dimension)
        ensures
            sum@ == self@.plus(rhs@),
    {
        Dimension(
            self.0 + rhs.0,
            self.1 + rhs.1,
            self.2 + rhs.2,
            self.3 + rhs.3,
            self.4 + rhs.4,
        )
    }
}

impl core::ops::AddAssign<Dimension> for Dimension {
    /// Adds `rhs` to `self` in place: `self` becomes what `self + rhs` is.
    fn add_assign(&mut self, rhs: Dimension)
        requires
            old(self)@.plus(rhs@).fits(),
        ensures
            final(self)@ == old(self)@.plus(rhs@),
    {
        self.0 += rhs.0;
        self.1 += rhs.1;
        self.2 += rhs.2;
        self.3 += rhs.3;
        self.4 += rhs.4;
    }
}

impl MulSpecImpl<i32> for Dimension {
    open spec fn obeys_mul_spec() -> bool {
        true
    }

    open spec fn mul_req(self, rhs: i32) -> bool {
        self@.scaled(rhs as int).fits()
    }

    open spec fn mul_spec(self, rhs: i32) -> Dimension {
        self@.scaled(rhs as int).stored()
    }
}

impl core::ops::Mul<i32> for Dimension {
    type Output = Dimension;

    /// Every component multiplied by `rhs`, where every product fits.
    fn mul(self, rhs: i32) -> (product: Dimension)
        ensures
            product@ == self@.scaled(rhs as int),
    {
        Dimension(self.0 * rhs, self.1 * rhs, self.2 * rhs, self.3 * rhs, self.4 * rhs)
    }
}

/// Two dimensions are equal exactly when all their exponents are equal, and
/// a dimension is the stored form of its own exponents.
pub proof fn lemma_equal_by_exponents(a: Dimension, b: Dimension)
    ensures
        a == b <==> a@ == b@,
        a@.fits(),
        a@.stored() == a,
{
}

/// Addition of dimension vectors is associative.
pub proof fn lemma_plus_associative(a: Exponents, b: Exponents, c: Exponents)
    ensures
        a.plus(b).plus(c) == a.plus(b.plus(c)),
{
}

/// The zero vector is the identity of addition.
pub proof fn lemma_plus_zero(a: Exponents)
    ensures
        a.plus(Exponents::zero()) == a,
        Exponents::zero().plus(a) == a,
{
}

/// Addition of dimension vectors is commutative.
pub proof fn lemma_plus_commutative(a: Exponents, b: Exponents)
    ensures
        a.plus(b) == b.plus(a),
{
}

/// Scaling by a sum of integers is the sum of the two scalings.
pub proof fn lemma_scaled_distributes(d: Exponents, k: int, m: int)
    ensures
        d.scaled(k + m) == d.scaled(k).plus(d.scaled(m)),
{
    lemma_mul_is_distributive_add(d.length, k, m);
    lemma_mul_is_distributive_add(d.time, k, m);
    lemma_mul_is_distributive_add(d.mass, k, m);
    lemma_mul_is_distributive_add(d.current, k, m);
    lemma_mul_is_distributive_add(d.reserved, k, m);
}

} // verus!
