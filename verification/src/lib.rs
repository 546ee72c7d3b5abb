//! Dimensional analysis for physical units: dimension vectors with their
//! arithmetic, and units composed from other units raised to integer powers.
//!
//! A [`Dimension`] stores one `i32` exponent for each base quantity; its view
//! is the same vector over unbounded integers, [`Exponents`], and every
//! contract is stated over that view. A [`Unit`] is either a [`BaseUnit`],
//! whose dimension and name are given, or a [`CompoundUnit`], whose dimension
//! is the sum of the dimensions of its constituents, each scaled by its
//! exponent, and whose name is either given or generated from the names and
//! exponents of the constituents. The module [`composition`] defines both
//! results and proves the laws that they obey.
//!
//! Units carry no conversion factor: a factor is a floating-point number, and
//! this library computes with integers and text only.

pub mod composition;
pub mod decimal;
pub mod dimension;
pub mod name;
pub mod unit;

pub use dimension::{Dimension, Exponents};
pub use unit::{BaseUnit, CompoundUnit, Unit};
