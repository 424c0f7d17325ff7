//! The numeric capabilities the integrator is written against.
//!
//! The integrator is the same in every dimension and for every number type,
//! so it is written against [`Vector`] and never names a concrete one. No
//! type in this crate implements the trait, and an implementation is not
//! verified here. Each executable method is tied to a ghost method of the
//! trait, which gives its result a name and claims nothing else of it.
//! Everything proved of the integrator is a statement over those names: it
//! holds of an implementation whose methods are functions of their arguments,
//! as those of IEEE-754 arithmetic are. What the names mean as numbers, no
//! proof here says.
//!
//! An implementation outside Verus has to define the ghost methods too; their
//! bodies never run.

use vstd::prelude::*;

verus! {

/// A text, as the sequence of its characters.
pub type Text = Seq<char>;

/// A displacement in space of some fixed dimension, together with the real
/// numbers that measure it.
pub trait Vector: Copy + Sized {
    /// The real numbers: masses, time steps, constants.
    type Scalar: Copy;

    /// The zero vector.
    spec fn origin() -> Self;

    /// Componentwise sum.
    spec fn sum(self, rhs: Self) -> Self;

    /// Componentwise difference, `self - rhs`.
    spec fn difference(self, rhs: Self) -> Self;

    /// Every component multiplied by `k`.
    spec fn scaled(self, k: Self::Scalar) -> Self;

    /// Every component divided by `k`.
    spec fn divided(self, k: Self::Scalar) -> Self;

    /// `|self - other|² + softening²`.
    spec fn softened_distance_squared(self, other: Self, softening: Self::Scalar) -> Self::Scalar;

    /// The vector whose first two components are `x` and `y`; any further
    /// component is zero.
    spec fn planar(x: Self::Scalar, y: Self::Scalar) -> Self;

    /// The number `mantissa · 10^exponent`, rounded to the nearest number that
    /// the type has.
    spec fn decimal(mantissa: i64, exponent: i32) -> Self::Scalar;

    /// Whether a number is neither infinite nor NaN.
    spec fn finite(k: Self::Scalar) -> bool;

    /// Whether a number equals zero.
    spec fn vanishes(k: Self::Scalar) -> bool;

    /// Whether a number is strictly greater than zero.
    spec fn positive(k: Self::Scalar) -> bool;

    /// The number that a text denotes, or why it denotes none.
    spec fn parsed(text: Text) -> Result<Self::Scalar, Text>;

    fn zero() -> (r: Self)
        ensures
            r == Self::origin(),
    ;

    fn add(self, rhs: Self) -> (r: Self)
        ensures
            r == self.sum(rhs),
    ;

    fn sub(self, rhs: Self) -> (r: Self)
        ensures
            r == self.difference(rhs),
    ;

    fn scale(self, k: Self::Scalar) -> (r: Self)
        ensures
            r == self.scaled(k),
    ;

    fn div(self, k: Self::Scalar) -> (r: Self)
        ensures
            r == self.divided(k),
    ;

    /// The squared Euclidean distance to `other`, plus the square of
    /// `softening`. No square root is taken. With a positive softening the
    /// result is positive even where the two vectors coincide.
    fn distance_squared(&self, other: &Self, softening: Self::Scalar) -> (r: Self::Scalar)
        ensures
            r == self.softened_distance_squared(*other, softening),
    ;

    /// The vector whose first two components are `x` and `y`; any further
    /// component is zero.
    fn in_plane(x: Self::Scalar, y: Self::Scalar) -> (r: Self)
        ensures
            r == Self::planar(x, y),
    ;

    /// The number `mantissa · 10^exponent`, rounded to the nearest number that
    /// the type has. This is how the library writes its constants.
    fn from_decimal(mantissa: i64, exponent: i32) -> (r: Self::Scalar)
        ensures
            r == Self::decimal(mantissa, exponent),
    ;

    fn is_finite(k: Self::Scalar) -> (r: bool)
        ensures
            r == Self::finite(k),
    ;

    fn is_zero(k: Self::Scalar) -> (r: bool)
        ensures
            r == Self::vanishes(k),
    ;

    fn is_positive(k: Self::Scalar) -> (r: bool)
        ensures
            r == Self::positive(k),
    ;

    /// Reads a number from its decimal text.
    fn parse(text: &str) -> (r: Result<Self::Scalar, String>)
        ensures
            match r {
                Ok(value) => Self::parsed(text@) == Ok::<Self::Scalar, Text>(value),
                Err(reason) => Self::parsed(text@) == Err::<Self::Scalar, Text>(reason@),
            },
    ;

    /// Adds `rhs` to the vector in place.
    fn add_assign(&mut self, rhs: Self)
        ensures
            *final(self) == old(self).sum(rhs),
    {
        *self = self.add(rhs);
    }

    /// Multiplies the vector by `k` in place.
    fn scale_assign(&mut self, k: Self::Scalar)
        ensures
            *final(self) == old(self).scaled(k),
    {
        *self = self.scale(k);
    }
}

} // verus!
