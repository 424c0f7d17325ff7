//! The unit tag of masses and the scaling constants that go with it.

use vstd::prelude::*;
use vstd::string::StringExecFns;
use crate::vector::Vector;

verus! {

/// The unit in which masses are meant. It labels the numbers; it rescales
/// nothing.
#[derive(Debug, Clone, Copy, PartialEq, Eq, Structural)]
pub enum WeightUnit {
    Kilograms,
    /// Metric tonnes.
    Tonnes,
    SolarMasses,
}

/// The ASCII lower-case form of one character: `'A'..='Z'` move to
/// `'a'..='z'`, every other character stays.
pub open spec fn ascii_lower(c: char) -> char {
    if 'A' <= c && c <= 'Z' {
        ((c as u8) + 32) as char
    } else {
        c
    }
}

/// A text with every character in its ASCII lower-case form.
pub open spec fn ascii_lowered(s: Seq<char>) -> Seq<char> {
    Seq::new(s.len(), |i: int| ascii_lower(s[i]))
}

/// `str::to_ascii_lowercase`: a copy of the text in which the ASCII letters
/// `A` to `Z` are replaced by `a` to `z` and nothing else changes.
#[verifier::external_body]
fn to_ascii_lowercase(s: &str) -> (r: String)
    ensures
        r@ == ascii_lowered(s@),
{
    s.to_ascii_lowercase()
}

impl WeightUnit {
    /// The name under which the unit is displayed.
    pub open spec fn label(self) -> Seq<char> {
        match self {
            WeightUnit::Kilograms => "Kilograms"@,
            WeightUnit::Tonnes => "Tonnes"@,
            WeightUnit::SolarMasses => "SolarMasses"@,
        }
    }

    /// The lower-case word by which the unit is recognised.
    pub open spec fn keyword(self) -> Seq<char> {
        match self {
            WeightUnit::Kilograms => "kilograms"@,
            WeightUnit::Tonnes => "tonnes"@,
            WeightUnit::SolarMasses => "solar masses"@,
        }
    }

    /// The display name of the unit.
    pub fn name(&self) -> (r: String)
        ensures
            r@ == self.label(),
    {
        match self {
            WeightUnit::Kilograms => String::from_str("Kilograms"),
            WeightUnit::Tonnes => String::from_str("Tonnes"),
            WeightUnit::SolarMasses => String::from_str("SolarMasses"),
        }
    }

    /// Recognises a unit by its keyword, whatever the case of its ASCII
    /// letters. Any other text is refused with a message that quotes it.
    pub fn from_str(s: &str) -> (r: Result<WeightUnit, String>)
        ensures
            match r {
                Ok(unit) => ascii_lowered(s@) == unit.keyword(),
                Err(message) => {
                    &&& forall|unit: WeightUnit| ascii_lowered(s@) != unit.keyword()
                    &&& message@ == "Unknown weight unit: "@ + s@
                },
            },
    {
        let lowered = to_ascii_lowercase(s);
        if lowered == String::from_str("kilograms") {
            Ok(WeightUnit::Kilograms)
        } else if lowered == String::from_str("solar masses") {
            Ok(WeightUnit::SolarMasses)
        } else if lowered == String::from_str("tonnes") {
            Ok(WeightUnit::Tonnes)
        } else {
            Err(String::from_str("Unknown weight unit: ").concat(s))
        }
    }
}

impl Default for WeightUnit {
    fn default() -> (r: WeightUnit)
        ensures
            r == WeightUnit::Kilograms,
    {
        WeightUnit::Kilograms
    }
}

/// No two units share a keyword, so a text names at most one unit.
pub proof fn keywords_are_distinct(a: WeightUnit, b: WeightUnit)
    requires
        a.keyword() == b.keyword(),
    ensures
        a == b,
{
    reveal_strlit("kilograms");
    reveal_strlit("tonnes");
    reveal_strlit("solar masses");
    assert("kilograms"@.len() == 9);
    assert("tonnes"@.len() == 6);
    assert("solar masses"@.len() == 12);
}

/// The number one.
pub open spec fn unit<T: Vector>() -> T::Scalar {
    T::decimal(1, 0)
}

/// The gravitational constant in SI units, 6.674e-11 m³ kg⁻¹ s⁻².
pub open spec fn newtonian<T: Vector>() -> T::Scalar {
    T::decimal(6674, -14i32)
}

/// The softening length of the force pass, 0.01 m. Its square is added to
/// every squared distance, so that no pull is divided by zero.
pub open spec fn softening_length<T: Vector>() -> T::Scalar {
    T::decimal(1, -2i32)
}

/// The gravitational constant in SI units, the default of a configuration.
pub fn gravitational_constant<T: Vector>() -> (r: T::Scalar)
    ensures
        r == newtonian::<T>(),
{
    T::from_decimal(6674, -14)
}

/// The softening length of the force pass.
pub fn softening<T: Vector>() -> (r: T::Scalar)
    ensures
        r == softening_length::<T>(),
{
    T::from_decimal(1, -2)
}

/// The constants that relate raw numbers to physical quantities.
#[derive(Clone, Copy, Debug, PartialEq)]
pub struct UnitParameters<S> {
    /// The unit in which masses are meant.
    pub weight: WeightUnit,
    /// How many meters one pixel of a display stands for.
    pub meters_per_pixel: S,
    /// The gravitational constant used by the force pass.
    pub gravity: S,
}

impl<S: Copy> UnitParameters<S> {
    /// Kilograms, one meter per pixel, and the Newtonian constant.
    pub open spec fn standard<T: Vector<Scalar = S>>() -> UnitParameters<S> {
        UnitParameters {
            weight: WeightUnit::Kilograms,
            meters_per_pixel: unit::<T>(),
            gravity: newtonian::<T>(),
        }
    }

    /// Where a position lies on a display, in pixels from the origin: the
    /// position over the number of meters per pixel. Centring and zoom are
    /// left to the display.
    pub fn to_pixels<T: Vector<Scalar = S>>(&self, position: T) -> (r: T)
        ensures
            r == position.divided(self.meters_per_pixel),
    {
        position.div(self.meters_per_pixel)
    }

    /// The parameters of a simulation that was given none.
    pub fn default<T: Vector<Scalar = S>>() -> (r: UnitParameters<S>)
        ensures
            r == Self::standard::<T>(),
    {
        UnitParameters {
            weight: WeightUnit::Kilograms,
            meters_per_pixel: T::from_decimal(1, 0),
            gravity: gravitational_constant::<T>(),
        }
    }
}

} // verus!
