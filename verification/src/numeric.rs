//! A number that is either signed or unsigned, as handed across the
//! diagnostics boundary.

use vstd::prelude::*;

verus! {

/// A signed or unsigned 32-bit number.
#[derive(Clone, Copy, Debug, PartialEq, Eq, Structural)]
pub enum NumericType {
    /// A signed value.
    Int(i32),
    /// An unsigned value.
    Uint(u32),
}

/// Conversion of a plain machine integer into [`NumericType`].
pub trait IntoNumericType {
    /// The variant the conversion produces.
    spec fn numeric_spec(self) -> NumericType;

    /// Performs the conversion.
    fn into_numeric_type(self) -> (r: NumericType)
        ensures
            r == self.numeric_spec(),
    ;
}

impl IntoNumericType for i32 {
    open spec fn numeric_spec(self) -> NumericType {
        NumericType::Int(self)
    }

    fn into_numeric_type(self) -> NumericType {
        NumericType::Int(self)
    }
}

impl IntoNumericType for u32 {
    open spec fn numeric_spec(self) -> NumericType {
        NumericType::Uint(self)
    }

    fn into_numeric_type(self) -> NumericType {
        NumericType::Uint(self)
    }
}

impl NumericType {
    /// Wraps a machine integer in the matching variant.
    pub fn new<T: IntoNumericType>(value: T) -> (r: Self)
        ensures
            r == value.numeric_spec(),
    {
        value.into_numeric_type()
    }
}

impl Default for NumericType {
    /// The default numeric value: signed zero.
    fn default() -> (r: Self)
        ensures
            r == NumericType::Int(0i32),
    {
        NumericType::Int(0)
    }
}

} // verus!
