use vstd::prelude::*;

verus! {

/// A single-precision IEEE 754 number, held as its bit pattern.
#[derive(Clone, Copy, Debug, PartialEq, Eq, Structural)]
pub struct Scalar {
    pub bits: u32,
}

/// The pattern is a NaN: all exponent bits set and a non-zero mantissa.
pub open spec fn is_nan_bits(b: u32) -> bool {
    b & 0x7f80_0000u32 == 0x7f80_0000u32 && b & 0x007f_ffffu32 != 0
}

/// The pattern is positive or negative zero.
pub open spec fn is_zero_bits(b: u32) -> bool {
    b & 0x7fff_ffffu32 == 0
}

/// IEEE 754 equality of two patterns: a NaN equals nothing, the two zeros
/// are equal, and any other pair is equal exactly when the patterns agree.
pub open spec fn float_eq(a: u32, b: u32) -> bool {
    !is_nan_bits(a) && !is_nan_bits(b) && (a == b || (is_zero_bits(a) && is_zero_bits(b)))
}

impl Scalar {
    pub fn from_bits(bits: u32) -> (r: Scalar)
        ensures
            r.bits == bits,
    {
        Scalar { bits }
    }

    pub fn to_bits(&self) -> (r: u32)
        ensures
            r == self.bits,
    {
        self.bits
    }

    /// Numeric equality, with no tolerance.
    pub open spec fn same_value(self, other: Scalar) -> bool {
        float_eq(self.bits, other.bits)
    }

    pub fn equals(&self, other: &Scalar) -> (r: bool)
        ensures
            r == self.same_value(*other),
    {
        let a = self.bits;
        let b = other.bits;
        let a_nan = a & 0x7f80_0000u32 == 0x7f80_0000u32 && a & 0x007f_ffffu32 != 0;
        let b_nan = b & 0x7f80_0000u32 == 0x7f80_0000u32 && b & 0x007f_ffffu32 != 0;
        let both_zero = a & 0x7fff_ffffu32 == 0 && b & 0x7fff_ffffu32 == 0;
        !a_nan && !b_nan && (a == b || both_zero)
    }
}

/// An RGBA color with eight bits per channel.
#[derive(Clone, Copy, Debug, PartialEq, Eq, Structural)]
pub struct Color {
    pub r: u8,
    pub g: u8,
    pub b: u8,
    pub a: u8,
}

impl Color {
    pub fn from_rgba(r: u8, g: u8, b: u8, a: u8) -> (c: Color)
        ensures
            c == (Color { r, g, b, a }),
    {
        Color { r, g, b, a }
    }
}

/// The value an editable field shows: a number or a color.
#[derive(Clone, Copy, Debug, PartialEq, Eq, Structural)]
pub enum FieldValue {
    Number(Scalar),
    Color(Color),
}

impl FieldValue {
    /// The field's natural equality: numeric equality for numbers, exact
    /// channel equality for colors; values of different kinds never agree.
    pub open spec fn same_value(self, other: FieldValue) -> bool {
        match (self, other) {
            (FieldValue::Number(x), FieldValue::Number(y)) => x.same_value(y),
            (FieldValue::Color(x), FieldValue::Color(y)) => x == y,
            _ => false,
        }
    }

    pub fn equals(&self, other: &FieldValue) -> (r: bool)
        ensures
            r == self.same_value(*other),
    {
        match (self, other) {
            (FieldValue::Number(x), FieldValue::Number(y)) => x.equals(y),
            (FieldValue::Color(x), FieldValue::Color(y)) => *x == *y,
            _ => false,
        }
    }
}

} // verus!
