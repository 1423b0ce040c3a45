//! Floating-point numbers, which the library hands on and never computes with.

#[allow(unused_imports)]
use vstd::arithmetic::power2::pow2;
use vstd::prelude::*;

use crate::json::{Datum, DatumView};

verus! {

/// A floating-point number that is still to be read: the first of the texts that reads as one.
#[derive(Debug)]
pub struct Amount {
    pub texts: Vec<String>,
}

impl View for Amount {
    type V = Seq<Seq<char>>;

    open spec fn view(&self) -> Seq<Seq<char>> {
        Seq::new(self.texts@.len(), |i: int| self.texts@[i]@)
    }
}

/// A floating-point number: its 64 bits, and its JSON text where it is finite.
#[derive(Debug)]
pub struct Real {
    pub bits: u64,
    pub text: String,
}

/// Whether the floating-point number with these bits is neither infinite nor no number: its
/// exponent is not the highest one.
pub open spec fn is_finite(bits: u64) -> bool {
    (bits as int / 0x10_0000_0000_0000) % 0x800 != 0x7ff
}

/// A floating-point number as a JSON value: JSON has no infinite numbers.
pub open spec fn real_datum(bits: u64, text: Seq<char>) -> DatumView {
    if is_finite(bits) {
        DatumView::Decimal(text)
    } else {
        DatumView::Null
    }
}

impl Real {
    /// Whether the number is finite.
    pub fn finite(&self) -> (finite: bool)
        ensures
            finite == is_finite(self.bits),
    {
        (self.bits / 0x10_0000_0000_0000) % 0x800 != 0x7ff
    }

    /// The number as a JSON value.
    pub fn to_datum(&self) -> (datum: Datum)
        ensures
            datum@ == real_datum(self.bits, self.text@),
    {
        if self.finite() {
            Datum::Decimal(self.text.clone())
        } else {
            Datum::Null
        }
    }
}

/// The size of the finite floating-point number whose bits, but for the sign, are `bits`, in units
/// of the smallest positive one: its fraction, and where its exponent is not the lowest one a
/// leading bit before the fraction, scaled by the exponent.
#[verifier::opaque]
pub open spec fn magnitude(bits: int) -> int {
    let exponent = bits / 0x10_0000_0000_0000;
    let fraction = bits % 0x10_0000_0000_0000;
    if exponent == 0 {
        fraction
    } else {
        (0x10_0000_0000_0000 + fraction) * pow2((exponent - 1) as nat)
    }
}

/// The finite floating-point number with these bits, in units of the smallest positive one.
pub open spec fn real_value(bits: u64) -> int {
    if bits < 0x8000_0000_0000_0000 {
        magnitude(bits as int)
    } else {
        -magnitude(bits - 0x8000_0000_0000_0000)
    }
}

/// The place of a floating-point number among the others: the number of floating-point numbers
/// between it and zero, with its sign. A number that is not finite stands with zero.
pub open spec fn real_rank(bits: u64) -> int {
    if !is_finite(bits) {
        0
    } else if bits < 0x8000_0000_0000_0000 {
        bits as int
    } else {
        0x8000_0000_0000_0000 - bits
    }
}

impl Real {
    /// The place of the number among the others.
    pub fn rank(&self) -> (rank: i64)
        ensures
            rank == real_rank(self.bits),
    {
        if !self.finite() {
            0
        } else if self.bits < 0x8000_0000_0000_0000 {
            self.bits as i64
        } else {
            -((self.bits - 0x8000_0000_0000_0000) as i64)
        }
    }
}

} // verus!
