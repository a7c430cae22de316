//! The document model's number type.
//!
//! A document number is opaque: it may carry a 64-bit float, a signed
//! 64-bit integer or an unsigned 64-bit integer, and a consumer only ever
//! sees the answers it gives to the three fixed-width numeric queries.
//! [`JsonNumber`] records exactly those answers, so the conversions can
//! be stated and checked over plain values.
use vstd::prelude::*;

verus! {

/// True when the 64-bit IEEE-754 pattern `b` encodes a finite value:
/// its exponent field is not all ones (an all-ones exponent encodes an
/// infinity or a NaN).
pub open spec fn double_bits_finite(b: u64) -> bool {
    (b >> 52) & 0x7ff != 0x7ff
}

/// The IEEE-754 bit pattern of the 64-bit float nearest to `n`.
pub uninterp spec fn double_bits_of_i64(n: i64) -> u64;

/// The IEEE-754 bit pattern of the 64-bit float nearest to `n`.
pub uninterp spec fn double_bits_of_u64(n: u64) -> u64;

/// Relies on `serde_json::Number::from` and `Number::as_f64`: the 64-bit
/// float view of a number built from a signed integer is always present,
/// is the float nearest to that integer (a value that depends on the
/// integer alone), and is finite, every 64-bit integer being well inside
/// the finite floating-point range.
#[verifier::external_body]
fn i64_double_view_bits(n: i64) -> (r: u64)
    ensures
        r == double_bits_of_i64(n),
        double_bits_finite(r),
{
    serde_json::Number::from(n).as_f64().unwrap().to_bits()
}

/// Relies on `serde_json::Number::from` and `Number::as_f64`: the 64-bit
/// float view of a number built from an unsigned integer is always
/// present, is the float nearest to that integer (a value that depends
/// on the integer alone), and is finite.
#[verifier::external_body]
fn u64_double_view_bits(n: u64) -> (r: u64)
    ensures
        r == double_bits_of_u64(n),
        double_bits_finite(r),
{
    serde_json::Number::from(n).as_f64().unwrap().to_bits()
}

/// A document number, recorded as the answers its carrier gives to the
/// three numeric queries, each `None` when the carrier exposes no such
/// view. The float view is carried as an IEEE-754 bit pattern.
#[derive(Clone, Debug, PartialEq)]
pub struct JsonNumber {
    /// The 64-bit float view, when available.
    pub double: Option<u64>,
    /// The signed 64-bit integer view, when available.
    pub long: Option<i64>,
    /// The unsigned 64-bit integer view, when available.
    pub ulong: Option<u64>,
}

impl JsonNumber {
    /// A well-formed number never exposes a non-finite float view: the
    /// document model cannot carry infinities or NaNs.
    pub open spec fn wf(self) -> bool {
        self.double matches Some(b) ==> double_bits_finite(b)
    }

    /// The views of a number that carries the signed integer `n`.
    pub open spec fn spec_from_i64(n: i64) -> JsonNumber {
        JsonNumber {
            double: Some(double_bits_of_i64(n)),
            long: Some(n),
            ulong: if n >= 0 {
                Some(n as u64)
            } else {
                None
            },
        }
    }

    /// The views of a number that carries the unsigned integer `n`.
    pub open spec fn spec_from_u64(n: u64) -> JsonNumber {
        JsonNumber {
            double: Some(double_bits_of_u64(n)),
            long: if n <= i64::MAX as u64 {
                Some(n as i64)
            } else {
                None
            },
            ulong: Some(n),
        }
    }

    /// The views of a number that carries the finite float `b` (as
    /// bits), or `None` when `b` is not finite: no document number
    /// carries a non-finite value. A float-carrying number exposes no
    /// integer view.
    pub open spec fn spec_from_double_bits(b: u64) -> Option<JsonNumber> {
        if double_bits_finite(b) {
            Some(JsonNumber { double: Some(b), long: None, ulong: None })
        } else {
            None
        }
    }

    /// Build the number that carries the signed integer `n`.
    pub fn from_i64(n: i64) -> (r: JsonNumber)
        ensures
            r == JsonNumber::spec_from_i64(n),
            r.wf(),
    {
        let double: u64 = i64_double_view_bits(n);
        JsonNumber {
            double: Some(double),
            long: Some(n),
            ulong: if n >= 0 {
                Some(n as u64)
            } else {
                None
            },
        }
    }

    /// Build the number that carries the unsigned integer `n`.
    pub fn from_u64(n: u64) -> (r: JsonNumber)
        ensures
            r == JsonNumber::spec_from_u64(n),
            r.wf(),
    {
        let double: u64 = u64_double_view_bits(n);
        JsonNumber {
            double: Some(double),
            long: if n <= i64::MAX as u64 {
                Some(n as i64)
            } else {
                None
            },
            ulong: Some(n),
        }
    }

    /// Build the number that carries the finite float `b` (given as
    /// bits), or `None` when `b` is not finite.
    pub fn from_double_bits(b: u64) -> (r: Option<JsonNumber>)
        ensures
            r == JsonNumber::spec_from_double_bits(b),
            r matches Some(n) ==> n.wf(),
    {
        if (b >> 52) & 0x7ff != 0x7ff {
            Some(JsonNumber { double: Some(b), long: None, ulong: None })
        } else {
            None
        }
    }
}

} // verus!
