//! The error taxonomy of the two conversion directions.
//!
//! Each error names exactly which unsupported or invalid value caused it,
//! and for floating-point values carries the offending value (as its
//! IEEE-754 bit pattern) for diagnostics.
use vstd::prelude::*;

verus! {

/// Failure of a protocol-to-document conversion.
#[derive(Clone, Debug, PartialEq)]
pub enum ToJsonError {
    /// A 32-bit float was not finite; carries the bits of the value's
    /// exact 64-bit widening.
    InvalidFloat(u64),
    /// A 64-bit float was not finite; carries the value's bits.
    InvalidDouble(u64),
    /// A decimal value: the document model defines no analogue for it.
    Unimplemented,
}

impl ToJsonError {
    /// A human-readable description of the failure.
    pub fn message(&self) -> (r: String)
        ensures
            (self is InvalidFloat || self is InvalidDouble) ==> r@ == "Invalid float"@,
            self is Unimplemented ==> r@ == "Conversion not implemented"@,
    {
        match self {
            ToJsonError::InvalidFloat(_) => "Invalid float".to_owned(),
            ToJsonError::InvalidDouble(_) => "Invalid float".to_owned(),
            ToJsonError::Unimplemented => "Conversion not implemented".to_owned(),
        }
    }
}

/// Failure of a document-to-protocol conversion.
#[derive(Clone, Debug, PartialEq)]
pub enum ToAmqpError {
    /// A document number matched none of the three representable
    /// numeric forms (64-bit float, signed 64-bit, unsigned 64-bit).
    NumberError,
}

impl ToAmqpError {
    /// A human-readable description of the failure.
    pub fn message(&self) -> (r: String)
        ensures
            r@ == "Error converting number to an AMQPValue"@,
    {
        match self {
            ToAmqpError::NumberError => "Error converting number to an AMQPValue".to_owned(),
        }
    }
}

} // verus!
