//! Conversions between the value model of an AMQP-style messaging
//! protocol (field tables, field arrays and their scalar payloads) and
//! the JSON document value model.
//!
//! The two directions are exposed through the [`ToJson`] and [`ToAmqp`]
//! traits, implemented for [`values::AmqpValue`] and [`values::JsonValue`].
//! Every mapping is total over the variants that map; the variants that
//! cannot map (decimals, non-finite floating-point values, numbers with
//! no usable 64-bit view) fail with a typed error.
use vstd::prelude::*;

pub mod errors;
pub mod laws;
pub mod number;
pub mod to_amqp;
pub mod to_json;
pub mod values;

verus! {

/// Conversion into the document (JSON) value model.
pub trait ToJson {
    /// The document type produced on success.
    type Target;

    /// The error type produced when a value has no document form.
    type Error;

    /// Convert `self` to its document form, or report why it has none.
    fn to_json_value(&self) -> Result<Self::Target, Self::Error>;
}

/// Conversion into the protocol (AMQP field-table) value model.
pub trait ToAmqp {
    /// The protocol type produced on success.
    type Target;

    /// The error type produced when a value has no protocol form.
    type Error;

    /// Convert `self` to its protocol form, or report why it has none.
    fn to_amqp_value(&self) -> Result<Self::Target, Self::Error>;
}

} // verus!
