//! The two value models.
//!
//! [`AmqpValue`] is the protocol's tagged union (the payload of field
//! tables and field arrays); [`JsonValue`] is the document model. Both
//! carry 32-bit floats as the bits of their exact 64-bit widening and
//! 64-bit floats as their own bits, so that every payload is a plain
//! value. Each type has a mathematical view ([`AmqpV`], [`JsonV`]) over
//! sequences, which the conversion contracts are stated on.
use vstd::prelude::*;

use crate::number::JsonNumber;

verus! {

/// A protocol decimal: a scale and a raw value. The document model
/// defines no analogue for it, so it never converts.
#[derive(Clone, Copy, Debug, PartialEq, Eq, Structural)]
pub struct DecimalValue {
    /// The number of decimal digits to the right of the point.
    pub scale: u8,
    /// The unscaled value.
    pub value: u32,
}

/// A protocol value: the tagged union carried by the protocol's field
/// tables and field arrays.
#[derive(Debug, PartialEq)]
pub enum AmqpValue {
    /// A boolean.
    Boolean(bool),
    /// A signed 8-bit integer.
    ShortShortInt(i8),
    /// An unsigned 8-bit integer.
    ShortShortUInt(u8),
    /// A signed 16-bit integer.
    ShortInt(i16),
    /// An unsigned 16-bit integer.
    ShortUInt(u16),
    /// A signed 32-bit integer.
    LongInt(i32),
    /// An unsigned 32-bit integer.
    LongUInt(u32),
    /// A signed 64-bit integer.
    LongLongInt(i64),
    /// A 32-bit float, carried as the IEEE-754 bits of its exact 64-bit
    /// widening (the widening is lossless and preserves finiteness).
    Float(u64),
    /// A 64-bit float, carried as its IEEE-754 bits.
    Double(u64),
    /// A decimal value.
    DecimalValue(DecimalValue),
    /// A short string.
    ShortString(String),
    /// A long string.
    LongString(String),
    /// An ordered sequence of protocol values.
    FieldArray(Vec<AmqpValue>),
    /// An unsigned 64-bit timestamp.
    Timestamp(u64),
    /// An ordered mapping from short strings to protocol values.
    FieldTable(Vec<(String, AmqpValue)>),
    /// A raw byte sequence.
    ByteArray(Vec<u8>),
    /// The absence of a value.
    Void,
}

/// A document value: the JSON data model.
#[derive(Debug, PartialEq)]
pub enum JsonValue {
    /// The null value.
    Null,
    /// A boolean.
    Bool(bool),
    /// A number.
    Number(JsonNumber),
    /// A string.
    String(String),
    /// An ordered sequence of document values.
    Array(Vec<JsonValue>),
    /// An ordered mapping from strings to document values.
    Object(Vec<(String, JsonValue)>),
}

/// The mathematical view of a protocol value.
pub enum AmqpV {
    /// A boolean.
    Boolean(bool),
    /// A signed 8-bit integer.
    ShortShortInt(i8),
    /// An unsigned 8-bit integer.
    ShortShortUInt(u8),
    /// A signed 16-bit integer.
    ShortInt(i16),
    /// An unsigned 16-bit integer.
    ShortUInt(u16),
    /// A signed 32-bit integer.
    LongInt(i32),
    /// An unsigned 32-bit integer.
    LongUInt(u32),
    /// A signed 64-bit integer.
    LongLongInt(i64),
    /// A 32-bit float, as the bits of its 64-bit widening.
    Float(u64),
    /// A 64-bit float, as its bits.
    Double(u64),
    /// A decimal value.
    DecimalValue(DecimalValue),
    /// A short string.
    ShortString(Seq<char>),
    /// A long string.
    LongString(Seq<char>),
    /// An ordered sequence of protocol values.
    FieldArray(Seq<AmqpV>),
    /// An unsigned 64-bit timestamp.
    Timestamp(u64),
    /// An ordered mapping from short strings to protocol values.
    FieldTable(Seq<(Seq<char>, AmqpV)>),
    /// A raw byte sequence.
    ByteArray(Seq<u8>),
    /// The absence of a value.
    Void,
}

/// The mathematical view of a document value.
pub enum JsonV {
    /// The null value.
    Null,
    /// A boolean.
    Bool(bool),
    /// A number.
    Number(JsonNumber),
    /// A string.
    String(Seq<char>),
    /// An ordered sequence of document values.
    Array(Seq<JsonV>),
    /// An ordered mapping from strings to document values.
    Object(Seq<(Seq<char>, JsonV)>),
}

/// The view of a sequence of protocol values, element by element.
pub open spec fn amqp_seq_view(s: Seq<AmqpValue>) -> Seq<AmqpV>
    decreases s,
{
    if s.len() == 0 {
        Seq::empty()
    } else {
        amqp_seq_view(s.subrange(0, s.len() - 1)).push(s[s.len() - 1]@)
    }
}

/// The view of a sequence of keyed protocol values, element by element.
pub open spec fn amqp_table_view(s: Seq<(String, AmqpValue)>) -> Seq<(Seq<char>, AmqpV)>
    decreases s,
{
    if s.len() == 0 {
        Seq::empty()
    } else {
        amqp_table_view(s.subrange(0, s.len() - 1)).push((s[s.len() - 1].0@, s[s.len() - 1].1@))
    }
}

impl View for AmqpValue {
    type V = AmqpV;

    open spec fn view(&self) -> AmqpV
        decreases self,
    {
        match self {
            AmqpValue::Boolean(b) => AmqpV::Boolean(*b),
            AmqpValue::ShortShortInt(n) => AmqpV::ShortShortInt(*n),
            AmqpValue::ShortShortUInt(n) => AmqpV::ShortShortUInt(*n),
            AmqpValue::ShortInt(n) => AmqpV::ShortInt(*n),
            AmqpValue::ShortUInt(n) => AmqpV::ShortUInt(*n),
            AmqpValue::LongInt(n) => AmqpV::LongInt(*n),
            AmqpValue::LongUInt(n) => AmqpV::LongUInt(*n),
            AmqpValue::LongLongInt(n) => AmqpV::LongLongInt(*n),
            AmqpValue::Float(b) => AmqpV::Float(*b),
            AmqpValue::Double(b) => AmqpV::Double(*b),
            AmqpValue::DecimalValue(d) => AmqpV::DecimalValue(*d),
            AmqpValue::ShortString(s) => AmqpV::ShortString(s@),
            AmqpValue::LongString(s) => AmqpV::LongString(s@),
            AmqpValue::FieldArray(vs) => AmqpV::FieldArray(amqp_seq_view(vs@)),
            AmqpValue::Timestamp(n) => AmqpV::Timestamp(*n),
            AmqpValue::FieldTable(entries) => AmqpV::FieldTable(amqp_table_view(entries@)),
            AmqpValue::ByteArray(bytes) => AmqpV::ByteArray(bytes@),
            AmqpValue::Void => AmqpV::Void,
        }
    }
}

/// The view of a sequence of document values, element by element.
pub open spec fn json_seq_view(s: Seq<JsonValue>) -> Seq<JsonV>
    decreases s,
{
    if s.len() == 0 {
        Seq::empty()
    } else {
        json_seq_view(s.subrange(0, s.len() - 1)).push(s[s.len() - 1]@)
    }
}

/// The view of a sequence of keyed document values, element by element.
pub open spec fn json_object_view(s: Seq<(String, JsonValue)>) -> Seq<(Seq<char>, JsonV)>
    decreases s,
{
    if s.len() == 0 {
        Seq::empty()
    } else {
        json_object_view(s.subrange(0, s.len() - 1)).push((s[s.len() - 1].0@, s[s.len() - 1].1@))
    }
}

impl View for JsonValue {
    type V = JsonV;

    open spec fn view(&self) -> JsonV
        decreases self,
    {
        match self {
            JsonValue::Null => JsonV::Null,
            JsonValue::Bool(b) => JsonV::Bool(*b),
            JsonValue::Number(n) => JsonV::Number(*n),
            JsonValue::String(s) => JsonV::String(s@),
            JsonValue::Array(vs) => JsonV::Array(json_seq_view(vs@)),
            JsonValue::Object(entries) => JsonV::Object(json_object_view(entries@)),
        }
    }
}

/// The view of a sequence of protocol values has the length of the
/// sequence and views each element in place.
pub proof fn amqp_seq_view_props(s: Seq<AmqpValue>)
    ensures
        amqp_seq_view(s).len() == s.len(),
        forall|i: int| 0 <= i < s.len() ==> amqp_seq_view(s)[i] == #[trigger] s[i]@,
    decreases s.len(),
{
    if s.len() > 0 {
        let p = s.subrange(0, s.len() - 1);
        amqp_seq_view_props(p);
        assert(amqp_seq_view(s) == amqp_seq_view(p).push(s[s.len() - 1]@));
        assert forall|i: int| 0 <= i < s.len() implies amqp_seq_view(s)[i] == #[trigger] s[i]@ by {
            if i < s.len() - 1 {
                assert(amqp_seq_view(s)[i] == amqp_seq_view(p)[i]);
                assert(p[i] == s[i]);
            }
        }
    }
}

/// The view of a sequence of keyed protocol values has the length of
/// the sequence and views each entry in place.
pub proof fn amqp_table_view_props(s: Seq<(String, AmqpValue)>)
    ensures
        amqp_table_view(s).len() == s.len(),
        forall|i: int| 0 <= i < s.len() ==> amqp_table_view(s)[i] == (#[trigger] s[i].0@, s[i].1@),
    decreases s.len(),
{
    if s.len() > 0 {
        let p = s.subrange(0, s.len() - 1);
        amqp_table_view_props(p);
        assert(amqp_table_view(s) == amqp_table_view(p).push((s[s.len() - 1].0@, s[s.len() - 1].1@)));
        assert forall|i: int| 0 <= i < s.len() implies amqp_table_view(s)[i] == (
        #[trigger] s[i].0@,
        s[i].1@,
        ) by {
            if i < s.len() - 1 {
                assert(amqp_table_view(s)[i] == amqp_table_view(p)[i]);
                assert(p[i] == s[i]);
            }
        }
    }
}

/// The view of a sequence of document values has the length of the
/// sequence and views each element in place.
pub proof fn json_seq_view_props(s: Seq<JsonValue>)
    ensures
        json_seq_view(s).len() == s.len(),
        forall|i: int| 0 <= i < s.len() ==> json_seq_view(s)[i] == #[trigger] s[i]@,
    decreases s.len(),
{
    if s.len() > 0 {
        let p = s.subrange(0, s.len() - 1);
        json_seq_view_props(p);
        assert(json_seq_view(s) == json_seq_view(p).push(s[s.len() - 1]@));
        assert forall|i: int| 0 <= i < s.len() implies json_seq_view(s)[i] == #[trigger] s[i]@ by {
            if i < s.len() - 1 {
                assert(json_seq_view(s)[i] == json_seq_view(p)[i]);
                assert(p[i] == s[i]);
            }
        }
    }
}

/// The view of a sequence of keyed document values has the length of
/// the sequence and views each entry in place.
pub proof fn json_object_view_props(s: Seq<(String, JsonValue)>)
    ensures
        json_object_view(s).len() == s.len(),
        forall|i: int| 0 <= i < s.len() ==> json_object_view(s)[i] == (#[trigger] s[i].0@, s[i].1@),
    decreases s.len(),
{
    if s.len() > 0 {
        let p = s.subrange(0, s.len() - 1);
        json_object_view_props(p);
        assert(json_object_view(s) == json_object_view(p).push((s[s.len() - 1].0@, s[s.len() - 1].1@)));
        assert forall|i: int| 0 <= i < s.len() implies json_object_view(s)[i] == (
        #[trigger] s[i].0@,
        s[i].1@,
        ) by {
            if i < s.len() - 1 {
                assert(json_object_view(s)[i] == json_object_view(p)[i]);
                assert(p[i] == s[i]);
            }
        }
    }
}

/// A well-formed document value never holds a non-finite float view in
/// any of its numbers, at any depth.
pub open spec fn json_wf(j: JsonV) -> bool
    decreases j,
{
    match j {
        JsonV::Null => true,
        JsonV::Bool(_) => true,
        JsonV::Number(n) => n.wf(),
        JsonV::String(_) => true,
        JsonV::Array(vs) => forall|i: int| 0 <= i < vs.len() ==> json_wf(#[trigger] vs[i]),
        JsonV::Object(entries) => forall|i: int|
            0 <= i < entries.len() ==> json_wf(#[trigger] entries[i].1),
    }
}

} // verus!
