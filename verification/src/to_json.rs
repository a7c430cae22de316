//! The protocol-to-document conversion.
//!
//! [`spec_to_json`] is the mapping table: it says, for every protocol
//! value, which document value the conversion yields or which error it
//! fails with. The executable conversion is proved to return exactly
//! what the table says, and to return only well-formed document values.
use vstd::prelude::*;

use crate::ToJson;
use crate::errors::ToJsonError;
use crate::number::JsonNumber;
use crate::number::double_bits_finite;
use crate::values::AmqpV;
use crate::values::AmqpValue;
use crate::values::JsonV;
use crate::values::JsonValue;
use crate::values::amqp_seq_view;
use crate::values::amqp_seq_view_props;
use crate::values::amqp_table_view;
use crate::values::amqp_table_view_props;
use crate::values::json_seq_view;
use crate::values::json_object_view;
use crate::values::json_wf;

verus! {

/// The document form of a protocol value, or the error that the
/// conversion fails with:
/// booleans map to booleans, integers and timestamps to numbers carrying
/// the integer, finite floats to numbers carrying the float (a non-finite
/// float is an error naming its bits), decimals to an error, strings to
/// strings, byte sequences to arrays of byte-valued numbers, void to
/// null, and the composite variants recurse, failing as a whole on the
/// first failing child.
pub open spec fn spec_to_json(v: AmqpV) -> Result<JsonV, ToJsonError>
    decreases v,
{
    match v {
        AmqpV::Boolean(b) => Ok(JsonV::Bool(b)),
        AmqpV::ShortShortInt(n) => Ok(JsonV::Number(JsonNumber::spec_from_i64(n as i64))),
        AmqpV::ShortShortUInt(n) => Ok(JsonV::Number(JsonNumber::spec_from_u64(n as u64))),
        AmqpV::ShortInt(n) => Ok(JsonV::Number(JsonNumber::spec_from_i64(n as i64))),
        AmqpV::ShortUInt(n) => Ok(JsonV::Number(JsonNumber::spec_from_u64(n as u64))),
        AmqpV::LongInt(n) => Ok(JsonV::Number(JsonNumber::spec_from_i64(n as i64))),
        AmqpV::LongUInt(n) => Ok(JsonV::Number(JsonNumber::spec_from_u64(n as u64))),
        AmqpV::LongLongInt(n) => Ok(JsonV::Number(JsonNumber::spec_from_i64(n))),
        AmqpV::Float(b) => if double_bits_finite(b) {
            Ok(JsonV::Number(JsonNumber { double: Some(b), long: None, ulong: None }))
        } else {
            Err(ToJsonError::InvalidFloat(b))
        },
        AmqpV::Double(b) => if double_bits_finite(b) {
            Ok(JsonV::Number(JsonNumber { double: Some(b), long: None, ulong: None }))
        } else {
            Err(ToJsonError::InvalidDouble(b))
        },
        AmqpV::DecimalValue(_) => Err(ToJsonError::Unimplemented),
        AmqpV::ShortString(s) => Ok(JsonV::String(s)),
        AmqpV::LongString(s) => Ok(JsonV::String(s)),
        AmqpV::FieldArray(vs) => match spec_to_json_seq(vs) {
            Ok(js) => Ok(JsonV::Array(js)),
            Err(e) => Err(e),
        },
        AmqpV::Timestamp(n) => Ok(JsonV::Number(JsonNumber::spec_from_u64(n))),
        AmqpV::FieldTable(entries) => match spec_to_json_table(entries) {
            Ok(js) => Ok(JsonV::Object(js)),
            Err(e) => Err(e),
        },
        AmqpV::ByteArray(bytes) => Ok(JsonV::Array(spec_bytes_to_json(bytes))),
        AmqpV::Void => Ok(JsonV::Null),
    }
}

/// The document forms of a sequence of protocol values, in order, or
/// the error of its first failing element.
pub open spec fn spec_to_json_seq(s: Seq<AmqpV>) -> Result<Seq<JsonV>, ToJsonError>
    decreases s,
{
    if s.len() == 0 {
        Ok(Seq::empty())
    } else {
        match spec_to_json_seq(s.subrange(0, s.len() - 1)) {
            Err(e) => Err(e),
            Ok(js) => match spec_to_json(s[s.len() - 1]) {
                Err(e) => Err(e),
                Ok(j) => Ok(js.push(j)),
            },
        }
    }
}

/// The document forms of a sequence of keyed protocol values, keys
/// kept in place, or the error of its first failing entry.
pub open spec fn spec_to_json_table(s: Seq<(Seq<char>, AmqpV)>) -> Result<
    Seq<(Seq<char>, JsonV)>,
    ToJsonError,
>
    decreases s,
{
    if s.len() == 0 {
        Ok(Seq::empty())
    } else {
        match spec_to_json_table(s.subrange(0, s.len() - 1)) {
            Err(e) => Err(e),
            Ok(js) => match spec_to_json(s[s.len() - 1].1) {
                Err(e) => Err(e),
                Ok(j) => Ok(js.push((s[s.len() - 1].0, j))),
            },
        }
    }
}

/// The document form of a byte sequence: one number per byte.
pub open spec fn spec_bytes_to_json(bytes: Seq<u8>) -> Seq<JsonV> {
    Seq::new(bytes.len(), |i: int| JsonV::Number(JsonNumber::spec_from_u64(bytes[i] as u64)))
}

/// A sequence of protocol values whose prefix converts and whose next
/// element fails converts, as a whole, to that element's error.
pub(crate) proof fn to_json_seq_err(s: Seq<AmqpV>, i: int, e: ToJsonError)
    requires
        0 <= i < s.len(),
        spec_to_json_seq(s.subrange(0, i)) is Ok,
        spec_to_json(s[i]) == Err::<JsonV, ToJsonError>(e),
    ensures
        spec_to_json_seq(s) == Err::<Seq<JsonV>, ToJsonError>(e),
    decreases s.len(),
{
    let p = s.subrange(0, s.len() - 1);
    if i == s.len() - 1 {
        assert(p == s.subrange(0, i));
    } else {
        assert(p.subrange(0, i) =~= s.subrange(0, i));
        assert(p[i] == s[i]);
        to_json_seq_err(p, i, e);
    }
}

/// A sequence of keyed protocol values whose prefix converts and whose
/// next entry fails converts, as a whole, to that entry's error.
pub(crate) proof fn to_json_table_err(s: Seq<(Seq<char>, AmqpV)>, i: int, e: ToJsonError)
    requires
        0 <= i < s.len(),
        spec_to_json_table(s.subrange(0, i)) is Ok,
        spec_to_json(s[i].1) == Err::<JsonV, ToJsonError>(e),
    ensures
        spec_to_json_table(s) == Err::<Seq<(Seq<char>, JsonV)>, ToJsonError>(e),
    decreases s.len(),
{
    let p = s.subrange(0, s.len() - 1);
    if i == s.len() - 1 {
        assert(p == s.subrange(0, i));
    } else {
        assert(p.subrange(0, i) =~= s.subrange(0, i));
        assert(p[i] == s[i]);
        to_json_table_err(p, i, e);
    }
}

impl ToJson for AmqpValue {
    type Target = JsonValue;

    type Error = ToJsonError;

    /// Convert this protocol value to its document form, exactly as
    /// [`spec_to_json`] maps its view; a returned document value is
    /// well formed.
    #[verifier::loop_isolation(false)]
    fn to_json_value(&self) -> (r: Result<JsonValue, ToJsonError>)
        ensures
            (r matches Ok(j) ==> spec_to_json(self@) == Ok::<JsonV, ToJsonError>(j@)),
            (r matches Ok(j) ==> json_wf(j@)),
            (r matches Err(e) ==> spec_to_json(self@) == Err::<JsonV, ToJsonError>(e)),
        decreases self,
    {
        match self {
            AmqpValue::Boolean(b) => Ok(JsonValue::Bool(*b)),
            AmqpValue::ShortShortInt(n) => Ok(JsonValue::Number(JsonNumber::from_i64(*n as i64))),
            AmqpValue::ShortShortUInt(n) => Ok(JsonValue::Number(JsonNumber::from_u64(*n as u64))),
            AmqpValue::ShortInt(n) => Ok(JsonValue::Number(JsonNumber::from_i64(*n as i64))),
            AmqpValue::ShortUInt(n) => Ok(JsonValue::Number(JsonNumber::from_u64(*n as u64))),
            AmqpValue::LongInt(n) => Ok(JsonValue::Number(JsonNumber::from_i64(*n as i64))),
            AmqpValue::LongUInt(n) => Ok(JsonValue::Number(JsonNumber::from_u64(*n as u64))),
            AmqpValue::LongLongInt(n) => Ok(JsonValue::Number(JsonNumber::from_i64(*n))),
            AmqpValue::Float(b) => match JsonNumber::from_double_bits(*b) {
                Some(num) => Ok(JsonValue::Number(num)),
                None => Err(ToJsonError::InvalidFloat(*b)),
            },
            AmqpValue::Double(b) => match JsonNumber::from_double_bits(*b) {
                Some(num) => Ok(JsonValue::Number(num)),
                None => Err(ToJsonError::InvalidDouble(*b)),
            },
            AmqpValue::DecimalValue(_) => Err(ToJsonError::Unimplemented),
            AmqpValue::Timestamp(n) => Ok(JsonValue::Number(JsonNumber::from_u64(*n))),
            AmqpValue::ShortString(s) => Ok(JsonValue::String(s.clone())),
            AmqpValue::LongString(s) => Ok(JsonValue::String(s.clone())),
            AmqpValue::FieldArray(vs) => {
                let ghost gs: Seq<AmqpV> = amqp_seq_view(vs@);
                proof {
                    amqp_seq_view_props(vs@);
                }
                let mut out: Vec<JsonValue> = Vec::new();
                let mut i: usize = 0;
                while i < vs.len()
                    invariant
                        i <= vs@.len(),
                        gs == amqp_seq_view(vs@),
                        gs.len() == vs@.len(),
                        forall|k: int| 0 <= k < vs@.len() ==> gs[k] == #[trigger] vs@[k]@,
                        out@.len() == i,
                        spec_to_json_seq(gs.subrange(0, i as int)) == Ok::<
                            Seq<JsonV>,
                            ToJsonError,
                        >(json_seq_view(out@)),
                        forall|k: int| 0 <= k < out@.len() ==> json_wf(#[trigger] out@[k]@),
                    decreases vs@.len() - i,
                {
                    proof {
                        assert(decreases_to!(*self => vs@));
                        assert(decreases_to!(vs@ => vs@[i as int]));
                    }
                    match vs[i].to_json_value() {
                        Ok(j) => {
                            proof {
                                let next = gs.subrange(0, i as int + 1);
                                assert(next.subrange(0, i as int) =~= gs.subrange(0, i as int));
                                assert(next[i as int] == vs@[i as int]@);
                                let t = out@.push(j);
                                assert(t.subrange(0, t.len() - 1) =~= out@);
                                assert(t[t.len() - 1] == j);
                                assert(json_seq_view(t) == json_seq_view(out@).push(j@));
                            }
                            out.push(j);
                        },
                        Err(e) => {
                            proof {
                                to_json_seq_err(gs, i as int, e);
                                assert(self@ == AmqpV::FieldArray(gs));
                            }
                            return Err(e);
                        },
                    }
                    i += 1;
                }
                proof {
                    assert(gs.subrange(0, i as int) =~= gs);
                    crate::values::json_seq_view_props(out@);
                    let sv = json_seq_view(out@);
                    assert forall|k: int| 0 <= k < sv.len() implies json_wf(#[trigger] sv[k]) by {
                        assert(sv[k] == out@[k]@);
                    }
                    assert(self@ == AmqpV::FieldArray(gs));
                }
                Ok(JsonValue::Array(out))
            },
            AmqpValue::FieldTable(entries) => {
                let ghost gs: Seq<(Seq<char>, AmqpV)> = amqp_table_view(entries@);
                proof {
                    amqp_table_view_props(entries@);
                }
                let mut out: Vec<(String, JsonValue)> = Vec::new();
                let mut i: usize = 0;
                while i < entries.len()
                    invariant
                        i <= entries@.len(),
                        gs == amqp_table_view(entries@),
                        gs.len() == entries@.len(),
                        forall|k: int|
                            0 <= k < entries@.len() ==> gs[k] == (
                            #[trigger] entries@[k].0@,
                            entries@[k].1@,
                            ),
                        out@.len() == i,
                        spec_to_json_table(gs.subrange(0, i as int)) == Ok::<
                            Seq<(Seq<char>, JsonV)>,
                            ToJsonError,
                        >(json_object_view(out@)),
                        forall|k: int| 0 <= k < out@.len() ==> json_wf((#[trigger] out@[k]).1@),
                    decreases entries@.len() - i,
                {
                    let entry = &entries[i];
                    proof {
                        assert(decreases_to!(*self => entries@));
                        assert(decreases_to!(entries@ => entries@[i as int]));
                        assert(decreases_to!(entries@[i as int] => entries@[i as int].1));
                    }
                    match entry.1.to_json_value() {
                        Ok(j) => {
                            let key = entry.0.clone();
                            proof {
                                let next = gs.subrange(0, i as int + 1);
                                assert(next.subrange(0, i as int) =~= gs.subrange(0, i as int));
                                assert(next[i as int] == (
                                    entries@[i as int].0@,
                                    entries@[i as int].1@,
                                ));
                                let t = out@.push((key, j));
                                assert(t.subrange(0, t.len() - 1) =~= out@);
                                assert(t[t.len() - 1] == (key, j));
                                assert(json_object_view(t) == json_object_view(out@).push(
                                    (key@, j@),
                                ));
                            }
                            out.push((key, j));
                            proof {
                                assert(out@[out@.len() - 1] == (key, j));
                            }
                        },
                        Err(e) => {
                            proof {
                                to_json_table_err(gs, i as int, e);
                                assert(self@ == AmqpV::FieldTable(gs));
                            }
                            return Err(e);
                        },
                    }
                    i += 1;
                }
                proof {
                    assert(gs.subrange(0, i as int) =~= gs);
                    crate::values::json_object_view_props(out@);
                    let sv = json_object_view(out@);
                    assert forall|k: int| 0 <= k < sv.len() implies json_wf(#[trigger] sv[k].1) by {
                        assert(sv[k] == (out@[k].0@, out@[k].1@));
                    }
                    assert(self@ == AmqpV::FieldTable(gs));
                }
                Ok(JsonValue::Object(out))
            },
            AmqpValue::ByteArray(bytes) => {
                let mut out: Vec<JsonValue> = Vec::new();
                let mut i: usize = 0;
                while i < bytes.len()
                    invariant
                        i <= bytes@.len(),
                        out@.len() == i,
                        json_seq_view(out@) == spec_bytes_to_json(bytes@).subrange(0, i as int),
                        forall|k: int| 0 <= k < out@.len() ==> json_wf(#[trigger] out@[k]@),
                    decreases bytes@.len() - i,
                {
                    let num = JsonNumber::from_u64(bytes[i] as u64);
                    let j = JsonValue::Number(num);
                    proof {
                        let t = out@.push(j);
                        assert(t.subrange(0, t.len() - 1) =~= out@);
                        assert(t[t.len() - 1] == j);
                        assert(json_seq_view(t) == json_seq_view(out@).push(j@));
                        assert(spec_bytes_to_json(bytes@).subrange(0, i as int + 1)
                            =~= spec_bytes_to_json(bytes@).subrange(0, i as int).push(j@));
                    }
                    out.push(j);
                    i += 1;
                }
                proof {
                    assert(spec_bytes_to_json(bytes@).subrange(0, i as int) =~= spec_bytes_to_json(
                        bytes@,
                    ));
                    crate::values::json_seq_view_props(out@);
                    let sv = json_seq_view(out@);
                    assert forall|k: int| 0 <= k < sv.len() implies json_wf(#[trigger] sv[k]) by {
                        assert(sv[k] == out@[k]@);
                    }
                    assert(self@ == AmqpV::ByteArray(bytes@));
                }
                Ok(JsonValue::Array(out))
            },
            AmqpValue::Void => Ok(JsonValue::Null),
        }
    }
}

} // verus!
