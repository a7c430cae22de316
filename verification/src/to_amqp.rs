//! The document-to-protocol conversion.
//!
//! [`spec_to_amqp`] is the mapping table: it says, for every document
//! value, which protocol value the conversion yields or which error it
//! fails with. The executable conversion is proved to return exactly
//! what the table says.
use vstd::prelude::*;

use crate::ToAmqp;
use crate::errors::ToAmqpError;
use crate::values::AmqpV;
use crate::values::AmqpValue;
use crate::values::JsonV;
use crate::values::JsonValue;
use crate::values::amqp_seq_view;
use crate::values::amqp_table_view;
use crate::values::json_seq_view;
use crate::values::json_seq_view_props;
use crate::values::json_object_view;
use crate::values::json_object_view_props;

verus! {

/// The protocol form of a document value, or the error that the
/// conversion fails with:
/// null maps to void, booleans to booleans, strings to long strings,
/// and the composite variants recurse, failing as a whole on the first
/// failing child. A number is routed by its views, queried in a fixed
/// order: a 64-bit float view wins whenever it is present (even when
/// the number is also an exact integer), else a signed 64-bit view
/// yields a signed 64-bit integer, else an unsigned 64-bit view yields
/// a timestamp (the protocol's unsigned 64-bit carrier), and a number
/// with no view at all is an error.
pub open spec fn spec_to_amqp(j: JsonV) -> Result<AmqpV, ToAmqpError>
    decreases j,
{
    match j {
        JsonV::Null => Ok(AmqpV::Void),
        JsonV::Bool(b) => Ok(AmqpV::Boolean(b)),
        JsonV::Number(n) => match n.double {
            Some(b) => Ok(AmqpV::Double(b)),
            None => match n.long {
                Some(l) => Ok(AmqpV::LongLongInt(l)),
                None => match n.ulong {
                    Some(u) => Ok(AmqpV::Timestamp(u)),
                    None => Err(ToAmqpError::NumberError),
                },
            },
        },
        JsonV::String(s) => Ok(AmqpV::LongString(s)),
        JsonV::Array(vs) => match spec_to_amqp_seq(vs) {
            Ok(avs) => Ok(AmqpV::FieldArray(avs)),
            Err(e) => Err(e),
        },
        JsonV::Object(entries) => match spec_to_amqp_object(entries) {
            Ok(avs) => Ok(AmqpV::FieldTable(avs)),
            Err(e) => Err(e),
        },
    }
}

/// The protocol forms of a sequence of document values, in order, or
/// the error of its first failing element.
pub open spec fn spec_to_amqp_seq(s: Seq<JsonV>) -> Result<Seq<AmqpV>, ToAmqpError>
    decreases s,
{
    if s.len() == 0 {
        Ok(Seq::empty())
    } else {
        match spec_to_amqp_seq(s.subrange(0, s.len() - 1)) {
            Err(e) => Err(e),
            Ok(avs) => match spec_to_amqp(s[s.len() - 1]) {
                Err(e) => Err(e),
                Ok(a) => Ok(avs.push(a)),
            },
        }
    }
}

/// The protocol forms of a sequence of keyed document values, keys
/// kept in place, or the error of its first failing entry.
pub open spec fn spec_to_amqp_object(s: Seq<(Seq<char>, JsonV)>) -> Result<
    Seq<(Seq<char>, AmqpV)>,
    ToAmqpError,
>
    decreases s,
{
    if s.len() == 0 {
        Ok(Seq::empty())
    } else {
        match spec_to_amqp_object(s.subrange(0, s.len() - 1)) {
            Err(e) => Err(e),
            Ok(avs) => match spec_to_amqp(s[s.len() - 1].1) {
                Err(e) => Err(e),
                Ok(a) => Ok(avs.push((s[s.len() - 1].0, a))),
            },
        }
    }
}

/// A sequence of document values whose prefix converts and whose next
/// element fails converts, as a whole, to that element's error.
pub(crate) proof fn to_amqp_seq_err(s: Seq<JsonV>, i: int, e: ToAmqpError)
    requires
        0 <= i < s.len(),
        spec_to_amqp_seq(s.subrange(0, i)) is Ok,
        spec_to_amqp(s[i]) == Err::<AmqpV, ToAmqpError>(e),
    ensures
        spec_to_amqp_seq(s) == Err::<Seq<AmqpV>, ToAmqpError>(e),
    decreases s.len(),
{
    let p = s.subrange(0, s.len() - 1);
    if i == s.len() - 1 {
        assert(p == s.subrange(0, i));
    } else {
        assert(p.subrange(0, i) =~= s.subrange(0, i));
        assert(p[i] == s[i]);
        to_amqp_seq_err(p, i, e);
    }
}

/// A sequence of keyed document values whose prefix converts and whose
/// next entry fails converts, as a whole, to that entry's error.
pub(crate) proof fn to_amqp_object_err(s: Seq<(Seq<char>, JsonV)>, i: int, e: ToAmqpError)
    requires
        0 <= i < s.len(),
        spec_to_amqp_object(s.subrange(0, i)) is Ok,
        spec_to_amqp(s[i].1) == Err::<AmqpV, ToAmqpError>(e),
    ensures
        spec_to_amqp_object(s) == Err::<Seq<(Seq<char>, AmqpV)>, ToAmqpError>(e),
    decreases s.len(),
{
    let p = s.subrange(0, s.len() - 1);
    if i == s.len() - 1 {
        assert(p == s.subrange(0, i));
    } else {
        assert(p.subrange(0, i) =~= s.subrange(0, i));
        assert(p[i] == s[i]);
        to_amqp_object_err(p, i, e);
    }
}

impl ToAmqp for JsonValue {
    type Target = AmqpValue;

    type Error = ToAmqpError;

    /// Convert this document value to its protocol form, exactly as
    /// [`spec_to_amqp`] maps its view.
    #[verifier::loop_isolation(false)]
    fn to_amqp_value(&self) -> (r: Result<AmqpValue, ToAmqpError>)
        ensures
            (r matches Ok(a) ==> spec_to_amqp(self@) == Ok::<AmqpV, ToAmqpError>(a@)),
            (r matches Err(e) ==> spec_to_amqp(self@) == Err::<AmqpV, ToAmqpError>(e)),
        decreases self,
    {
        match self {
            JsonValue::Null => Ok(AmqpValue::Void),
            JsonValue::Bool(b) => Ok(AmqpValue::Boolean(*b)),
            JsonValue::Number(num) => match num.double {
                Some(b) => Ok(AmqpValue::Double(b)),
                None => match num.long {
                    Some(l) => Ok(AmqpValue::LongLongInt(l)),
                    None => match num.ulong {
                        Some(u) => Ok(AmqpValue::Timestamp(u)),
                        None => Err(ToAmqpError::NumberError),
                    },
                },
            },
            JsonValue::String(s) => Ok(AmqpValue::LongString(s.clone())),
            JsonValue::Array(vs) => {
                let ghost gs: Seq<JsonV> = json_seq_view(vs@);
                proof {
                    json_seq_view_props(vs@);
                }
                let mut out: Vec<AmqpValue> = Vec::new();
                let mut i: usize = 0;
                while i < vs.len()
                    invariant
                        i <= vs@.len(),
                        out@.len() == i,
                        spec_to_amqp_seq(gs.subrange(0, i as int)) == Ok::<
                            Seq<AmqpV>,
                            ToAmqpError,
                        >(amqp_seq_view(out@)),
                    decreases vs@.len() - i,
                {
                    proof {
                        assert(decreases_to!(*self => vs@));
                        assert(decreases_to!(vs@ => vs@[i as int]));
                    }
                    match vs[i].to_amqp_value() {
                        Ok(a) => {
                            proof {
                                let next = gs.subrange(0, i as int + 1);
                                assert(next.subrange(0, i as int) =~= gs.subrange(0, i as int));
                                assert(next[i as int] == vs@[i as int]@);
                                let t = out@.push(a);
                                assert(t.subrange(0, t.len() - 1) =~= out@);
                                assert(t[t.len() - 1] == a);
                                assert(amqp_seq_view(t) == amqp_seq_view(out@).push(a@));
                            }
                            out.push(a);
                        },
                        Err(e) => {
                            proof {
                                to_amqp_seq_err(gs, i as int, e);
                            }
                            return Err(e);
                        },
                    }
                    i += 1;
                }
                proof {
                    assert(gs.subrange(0, i as int) =~= gs);
                }
                Ok(AmqpValue::FieldArray(out))
            },
            JsonValue::Object(entries) => {
                let ghost gs: Seq<(Seq<char>, JsonV)> = json_object_view(entries@);
                proof {
                    json_object_view_props(entries@);
                }
                let mut out: Vec<(String, AmqpValue)> = Vec::new();
                let mut i: usize = 0;
                while i < entries.len()
                    invariant
                        i <= entries@.len(),
                        out@.len() == i,
                        spec_to_amqp_object(gs.subrange(0, i as int)) == Ok::<
                            Seq<(Seq<char>, AmqpV)>,
                            ToAmqpError,
                        >(amqp_table_view(out@)),
                    decreases entries@.len() - i,
                {
                    let entry = &entries[i];
                    proof {
                        assert(decreases_to!(*self => entries@));
                        assert(decreases_to!(entries@ => entries@[i as int]));
                        assert(decreases_to!(entries@[i as int] => entries@[i as int].1));
                    }
                    match entry.1.to_amqp_value() {
                        Ok(a) => {
                            let key = entry.0.clone();
                            proof {
                                let next = gs.subrange(0, i as int + 1);
                                assert(next.subrange(0, i as int) =~= gs.subrange(0, i as int));
                                assert(next[i as int] == (
                                    entries@[i as int].0@,
                                    entries@[i as int].1@,
                                ));
                                let t = out@.push((key, a));
                                assert(t.subrange(0, t.len() - 1) =~= out@);
                                assert(t[t.len() - 1] == (key, a));
                                assert(amqp_table_view(t) == amqp_table_view(out@).push(
                                    (key@, a@),
                                ));
                            }
                            out.push((key, a));
                        },
                        Err(e) => {
                            proof {
                                to_amqp_object_err(gs, i as int, e);
                            }
                            return Err(e);
                        },
                    }
                    i += 1;
                }
                proof {
                    assert(gs.subrange(0, i as int) =~= gs);
                }
                Ok(AmqpValue::FieldTable(out))
            },
        }
    }
}

} // verus!
