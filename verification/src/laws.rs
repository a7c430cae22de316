//! Laws of the two conversions, stated over the mapping tables
//! [`spec_to_json`] and [`spec_to_amqp`] that the executable
//! conversions are proved to implement.
use vstd::prelude::*;

use crate::errors::ToAmqpError;
use crate::errors::ToJsonError;
use crate::number::JsonNumber;
use crate::number::double_bits_finite;
use crate::to_amqp::spec_to_amqp;
use crate::to_amqp::spec_to_amqp_object;
use crate::to_amqp::spec_to_amqp_seq;
use crate::to_json::spec_to_json;
use crate::to_json::spec_to_json_seq;
use crate::to_json::spec_to_json_table;
use crate::values::AmqpV;
use crate::values::DecimalValue;
use crate::values::JsonV;

verus! {

/// Every finite float, 32-bit (carried as its 64-bit widening) or
/// 64-bit, converts to the document number carrying exactly that value.
pub proof fn lemma_finite_float_to_json(b: u64)
    requires
        double_bits_finite(b),
    ensures
        spec_to_json(AmqpV::Float(b)) == Ok::<JsonV, ToJsonError>(
            JsonV::Number(JsonNumber { double: Some(b), long: None, ulong: None }),
        ),
        spec_to_json(AmqpV::Double(b)) == Ok::<JsonV, ToJsonError>(
            JsonV::Number(JsonNumber { double: Some(b), long: None, ulong: None }),
        ),
{
}

/// Every non-finite float fails protocol-to-document conversion with
/// the error of its own width, carrying that exact value.
pub proof fn lemma_non_finite_float_fails(b: u64)
    requires
        !double_bits_finite(b),
    ensures
        spec_to_json(AmqpV::Float(b)) == Err::<JsonV, ToJsonError>(ToJsonError::InvalidFloat(b)),
        spec_to_json(AmqpV::Double(b)) == Err::<JsonV, ToJsonError>(ToJsonError::InvalidDouble(b)),
{
}

/// Booleans convert exactly in both directions, so they round-trip.
pub proof fn lemma_boolean_round_trip(b: bool)
    ensures
        spec_to_json(AmqpV::Boolean(b)) == Ok::<JsonV, ToJsonError>(JsonV::Bool(b)),
        spec_to_amqp(JsonV::Bool(b)) == Ok::<AmqpV, ToAmqpError>(AmqpV::Boolean(b)),
{
}

/// Every string, as a short string or as a long string, converts to
/// the document string holding the same characters.
pub proof fn lemma_string_to_json(s: Seq<char>)
    ensures
        spec_to_json(AmqpV::ShortString(s)) == Ok::<JsonV, ToJsonError>(JsonV::String(s)),
        spec_to_json(AmqpV::LongString(s)) == Ok::<JsonV, ToJsonError>(JsonV::String(s)),
{
}

/// Every decimal value, whatever its scale and value, fails
/// protocol-to-document conversion as unimplemented.
pub proof fn lemma_decimal_unimplemented(d: DecimalValue)
    ensures
        spec_to_json(AmqpV::DecimalValue(d)) == Err::<JsonV, ToJsonError>(
            ToJsonError::Unimplemented,
        ),
{
}

/// A document number with a 64-bit float view always converts to the
/// 64-bit float protocol value carrying that view — even when the
/// number also has an exact integer view.
pub proof fn lemma_number_double_wins(n: JsonNumber, b: u64)
    requires
        n.double == Some(b),
    ensures
        spec_to_amqp(JsonV::Number(n)) == Ok::<AmqpV, ToAmqpError>(AmqpV::Double(b)),
{
}

/// A document value all of whose numbers carry only a finite 64-bit
/// float view: the form that protocol-to-document conversion itself
/// produces for floats, and the form on which the document round trip
/// is exact.
pub open spec fn json_double_only(j: JsonV) -> bool
    decreases j,
{
    match j {
        JsonV::Null => true,
        JsonV::Bool(_) => true,
        JsonV::Number(n) => n.long is None && n.ulong is None && (n.double matches Some(b)
            && double_bits_finite(b)),
        JsonV::String(_) => true,
        JsonV::Array(vs) => forall|i: int| 0 <= i < vs.len() ==> json_double_only(#[trigger] vs[i]),
        JsonV::Object(entries) => forall|i: int|
            0 <= i < entries.len() ==> json_double_only(#[trigger] entries[i].1),
    }
}

/// The document round trip is exact: a document value whose numbers
/// carry only a finite float view always converts to a protocol value,
/// and that protocol value converts back to the very same document
/// value — keys, per-key values and iteration order included.
pub proof fn lemma_document_round_trip(j: JsonV)
    requires
        json_double_only(j),
    ensures
        spec_to_amqp(j) matches Ok(a) && spec_to_json(a) == Ok::<JsonV, ToJsonError>(j),
    decreases j,
{
    match j {
        JsonV::Array(vs) => {
            lemma_document_seq_round_trip(vs);
        },
        JsonV::Object(entries) => {
            lemma_document_object_round_trip(entries);
        },
        _ => {
        },
    }
}

/// The round trip of [`lemma_document_round_trip`], element by element
/// over a sequence of document values.
pub proof fn lemma_document_seq_round_trip(s: Seq<JsonV>)
    requires
        forall|i: int| 0 <= i < s.len() ==> json_double_only(#[trigger] s[i]),
    ensures
        spec_to_amqp_seq(s) matches Ok(a) && spec_to_json_seq(a) == Ok::<Seq<JsonV>, ToJsonError>(
            s,
        ),
    decreases s,
{
    if s.len() == 0 {
        assert(spec_to_json_seq(Seq::<AmqpV>::empty()) == Ok::<Seq<JsonV>, ToJsonError>(
            Seq::empty(),
        ));
        assert(Seq::<JsonV>::empty() =~= s);
    } else {
        let p = s.subrange(0, s.len() - 1);
        lemma_document_seq_round_trip(p);
        lemma_document_round_trip(s[s.len() - 1]);
        let ap = spec_to_amqp_seq(p)->Ok_0;
        let al = spec_to_amqp(s[s.len() - 1])->Ok_0;
        let t = ap.push(al);
        assert(spec_to_amqp_seq(s) == Ok::<Seq<AmqpV>, ToAmqpError>(t));
        assert(t.subrange(0, t.len() - 1) =~= ap);
        assert(t[t.len() - 1] == al);
        assert(p.push(s[s.len() - 1]) =~= s);
    }
}

/// The round trip of [`lemma_document_round_trip`], entry by entry
/// over a sequence of keyed document values.
pub proof fn lemma_document_object_round_trip(s: Seq<(Seq<char>, JsonV)>)
    requires
        forall|i: int| 0 <= i < s.len() ==> json_double_only(#[trigger] s[i].1),
    ensures
        spec_to_amqp_object(s) matches Ok(a) && spec_to_json_table(a) == Ok::<
            Seq<(Seq<char>, JsonV)>,
            ToJsonError,
        >(s),
    decreases s,
{
    if s.len() == 0 {
        assert(spec_to_json_table(Seq::<(Seq<char>, AmqpV)>::empty()) == Ok::<
            Seq<(Seq<char>, JsonV)>,
            ToJsonError,
        >(Seq::empty()));
        assert(Seq::<(Seq<char>, JsonV)>::empty() =~= s);
    } else {
        let p = s.subrange(0, s.len() - 1);
        lemma_document_object_round_trip(p);
        lemma_document_round_trip(s[s.len() - 1].1);
        let ap = spec_to_amqp_object(p)->Ok_0;
        let al = spec_to_amqp(s[s.len() - 1].1)->Ok_0;
        let t = ap.push((s[s.len() - 1].0, al));
        assert(spec_to_amqp_object(s) == Ok::<Seq<(Seq<char>, AmqpV)>, ToAmqpError>(t));
        assert(t.subrange(0, t.len() - 1) =~= ap);
        assert(t[t.len() - 1] == (s[s.len() - 1].0, al));
        assert(p.push(s[s.len() - 1]) =~= s);
    }
}

/// A protocol field table that converts preserves its keys, in place
/// and in order, and converts each entry's value on its own.
pub proof fn lemma_table_keys_preserved(s: Seq<(Seq<char>, AmqpV)>)
    requires
        spec_to_json_table(s) is Ok,
    ensures
        spec_to_json_table(s)->Ok_0.len() == s.len(),
        forall|i: int|
            0 <= i < s.len() ==> (#[trigger] spec_to_json_table(s)->Ok_0[i]).0 == s[i].0
                && spec_to_json(s[i].1) == Ok::<JsonV, ToJsonError>(
                spec_to_json_table(s)->Ok_0[i].1,
            ),
    decreases s,
{
    if s.len() > 0 {
        let p = s.subrange(0, s.len() - 1);
        lemma_table_keys_preserved(p);
        assert(forall|i: int| 0 <= i < p.len() ==> p[i] == #[trigger] s[i]);
    }
}

/// A document object that converts preserves its keys, in place and in
/// order, and converts each entry's value on its own.
pub proof fn lemma_object_keys_preserved(s: Seq<(Seq<char>, JsonV)>)
    requires
        spec_to_amqp_object(s) is Ok,
    ensures
        spec_to_amqp_object(s)->Ok_0.len() == s.len(),
        forall|i: int|
            0 <= i < s.len() ==> (#[trigger] spec_to_amqp_object(s)->Ok_0[i]).0 == s[i].0
                && spec_to_amqp(s[i].1) == Ok::<AmqpV, ToAmqpError>(
                spec_to_amqp_object(s)->Ok_0[i].1,
            ),
    decreases s,
{
    if s.len() > 0 {
        let p = s.subrange(0, s.len() - 1);
        lemma_object_keys_preserved(p);
        assert(forall|i: int| 0 <= i < p.len() ==> p[i] == #[trigger] s[i]);
    }
}

/// A sequence of document values each of which converts, converts as
/// a sequence.
proof fn lemma_amqp_seq_all_ok(s: Seq<JsonV>)
    requires
        forall|k: int| 0 <= k < s.len() ==> spec_to_amqp(#[trigger] s[k]) is Ok,
    ensures
        spec_to_amqp_seq(s) is Ok,
    decreases s,
{
    if s.len() > 0 {
        let p = s.subrange(0, s.len() - 1);
        assert(forall|k: int| 0 <= k < p.len() ==> p[k] == #[trigger] s[k]);
        lemma_amqp_seq_all_ok(p);
    }
}

/// A sequence of protocol values each of which converts, converts as
/// a sequence.
proof fn lemma_json_seq_all_ok(s: Seq<AmqpV>)
    requires
        forall|k: int| 0 <= k < s.len() ==> spec_to_json(#[trigger] s[k]) is Ok,
    ensures
        spec_to_json_seq(s) is Ok,
    decreases s,
{
    if s.len() > 0 {
        let p = s.subrange(0, s.len() - 1);
        assert(forall|k: int| 0 <= k < p.len() ==> p[k] == #[trigger] s[k]);
        lemma_json_seq_all_ok(p);
    }
}

/// A document array with an invalid element fails as a whole, with the
/// first failing element's error and no partial output.
pub proof fn lemma_document_array_fail_fast(vs: Seq<JsonV>, i: int)
    requires
        0 <= i < vs.len(),
        forall|k: int| 0 <= k < i ==> spec_to_amqp(#[trigger] vs[k]) is Ok,
        spec_to_amqp(vs[i]) is Err,
    ensures
        spec_to_amqp(JsonV::Array(vs)) == Err::<AmqpV, ToAmqpError>(spec_to_amqp(vs[i])->Err_0),
{
    let p = vs.subrange(0, i);
    assert(forall|k: int| 0 <= k < p.len() ==> p[k] == #[trigger] vs[k]);
    lemma_amqp_seq_all_ok(p);
    crate::to_amqp::to_amqp_seq_err(vs, i, spec_to_amqp(vs[i])->Err_0);
}

/// A protocol field array with an invalid element fails as a whole,
/// with the first failing element's error and no partial output.
pub proof fn lemma_protocol_array_fail_fast(vs: Seq<AmqpV>, i: int)
    requires
        0 <= i < vs.len(),
        forall|k: int| 0 <= k < i ==> spec_to_json(#[trigger] vs[k]) is Ok,
        spec_to_json(vs[i]) is Err,
    ensures
        spec_to_json(AmqpV::FieldArray(vs)) == Err::<JsonV, ToJsonError>(
            spec_to_json(vs[i])->Err_0,
        ),
{
    let p = vs.subrange(0, i);
    assert(forall|k: int| 0 <= k < p.len() ==> p[k] == #[trigger] vs[k]);
    lemma_json_seq_all_ok(p);
    crate::to_json::to_json_seq_err(vs, i, spec_to_json(vs[i])->Err_0);
}

} // verus!
