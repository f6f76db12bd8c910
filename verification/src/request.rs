//! Request payloads and reply unwrapping for the per-resource operations.
//!
//! Bulk imports carry a mapping from column name to a sequence of plain
//! values, serialized as one JSON object; the single-row import wraps each
//! value in a one-element sequence and delegates to the bulk form.
//! Unwrapping turns the error side of an envelope into a propagated failure
//! that names the backend which produced it.

use vstd::prelude::*;
use crate::decode::{decode_body, parse_json_string, spec_error_desc, spec_json_string,
    spec_resp_payload, DecodeError};
use crate::envelope::WrappingResponse;
use crate::escape::{append_json_escaped, json_escape};
use crate::hex::{dec_render, dec_seq};
use crate::locator::Backend;
use crate::strutil::{append_str_chars, chars_to_string, join_sep, str_chars};

verus! {

/// A plain column value of an imported row.
#[derive(Clone, Debug, PartialEq, Eq)]
pub enum SimpleValue {
    Text(String),
    Number(i64),
    Bool(bool),
    Null,
}

impl SimpleValue {
    /// A copy equal to this value.
    pub fn duplicate(&self) -> (r: SimpleValue)
        ensures
            r == *self,
    {
        match self {
            SimpleValue::Text(s) => SimpleValue::Text(s.clone()),
            SimpleValue::Number(n) => SimpleValue::Number(*n),
            SimpleValue::Bool(b) => SimpleValue::Bool(*b),
            SimpleValue::Null => SimpleValue::Null,
        }
    }
}

/// The decimal text of a signed number: a minus sign before the digits of
/// the magnitude when negative.
pub open spec fn spec_i64_dec(n: int) -> Seq<char> {
    if n >= 0 {
        dec_seq(n as nat)
    } else {
        seq!['-'] + dec_seq((-n) as nat)
    }
}

/// The JSON text of one plain value.
pub open spec fn spec_value_json(v: SimpleValue) -> Seq<char> {
    match v {
        SimpleValue::Text(s) => seq!['"'] + json_escape(s@) + seq!['"'],
        SimpleValue::Number(n) => spec_i64_dec(n as int),
        SimpleValue::Bool(b) => if b {
            "true"@
        } else {
            "false"@
        },
        SimpleValue::Null => "null"@,
    }
}

/// The JSON text of a value sequence: a bracketed, comma-separated array.
pub open spec fn spec_values_json(vals: Seq<SimpleValue>) -> Seq<char> {
    seq!['['] + join_sep(vals.map_values(|v: SimpleValue| spec_value_json(v)), ',') + seq![']']
}

/// The JSON text of one column entry: the escaped key and its value array.
pub open spec fn spec_entry_json(key: Seq<char>, vals: Seq<SimpleValue>) -> Seq<char> {
    seq!['"'] + json_escape(key) + seq!['"', ':'] + spec_values_json(vals)
}

/// The JSON text of a whole import mapping: one object, entries in the
/// given order, comma-separated.
pub open spec fn spec_rows_json(rows: Seq<(Seq<char>, Seq<SimpleValue>)>) -> Seq<char> {
    seq!['{'] + join_sep(
        rows.map_values(|p: (Seq<char>, Seq<SimpleValue>)| spec_entry_json(p.0, p.1)),
        ',',
    ) + seq!['}']
}

/// The mapping a bulk-import vector denotes: key text and value sequence of
/// each entry, in order.
pub open spec fn rows_view(rows: Seq<(String, Vec<SimpleValue>)>) -> Seq<
    (Seq<char>, Seq<SimpleValue>),
> {
    rows.map_values(|p: (String, Vec<SimpleValue>)| (p.0@, p.1@))
}

/// The mapping a single-row vector denotes.
pub open spec fn single_row_view(rows: Seq<(String, SimpleValue)>) -> Seq<
    (Seq<char>, Seq<SimpleValue>),
> {
    rows.map_values(|p: (String, SimpleValue)| (p.0@, seq![p.1]))
}

/// Appends the decimal text of `n`.
fn append_u64_dec(out: &mut Vec<char>, n: u64)
    ensures
        final(out)@ == old(out)@ + dec_seq(n as nat),
{
    let digits = dec_render(n);
    let ghost before = out@;
    let mut i: usize = 0;
    while i < digits.len()
        invariant
            i <= digits@.len(),
            digits@ == dec_seq(n as nat),
            out@ == before + digits@.subrange(0, i as int),
        decreases digits@.len() - i,
    {
        out.push(digits[i]);
        proof {
            assert(out@ =~= before + digits@.subrange(0, i + 1 as int));
        }
        i = i + 1;
    }
    proof {
        assert(digits@.subrange(0, digits@.len() as int) =~= digits@);
    }
}

/// Appends the JSON text of one plain value.
fn append_value_json(out: &mut Vec<char>, v: &SimpleValue)
    ensures
        final(out)@ == old(out)@ + spec_value_json(*v),
{
    match v {
        SimpleValue::Text(s) => {
            out.push('"');
            let chars = str_chars(s.as_str());
            append_json_escaped(out, &chars);
            out.push('"');
            assert(out@ =~= old(out)@ + spec_value_json(*v));
        },
        SimpleValue::Number(n) => {
            if *n >= 0 {
                append_u64_dec(out, *n as u64);
            } else {
                out.push('-');
                let magnitude = (-(*n as i128)) as u64;
                assert(magnitude as nat == (-(*n as int)) as nat);
                append_u64_dec(out, magnitude);
                assert(out@ =~= old(out)@ + spec_value_json(*v));
            }
        },
        SimpleValue::Bool(b) => {
            if *b {
                append_str_chars(out, "true");
            } else {
                append_str_chars(out, "false");
            }
        },
        SimpleValue::Null => {
            append_str_chars(out, "null");
        },
    }
}

/// Pushing one more part extends a separated join by the separator and the
/// part (or starts it when the join was empty).
proof fn lemma_join_sep_push(parts: Seq<Seq<char>>, part: Seq<char>, sep: char)
    ensures
        join_sep(parts.push(part), sep) == if parts.len() == 0 {
            part
        } else {
            join_sep(parts, sep) + seq![sep] + part
        },
{
    let whole = parts.push(part);
    assert(whole.drop_last() =~= parts);
    assert(whole.last() == part);
    if parts.len() == 0 {
        assert(whole.len() == 1);
        assert(whole[0] == part);
    }
}

/// Appends the JSON text of a value array.
fn append_values_json(out: &mut Vec<char>, vals: &Vec<SimpleValue>)
    ensures
        final(out)@ == old(out)@ + spec_values_json(vals@),
{
    let ghost all_parts = vals@.map_values(|v: SimpleValue| spec_value_json(v));
    out.push('[');
    let ghost base = out@;
    let mut i: usize = 0;
    while i < vals.len()
        invariant
            i <= vals@.len(),
            all_parts == vals@.map_values(|v: SimpleValue| spec_value_json(v)),
            out@ == base + join_sep(all_parts.subrange(0, i as int), ','),
        decreases vals@.len() - i,
    {
        if i > 0 {
            out.push(',');
        }
        append_value_json(out, &vals[i]);
        proof {
            let done = all_parts.subrange(0, i as int);
            assert(all_parts.subrange(0, i + 1 as int) =~= done.push(all_parts[i as int]));
            lemma_join_sep_push(done, all_parts[i as int], ',');
            assert(all_parts[i as int] == spec_value_json(vals@[i as int]));
            assert(out@ =~= base + join_sep(all_parts.subrange(0, i + 1 as int), ','));
        }
        i = i + 1;
    }
    proof {
        assert(all_parts.subrange(0, all_parts.len() as int) =~= all_parts);
    }
    out.push(']');
    assert(out@ =~= old(out)@ + spec_values_json(vals@));
}

/// Renders the JSON body of a bulk import: the mapping as one object, keys
/// in the given order.
pub fn import_data_rows_body(rows: &Vec<(String, Vec<SimpleValue>)>) -> (r: String)
    ensures
        r@ == spec_rows_json(rows_view(rows@)),
{
    let ghost all_parts = rows_view(rows@).map_values(
        |p: (Seq<char>, Seq<SimpleValue>)| spec_entry_json(p.0, p.1),
    );
    let mut out: Vec<char> = Vec::new();
    out.push('{');
    let ghost base = out@;
    let mut i: usize = 0;
    while i < rows.len()
        invariant
            i <= rows@.len(),
            all_parts == rows_view(rows@).map_values(
                |p: (Seq<char>, Seq<SimpleValue>)| spec_entry_json(p.0, p.1),
            ),
            all_parts.len() == rows@.len(),
            out@ == base + join_sep(all_parts.subrange(0, i as int), ','),
        decreases rows@.len() - i,
    {
        if i > 0 {
            out.push(',');
        }
        let ghost mid = out@;
        out.push('"');
        let key_chars = str_chars(rows[i].0.as_str());
        append_json_escaped(&mut out, &key_chars);
        out.push('"');
        out.push(':');
        append_values_json(&mut out, &rows[i].1);
        proof {
            assert(out@ =~= mid + spec_entry_json(rows@[i as int].0@, rows@[i as int].1@));
            let done = all_parts.subrange(0, i as int);
            assert(all_parts.subrange(0, i + 1 as int) =~= done.push(all_parts[i as int]));
            lemma_join_sep_push(done, all_parts[i as int], ',');
            assert(all_parts[i as int] == spec_entry_json(
                rows@[i as int].0@,
                rows@[i as int].1@,
            ));
            assert(out@ =~= base + join_sep(all_parts.subrange(0, i + 1 as int), ','));
        }
        i = i + 1;
    }
    proof {
        assert(all_parts.subrange(0, all_parts.len() as int) =~= all_parts);
    }
    out.push('}');
    assert(out@ =~= seq!['{'] + join_sep(all_parts, ',') + seq!['}']);
    chars_to_string(&out)
}

/// Renders the JSON body of a single-row import. The body is exactly the
/// bulk body of the same mapping with every value wrapped in a one-element
/// sequence under its key: the singular form delegates to the bulk form.
pub fn import_data_row_body(rows: &Vec<(String, SimpleValue)>) -> (r: String)
    ensures
        r@ == spec_rows_json(single_row_view(rows@)),
{
    let mut wrapped: Vec<(String, Vec<SimpleValue>)> = Vec::new();
    let mut i: usize = 0;
    while i < rows.len()
        invariant
            i <= rows@.len(),
            wrapped@.len() == i,
            forall|j: int| 0 <= j < i ==> #[trigger] wrapped@[j].0@ == rows@[j].0@
                && wrapped@[j].1@ == seq![rows@[j].1],
        decreases rows@.len() - i,
    {
        let key = rows[i].0.clone();
        let mut vals: Vec<SimpleValue> = Vec::new();
        vals.push(rows[i].1.duplicate());
        assert(vals@ =~= seq![rows@[i as int].1]);
        wrapped.push((key, vals));
        i = i + 1;
    }
    proof {
        assert(rows_view(wrapped@) =~= single_row_view(rows@));
    }
    import_data_rows_body(&wrapped)
}

/// A failed call: the error description, annotated with the backend that
/// produced it.
#[derive(Clone, Debug, PartialEq, Eq)]
pub struct RequestError {
    pub backend: Backend,
    pub description: String,
}

/// The failure message of an error reply: the backend's prefix followed by
/// the description.
pub open spec fn spec_error_message(backend: Backend, description: Seq<char>) -> Seq<char> {
    match backend {
        Backend::Site => "API Response Error: "@ + description,
        Backend::Addon => "Addon Response Error: "@ + description,
    }
}

impl RequestError {
    /// The full failure message.
    pub fn message(&self) -> (r: String)
        ensures
            r@ == spec_error_message(self.backend, self.description@),
    {
        let mut out: Vec<char> = Vec::new();
        match self.backend {
            Backend::Site => append_str_chars(&mut out, "API Response Error: "),
            Backend::Addon => append_str_chars(&mut out, "Addon Response Error: "),
        }
        append_str_chars(&mut out, self.description.as_str());
        assert(out@ =~= spec_error_message(self.backend, self.description@));
        chars_to_string(&out)
    }
}

/// Unwraps an envelope: the payload on the success side; on the error side
/// a propagated failure carrying the description, annotated with the
/// backend that produced it.
pub fn unwrap_response<V>(backend: Backend, resp: WrappingResponse<V>) -> (r: Result<
    V,
    RequestError,
>)
    ensures
        match resp {
            WrappingResponse::Resp(v) => r == Ok::<V, RequestError>(v),
            WrappingResponse::Error(e) => r == Err::<V, RequestError>(
                RequestError { backend, description: e.description },
            ),
        },
{
    match resp {
        WrappingResponse::Resp(v) => Ok(v),
        WrappingResponse::Error(e) => Err(RequestError { backend, description: e.description }),
    }
}

/// Why a call failed: the reply was not decodable under the envelope
/// contract, or the backend answered with an error envelope.
#[derive(Clone, Debug, PartialEq, Eq)]
pub enum CallFailure {
    Decode(DecodeError),
    Api(RequestError),
}

/// Finishes an import call from the raw reply: decodes the envelope, reads
/// the job identifier that the success payload carries as a JSON string,
/// and turns the error side into a failure naming the backend.
pub fn finish_import_call(backend: Backend, status_success: bool, body: &str) -> (r: Result<
    String,
    CallFailure,
>)
    ensures
        status_success ==> (match spec_resp_payload(body@) {
            Some(p) => (match spec_json_string(p) {
                Some(job) => r matches Ok(s) && s@ == job,
                None => r matches Err(f) && (f matches CallFailure::Decode(e) && e.body@
                    == body@),
            }),
            None => r matches Err(f) && (f matches CallFailure::Decode(e) && e.body@ == body@),
        }),
        !status_success ==> (r matches Err(f) && (f matches CallFailure::Api(e) && e.backend
            == backend && e.description@ == (match spec_error_desc(body@) {
            Some(d) => d,
            None => body@,
        }))),
{
    match decode_body(status_success, body) {
        Ok(WrappingResponse::Resp(raw)) => match parse_json_string(raw.as_str()) {
            Some(job) => Ok(job),
            None => Err(CallFailure::Decode(DecodeError { body: body.to_owned() })),
        },
        Ok(WrappingResponse::Error(e)) => Err(
            CallFailure::Api(RequestError { backend, description: e.description }),
        ),
        Err(e) => Err(CallFailure::Decode(e)),
    }
}

} // verus!
