//! Decoding wire bodies into response envelopes.
//!
//! A reply body is expected in one of the two canonical envelope shapes:
//! `{"type":"Resp","value":V}` on success and
//! `{"type":"Error","value":{"description":...}}` on failure. When the HTTP
//! status indicates success the body must be the success shape; anything
//! else is a hard decode error. When the status indicates failure, a body
//! that is not the error shape is recovered leniently: the raw body text
//! verbatim becomes the error description, so a proxy's plain-text error
//! still surfaces to the caller.

use vstd::prelude::*;
use crate::envelope::{ApiError, WrappingResponse};
use crate::escape::{json_escape, json_escape_char, json_unescape, json_unescape_exec,
    is_simple_escape, simple_unescape};
use crate::strutil::{chars_to_string, str_chars};

verus! {

/// The opening text of the canonical success envelope.
pub open spec fn resp_prefix() -> Seq<char> {
    "{\"type\":\"Resp\",\"value\":"@
}

/// The opening text of the canonical error envelope.
pub open spec fn error_prefix() -> Seq<char> {
    "{\"type\":\"Error\",\"value\":{\"description\":\""@
}

/// The closing text of the canonical error envelope.
pub open spec fn error_suffix() -> Seq<char> {
    "\"}}"@
}

/// The canonical success envelope around a raw payload text.
pub open spec fn resp_envelope(payload: Seq<char>) -> Seq<char> {
    resp_prefix() + payload + "}"@
}

/// The canonical error envelope around a description.
pub open spec fn error_envelope(description: Seq<char>) -> Seq<char> {
    error_prefix() + json_escape(description) + error_suffix()
}

/// The raw payload of a success-shaped body: the text between the success
/// prefix and the closing brace, nothing on any other body.
pub open spec fn spec_resp_payload(body: Seq<char>) -> Option<Seq<char>> {
    if body.len() > resp_prefix().len() && body.subrange(0, resp_prefix().len() as int)
        == resp_prefix() && body.last() == '}' {
        Some(body.subrange(resp_prefix().len() as int, body.len() - 1))
    } else {
        None
    }
}

/// The description of an error-shaped body: the unescaped text between the
/// error prefix and suffix, nothing on any other body.
pub open spec fn spec_error_desc(body: Seq<char>) -> Option<Seq<char>> {
    if body.len() >= error_prefix().len() + error_suffix().len() && body.subrange(
        0,
        error_prefix().len() as int,
    ) == error_prefix() && body.subrange(
        body.len() - error_suffix().len(),
        body.len() as int,
    ) == error_suffix() {
        json_unescape(
            body.subrange(error_prefix().len() as int, body.len() - error_suffix().len()),
        )
    } else {
        None
    }
}

/// A success-status body that is not the success envelope: fatal, surfaced
/// with the offending body text.
#[derive(Clone, Debug, PartialEq, Eq)]
pub struct DecodeError {
    pub body: String,
}

/// True when the first `prefix@.len()` characters of `chars` are `prefix`.
fn starts_with_chars(chars: &Vec<char>, prefix: &Vec<char>) -> (r: bool)
    ensures
        r == (chars@.len() >= prefix@.len() && chars@.subrange(0, prefix@.len() as int)
            == prefix@),
{
    if chars.len() < prefix.len() {
        return false;
    }
    let mut i: usize = 0;
    while i < prefix.len()
        invariant
            i <= prefix@.len() <= chars@.len(),
            forall|j: int| 0 <= j < i ==> chars@[j] == prefix@[j],
        decreases prefix@.len() - i,
    {
        if chars[i] != prefix[i] {
            assert(chars@.subrange(0, prefix@.len() as int)[i as int] != prefix@[i as int]);
            return false;
        }
        i = i + 1;
    }
    assert(chars@.subrange(0, prefix@.len() as int) =~= prefix@);
    true
}

/// True when the last `suffix@.len()` characters of `chars` are `suffix`.
fn ends_with_chars(chars: &Vec<char>, suffix: &Vec<char>) -> (r: bool)
    ensures
        r == (chars@.len() >= suffix@.len() && chars@.subrange(
            chars@.len() - suffix@.len(),
            chars@.len() as int,
        ) == suffix@),
{
    if chars.len() < suffix.len() {
        return false;
    }
    let base = chars.len() - suffix.len();
    let mut i: usize = 0;
    while i < suffix.len()
        invariant
            i <= suffix@.len() <= chars@.len(),
            chars@.len() <= usize::MAX,
            base == chars@.len() - suffix@.len(),
            base + suffix@.len() == chars@.len(),
            forall|j: int| 0 <= j < i ==> chars@[base + j] == suffix@[j],
        decreases suffix@.len() - i,
    {
        if chars[base + i] != suffix[i] {
            assert(chars@.subrange(chars@.len() - suffix@.len(), chars@.len() as int)[i as int]
                != suffix@[i as int]);
            return false;
        }
        i = i + 1;
    }
    assert(chars@.subrange(chars@.len() - suffix@.len(), chars@.len() as int) =~= suffix@);
    true
}

/// Copies the character range `[from, to)`.
fn slice_chars(chars: &Vec<char>, from: usize, to: usize) -> (r: Vec<char>)
    requires
        from <= to <= chars@.len(),
    ensures
        r@ == chars@.subrange(from as int, to as int),
{
    let mut out: Vec<char> = Vec::new();
    let mut i: usize = from;
    while i < to
        invariant
            from <= i <= to <= chars@.len(),
            out@ == chars@.subrange(from as int, i as int),
        decreases to - i,
    {
        out.push(chars[i]);
        proof {
            assert(out@ =~= chars@.subrange(from as int, i + 1 as int));
        }
        i = i + 1;
    }
    out
}

/// Decodes a reply body under the success/error contract: on a success
/// status the body must be the success envelope (its raw payload text is
/// returned), else the decode fails hard; on a failure status the error
/// envelope's description is extracted, and any other body becomes the
/// description verbatim.
pub fn decode_body(status_success: bool, body: &str) -> (r: Result<
    WrappingResponse<String>,
    DecodeError,
>)
    ensures
        status_success ==> (match spec_resp_payload(body@) {
            Some(p) => r matches Ok(w) && (w matches WrappingResponse::Resp(s) && s@ == p),
            None => r matches Err(e) && e.body@ == body@,
        }),
        !status_success ==> (r matches Ok(w) && (w matches WrappingResponse::Error(e)
            && e.description@ == (match spec_error_desc(body@) {
            Some(d) => d,
            None => body@,
        }))),
{
    let chars = str_chars(body);
    if status_success {
        let prefix = str_chars("{\"type\":\"Resp\",\"value\":");
        assert(prefix@ == resp_prefix());
        if starts_with_chars(&chars, &prefix) && chars.len() > prefix.len() {
            let last = chars[chars.len() - 1];
            if last == '}' {
                let payload = slice_chars(&chars, prefix.len(), chars.len() - 1);
                return Ok(WrappingResponse::Resp(chars_to_string(&payload)));
            }
        }
        Err(DecodeError { body: body.to_owned() })
    } else {
        let prefix = str_chars("{\"type\":\"Error\",\"value\":{\"description\":\"");
        assert(prefix@ == error_prefix());
        let suffix = str_chars("\"}}");
        assert(suffix@ == error_suffix());
        if starts_with_chars(&chars, &prefix) && chars.len() - prefix.len() >= suffix.len()
            && ends_with_chars(&chars, &suffix) {
            let middle = slice_chars(&chars, prefix.len(), chars.len() - suffix.len());
            match json_unescape_exec(&middle) {
                Some(d) => {
                    return Ok(WrappingResponse::Error(
                        ApiError { description: chars_to_string(&d) },
                    ));
                },
                None => {
                    return Ok(WrappingResponse::error(body.to_owned()));
                },
            }
        }
        Ok(WrappingResponse::error(body.to_owned()))
    }
}

/// The text a JSON string literal denotes: the unescaped characters between
/// its quotes, nothing when `raw` is not a string literal.
pub open spec fn spec_json_string(raw: Seq<char>) -> Option<Seq<char>> {
    if raw.len() >= 2 && raw[0] == '"' && raw.last() == '"' {
        json_unescape(raw.subrange(1, raw.len() - 1))
    } else {
        None
    }
}

/// Reads a raw payload as a JSON string literal; `None` exactly where
/// [`spec_json_string`] gives nothing.
pub fn parse_json_string(raw: &str) -> (r: Option<String>)
    ensures
        match spec_json_string(raw@) {
            Some(s) => r matches Some(v) && v@ == s,
            None => r is None,
        },
{
    let chars = str_chars(raw);
    if chars.len() < 2 {
        return None;
    }
    let first = chars[0];
    let last = chars[chars.len() - 1];
    if first != '"' || last != '"' {
        return None;
    }
    let middle = slice_chars(&chars, 1, chars.len() - 1);
    match json_unescape_exec(&middle) {
        Some(d) => Some(chars_to_string(&d)),
        None => None,
    }
}

/// Every payload's success envelope decodes back to that payload.
pub proof fn lemma_resp_envelope_roundtrip(payload: Seq<char>)
    ensures
        spec_resp_payload(resp_envelope(payload)) == Some(payload),
{
    let body = resp_envelope(payload);
    reveal_strlit("}");
    assert(body.len() == resp_prefix().len() + payload.len() + 1);
    assert(body.subrange(0, resp_prefix().len() as int) =~= resp_prefix());
    assert(body.last() == '}');
    assert(body.subrange(resp_prefix().len() as int, body.len() - 1) =~= payload);
}

/// Unescaping inverts escaping: the law that makes the error envelope
/// lossless for every description.
pub proof fn lemma_unescape_escape(d: Seq<char>)
    ensures
        json_unescape(json_escape(d)) == Some(d),
    decreases d.len(),
{
    if d.len() == 0 {
        assert(json_escape(d) =~= Seq::<char>::empty());
    } else {
        let c = d[0];
        let rest = d.subrange(1, d.len() as int);
        lemma_unescape_escape(rest);
        let e = json_escape_char(c);
        let s = json_escape(d);
        assert(s == e + json_escape(rest));
        if c == '"' || c == '\\' || c == '\u{8}' || c == '\t' || c == '\n' || c == '\u{c}' || c
            == '\r' {
            assert(s[0] == '\\');
            assert(is_simple_escape(s[1]));
            assert(simple_unescape(s[1]) == c);
            assert(s.subrange(2, s.len() as int) =~= json_escape(rest));
            assert(seq![c] + rest =~= d);
        } else if ' ' > c {
            crate::escape::lemma_char_codepoint_bounds(c);
            let code = c as int;
            assert(0 <= code < 0x20);
            assert(s[0] == '\\');
            assert(s[1] == 'u');
            assert(s[2] == '0');
            assert(s[3] == '0');
            assert(s[4] == crate::hex::hex_char(code / 16));
            assert(s[5] == crate::hex::hex_char(code % 16));
            assert(0 <= code / 16 < 16);
            assert(0 <= code % 16 < 16);
            crate::hex::lemma_hex_char_roundtrip(code / 16);
            crate::hex::lemma_hex_char_roundtrip(code % 16);
            assert(!is_simple_escape('u'));
            assert(s.len() >= 6);
            let parsed = 16 * crate::hex::hex_digit_value(s[4]) + crate::hex::hex_digit_value(
                s[5],
            );
            assert(parsed == 16 * (code / 16) + code % 16);
            assert(parsed == code);
            assert((parsed as u8) as char == c) by {
                assert(c as int == parsed);
                assert((parsed as u8) as int == parsed);
                assert(((parsed as u8) as char) as int == parsed);
            }
            assert(s.subrange(6, s.len() as int) =~= json_escape(rest));
            assert(seq![c] + rest =~= d);
        } else {
            assert(e =~= seq![c]);
            assert(s[0] == c);
            assert(s[0] != '\\' && s[0] != '"' && !(' ' > s[0]));
            assert(s.subrange(1, s.len() as int) =~= json_escape(rest));
            assert(seq![c] + rest =~= d);
        }
    }
}

/// Every description's error envelope decodes back to that description: the
/// canonical error body is never mistaken for anything else.
pub proof fn lemma_error_envelope_roundtrip(description: Seq<char>)
    ensures
        spec_error_desc(error_envelope(description)) == Some(description),
{
    let body = error_envelope(description);
    let ep = error_prefix().len() as int;
    let es = error_suffix().len() as int;
    assert(body.len() == ep + json_escape(description).len() + es);
    assert(body.subrange(0, ep) =~= error_prefix());
    assert(body.subrange(body.len() - es, body.len() as int) =~= error_suffix());
    assert(body.subrange(ep, body.len() - es) =~= json_escape(description));
    lemma_unescape_escape(description);
}

} // verus!
