//! Character escaping: JSON string escapes for the wire envelope and body
//! serializer, and percent escapes for query strings.

use vstd::prelude::*;
use crate::hex::{hex_char, hex_char_upper, hex_char_upper_exec, hex_char_exec, hex_digit_value,
    hex_digit_value_exec, is_hex_digit, is_hex_digit_exec};

verus! {

/// A character's codepoint is a Unicode scalar value: nonnegative and at
/// most 0x10FFFF.
pub proof fn lemma_char_codepoint_bounds(c: char)
    ensures
        0 <= c as int <= 0x10FFFF,
{
}

/// The escape sequence a character becomes inside a JSON string literal:
/// quote and backslash get a backslash, the named control characters their
/// short form, other control characters a `\u00..` escape with lowercase
/// digits, and everything else stands for itself.
pub open spec fn json_escape_char(c: char) -> Seq<char> {
    if c == '"' {
        seq!['\\', '"']
    } else if c == '\\' {
        seq!['\\', '\\']
    } else if c == '\u{8}' {
        seq!['\\', 'b']
    } else if c == '\t' {
        seq!['\\', 't']
    } else if c == '\n' {
        seq!['\\', 'n']
    } else if c == '\u{c}' {
        seq!['\\', 'f']
    } else if c == '\r' {
        seq!['\\', 'r']
    } else if ' ' > c {
        seq!['\\', 'u', '0', '0', hex_char(c as int / 16), hex_char(c as int % 16)]
    } else {
        seq![c]
    }
}

/// The JSON string-literal text of a character sequence.
pub open spec fn json_escape(s: Seq<char>) -> Seq<char>
    decreases s.len(),
{
    if s.len() == 0 {
        Seq::empty()
    } else {
        json_escape_char(s[0]) + json_escape(s.subrange(1, s.len() as int))
    }
}

/// Escapes one character into `out`.
fn push_json_escape_char(out: &mut Vec<char>, c: char)
    ensures
        final(out)@ == old(out)@ + json_escape_char(c),
{
    if c == '"' {
        out.push('\\');
        out.push('"');
    } else if c == '\\' {
        out.push('\\');
        out.push('\\');
    } else if c == '\u{8}' {
        out.push('\\');
        out.push('b');
    } else if c == '\t' {
        out.push('\\');
        out.push('t');
    } else if c == '\n' {
        out.push('\\');
        out.push('n');
    } else if c == '\u{c}' {
        out.push('\\');
        out.push('f');
    } else if c == '\r' {
        out.push('\\');
        out.push('r');
    } else if ' ' > c {
        let code = c as u32;
        out.push('\\');
        out.push('u');
        out.push('0');
        out.push('0');
        out.push(hex_char_exec((code / 16) as u8));
        out.push(hex_char_exec((code % 16) as u8));
    } else {
        out.push(c);
    }
    assert(out@ =~= old(out)@ + json_escape_char(c));
}

/// Appends the JSON string-literal text of `chars` to `out`.
pub fn append_json_escaped(out: &mut Vec<char>, chars: &Vec<char>)
    ensures
        final(out)@ == old(out)@ + json_escape(chars@),
{
    let ghost base = out@;
    proof {
        assert(chars@.subrange(0, chars@.len() as int) =~= chars@);
    }
    let mut i: usize = 0;
    while i < chars.len()
        invariant
            i <= chars@.len(),
            base + json_escape(chars@) == out@ + json_escape(chars@.subrange(i as int, chars@.len() as int)),
        decreases chars@.len() - i,
    {
        let ghost rest = chars@.subrange(i as int, chars@.len() as int);
        proof {
            assert(rest[0] == chars@[i as int]);
            assert(rest.subrange(1, rest.len() as int) =~= chars@.subrange(
                i + 1 as int,
                chars@.len() as int,
            ));
        }
        push_json_escape_char(out, chars[i]);
        i = i + 1;
    }
    proof {
        assert(chars@.subrange(chars@.len() as int, chars@.len() as int) =~= Seq::<
            char,
        >::empty());
        assert(json_escape(Seq::<char>::empty()) =~= Seq::<char>::empty());
        assert(out@ + Seq::<char>::empty() =~= out@);
        assert(base + json_escape(chars@) =~= out@);
    }
}

/// True when `c` undoes to a character under a single-character escape.
pub open spec fn is_simple_escape(c: char) -> bool {
    c == '"' || c == '\\' || c == '/' || c == 'b' || c == 't' || c == 'n' || c == 'f' || c == 'r'
}

/// The character a single-character escape stands for.
pub open spec fn simple_unescape(c: char) -> char {
    if c == 'b' {
        '\u{8}'
    } else if c == 't' {
        '\t'
    } else if c == 'n' {
        '\n'
    } else if c == 'f' {
        '\u{c}'
    } else if c == 'r' {
        '\r'
    } else {
        c
    }
}

/// Reads a JSON string-literal body back to the characters it denotes.
/// Accepts the single-character escapes, `\u00..` escapes of one byte, and
/// plain characters; an unescaped quote or control character, or a malformed
/// escape, is a failure.
pub open spec fn json_unescape(s: Seq<char>) -> Option<Seq<char>>
    decreases s.len(),
{
    if s.len() == 0 {
        Some(Seq::empty())
    } else if s[0] == '\\' {
        if s.len() >= 2 && is_simple_escape(s[1]) {
            match json_unescape(s.subrange(2, s.len() as int)) {
                Some(r) => Some(seq![simple_unescape(s[1])] + r),
                None => None,
            }
        } else if s.len() >= 6 && s[1] == 'u' && s[2] == '0' && s[3] == '0' && is_hex_digit(s[4])
            && is_hex_digit(s[5]) {
            let code = 16 * hex_digit_value(s[4]) + hex_digit_value(s[5]);
            match json_unescape(s.subrange(6, s.len() as int)) {
                Some(r) => Some(seq![(code as u8) as char] + r),
                None => None,
            }
        } else {
            None
        }
    } else if s[0] == '"' || ' ' > s[0] {
        None
    } else {
        match json_unescape(s.subrange(1, s.len() as int)) {
            Some(r) => Some(seq![s[0]] + r),
            None => None,
        }
    }
}

/// Reads a JSON string-literal body; `None` exactly where [`json_unescape`]
/// fails.
pub fn json_unescape_exec(chars: &Vec<char>) -> (ret: Option<Vec<char>>)
    ensures
        match json_unescape(chars@) {
            Some(r) => ret matches Some(v) && v@ == r,
            None => ret is None,
        },
{
    let mut out: Vec<char> = Vec::new();
    let n = chars.len();
    proof {
        assert(chars@.subrange(0, n as int) =~= chars@);
    }
    let mut i: usize = 0;
    while i < n
        invariant
            i <= n,
            n == chars@.len(),
            match json_unescape(chars@.subrange(i as int, n as int)) {
                Some(r) => json_unescape(chars@) == Some(out@ + r),
                None => json_unescape(chars@) is None,
            },
        decreases n - i,
    {
        let ghost rest = chars@.subrange(i as int, n as int);
        proof {
            assert(rest[0] == chars@[i as int]);
        }
        let c = chars[i];
        if c == '\\' {
            if i + 1 < n {
                let e = chars[i + 1];
                proof {
                    assert(rest[1] == chars@[i + 1]);
                }
                if e == '"' || e == '\\' || e == '/' || e == 'b' || e == 't' || e == 'n' || e
                    == 'f' || e == 'r' {
                    proof {
                        assert(rest.subrange(2, rest.len() as int) =~= chars@.subrange(
                            i + 2 as int,
                            n as int,
                        ));
                    }
                    let u = if e == 'b' {
                        '\u{8}'
                    } else if e == 't' {
                        '\t'
                    } else if e == 'n' {
                        '\n'
                    } else if e == 'f' {
                        '\u{c}'
                    } else if e == 'r' {
                        '\r'
                    } else {
                        e
                    };
                    out.push(u);
                    proof {
                        if let Some(r2) = json_unescape(chars@.subrange(i + 2 as int, n as int)) {
                            assert(out@ + r2 =~= out@.drop_last() + (seq![u] + r2));
                        }
                    }
                    i = i + 2;
                } else if e == 'u' && n - i > 5 {
                    proof {
                        assert(rest[2] == chars@[i + 2]);
                        assert(rest[3] == chars@[i + 3]);
                        assert(rest[4] == chars@[i + 4]);
                        assert(rest[5] == chars@[i + 5]);
                    }
                    let d2 = chars[i + 2];
                    let d3 = chars[i + 3];
                    let d4 = chars[i + 4];
                    let d5 = chars[i + 5];
                    if d2 == '0' && d3 == '0' && is_hex_digit_exec(d4) && is_hex_digit_exec(d5) {
                        proof {
                            assert(rest.subrange(6, rest.len() as int) =~= chars@.subrange(
                                i + 6 as int,
                                n as int,
                            ));
                        }
                        let code: u8 = 16 * hex_digit_value_exec(d4) + hex_digit_value_exec(d5);
                        let u = code as char;
                        out.push(u);
                        proof {
                            if let Some(r2) = json_unescape(
                                chars@.subrange(i + 6 as int, n as int),
                            ) {
                                assert(out@ + r2 =~= out@.drop_last() + (seq![u] + r2));
                            }
                        }
                        i = i + 6;
                    } else {
                        return None;
                    }
                } else {
                    return None;
                }
            } else {
                return None;
            }
        } else if c == '"' || ' ' > c {
            return None;
        } else {
            proof {
                assert(rest.subrange(1, rest.len() as int) =~= chars@.subrange(
                    i + 1 as int,
                    n as int,
                ));
            }
            out.push(c);
            proof {
                if let Some(r2) = json_unescape(chars@.subrange(i + 1 as int, n as int)) {
                    assert(out@ + r2 =~= out@.drop_last() + (seq![c] + r2));
                }
            }
            i = i + 1;
        }
    }
    proof {
        assert(chars@.subrange(n as int, n as int) =~= Seq::<char>::empty());
        assert(out@ + Seq::<char>::empty() =~= out@);
    }
    Some(out)
}

/// True when a byte stands for itself in a percent-encoded query component:
/// ASCII letters, digits, `-`, `_`, `.` and `~`.
pub open spec fn is_unreserved_byte(b: u8) -> bool {
    (0x41 <= b <= 0x5a) || (0x61 <= b <= 0x7a) || (0x30 <= b <= 0x39) || b == 0x2d || b == 0x5f
        || b == 0x2e || b == 0x7e
}

/// The percent-encoded text of one byte: itself when unreserved, else a `%`
/// escape with uppercase digits.
pub open spec fn pct_byte(b: u8) -> Seq<char> {
    if is_unreserved_byte(b) {
        seq![b as char]
    } else {
        seq!['%', hex_char_upper(b as int / 16), hex_char_upper(b as int % 16)]
    }
}

/// The percent-encoded text of a byte sequence.
pub open spec fn pct_encode(bs: Seq<u8>) -> Seq<char>
    decreases bs.len(),
{
    if bs.len() == 0 {
        Seq::empty()
    } else {
        pct_byte(bs[0]) + pct_encode(bs.subrange(1, bs.len() as int))
    }
}

/// Appends the percent-encoded text of `bytes` to `out`.
pub fn append_pct_encoded(out: &mut Vec<char>, bytes: &[u8])
    ensures
        final(out)@ == old(out)@ + pct_encode(bytes@),
{
    let ghost base = out@;
    let n = bytes.len();
    proof {
        assert(bytes@.subrange(0, n as int) =~= bytes@);
    }
    let mut i: usize = 0;
    while i < n
        invariant
            i <= n,
            n == bytes@.len(),
            base + pct_encode(bytes@) == out@ + pct_encode(bytes@.subrange(i as int, n as int)),
        decreases n - i,
    {
        let ghost rest = bytes@.subrange(i as int, n as int);
        proof {
            assert(rest[0] == bytes@[i as int]);
            assert(rest.subrange(1, rest.len() as int) =~= bytes@.subrange(
                i + 1 as int,
                n as int,
            ));
        }
        let b = bytes[i];
        let ghost before = out@;
        if (0x41 <= b && b <= 0x5a) || (0x61 <= b && b <= 0x7a) || (0x30 <= b && b <= 0x39) || b
            == 0x2d || b == 0x5f || b == 0x2e || b == 0x7e {
            out.push(b as char);
        } else {
            out.push('%');
            out.push(hex_char_upper_exec(b / 16));
            out.push(hex_char_upper_exec(b % 16));
        }
        assert(out@ =~= before + pct_byte(b));
        i = i + 1;
    }
    proof {
        assert(bytes@.subrange(n as int, n as int) =~= Seq::<u8>::empty());
        assert(pct_encode(Seq::<u8>::empty()) =~= Seq::<char>::empty());
        assert(out@ + Seq::<char>::empty() =~= out@);
        assert(base + pct_encode(bytes@) =~= out@);
    }
}

} // verus!
