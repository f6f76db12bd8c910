//! Typed, ordered, nil-capable resource identifiers.
//!
//! An identifier is an opaque 128-bit value wrapped per semantic kind. The
//! all-zero value means "none/unset". Identifiers render to the canonical
//! hyphenated lowercase hexadecimal text (8-4-4-4-12 digits) and parse back
//! from it; parsing also accepts uppercase digits. Distinct kinds are never
//! implicitly interchangeable: conversion goes through an explicit, named
//! mapping.

use vstd::prelude::*;
use vstd::arithmetic::div_mod::{lemma_mod_breakdown, lemma_small_mod};
use crate::hex::{
    hex_char, hex_char_exec, hex_digit_value, hex_digit_value_exec, is_hex_digit,
    is_hex_digit_exec,
};
use crate::strutil::{chars_to_string, str_chars};

verus! {

/// Powers of sixteen: the number of digit strings of a given width.
pub open spec fn pow16(w: nat) -> nat
    decreases w,
{
    if w == 0 {
        1
    } else {
        16 * pow16((w - 1) as nat)
    }
}

pub proof fn lemma_pow16_pos(w: nat)
    ensures
        pow16(w) >= 1,
    decreases w,
{
    if w > 0 {
        lemma_pow16_pos((w - 1) as nat);
    }
}

pub proof fn lemma_pow16_mono(a: nat, b: nat)
    requires
        a <= b,
    ensures
        pow16(a) <= pow16(b),
    decreases b,
{
    if a < b {
        lemma_pow16_mono(a, (b - 1) as nat);
        lemma_pow16_pos((b - 1) as nat);
    }
}

/// 16^32 is exactly one more than the largest 128-bit value.
pub proof fn lemma_pow16_32()
    ensures
        pow16(32) == 0x100000000000000000000000000000000,
{
    reveal_with_fuel(pow16, 33);
}

/// The hexadecimal digits of `v`, most significant first, zero-padded to
/// `width` digits (only the lowest `width` digits of `v` are rendered).
pub open spec fn hex_seq(v: nat, width: nat) -> Seq<char>
    decreases width,
{
    if width == 0 {
        Seq::empty()
    } else {
        hex_seq(v / 16, (width - 1) as nat) + seq![hex_char((v % 16) as int)]
    }
}

/// True when every character of `s` is a hexadecimal digit.
pub open spec fn all_hex_digits(s: Seq<char>) -> bool {
    forall|i: int| 0 <= i < s.len() ==> is_hex_digit(#[trigger] s[i])
}

/// The numeric value of a sequence of hexadecimal digits, most significant
/// first.
pub open spec fn hex_value(s: Seq<char>) -> int
    decreases s.len(),
{
    if s.len() == 0 {
        0
    } else {
        hex_value(s.drop_last()) * 16 + hex_digit_value(s.last())
    }
}

pub proof fn lemma_hex_seq_wf(v: nat, width: nat)
    ensures
        hex_seq(v, width).len() == width,
        all_hex_digits(hex_seq(v, width)),
    decreases width,
{
    if width > 0 {
        lemma_hex_seq_wf(v / 16, (width - 1) as nat);
        let s = hex_seq(v, width);
        assert forall|i: int| 0 <= i < s.len() implies is_hex_digit(#[trigger] s[i]) by {
            if i < width - 1 {
                assert(s[i] == hex_seq(v / 16, (width - 1) as nat)[i]);
            } else {
                assert(s[i] == hex_char((v % 16) as int));
            }
        }
    }
}

pub proof fn lemma_hex_value_bound(s: Seq<char>)
    requires
        all_hex_digits(s),
    ensures
        0 <= hex_value(s) < pow16(s.len()),
    decreases s.len(),
{
    if s.len() > 0 {
        let prefix = s.drop_last();
        assert(all_hex_digits(prefix)) by {
            assert forall|i: int| 0 <= i < prefix.len() implies is_hex_digit(
                #[trigger] prefix[i],
            ) by {
                assert(prefix[i] == s[i]);
            }
        }
        lemma_hex_value_bound(prefix);
        assert(is_hex_digit(s.last()));
        assert(0 <= hex_digit_value(s.last()) < 16);
        assert(hex_value(prefix) * 16 + hex_digit_value(s.last()) < pow16(prefix.len()) * 16)
            by (nonlinear_arith)
            requires
                0 <= hex_value(prefix) < pow16(prefix.len()),
                0 <= hex_digit_value(s.last()) < 16,
        ;
        assert(pow16(s.len()) == 16 * pow16(prefix.len()));
    }
}

/// Rendering a value to `width` hex digits and reading them back yields the
/// value modulo `16^width`.
pub proof fn lemma_hex_value_of_hex_seq(v: nat, width: nat)
    ensures
        hex_value(hex_seq(v, width)) == v % pow16(width),
    decreases width,
{
    if width == 0 {
        assert(v % 1 == 0) by {
            lemma_small_mod(0, 1);
            assert(v % 1 == 0) by (nonlinear_arith);
        }
    } else {
        lemma_hex_value_of_hex_seq(v / 16, (width - 1) as nat);
        let s = hex_seq(v, width);
        let prefix = hex_seq(v / 16, (width - 1) as nat);
        lemma_hex_seq_wf(v / 16, (width - 1) as nat);
        assert(s.drop_last() =~= prefix);
        assert(s.last() == hex_char((v % 16) as int));
        assert(hex_digit_value(hex_char((v % 16) as int)) == v % 16);
        lemma_pow16_pos((width - 1) as nat);
        lemma_mod_breakdown(v as int, 16, pow16((width - 1) as nat) as int);
        assert(hex_value(s) == ((v as int / 16) % pow16((width - 1) as nat) as int) * 16 + (
        v as int % 16));
    }
}

/// Renders the lowest `width` hexadecimal digits of `v`, most significant
/// first.
pub fn hex_render(v: u128, width: usize) -> (r: Vec<char>)
    ensures
        r@ == hex_seq(v as nat, width as nat),
    decreases width,
{
    if width == 0 {
        Vec::new()
    } else {
        let mut r = hex_render(v / 16, width - 1);
        r.push(hex_char_exec((v % 16) as u8));
        r
    }
}

/// Reads the numeric value of the first `n` characters of `digits`.
pub fn hex_value_exec(digits: &Vec<char>, n: usize) -> (r: u128)
    requires
        n <= digits@.len(),
        n <= 32,
        all_hex_digits(digits@.subrange(0, n as int)),
    ensures
        r as int == hex_value(digits@.subrange(0, n as int)),
    decreases n,
{
    if n == 0 {
        0
    } else {
        let ghost prefix = digits@.subrange(0, n as int).drop_last();
        proof {
            assert(prefix =~= digits@.subrange(0, n as int - 1));
            assert(all_hex_digits(prefix)) by {
                assert forall|i: int| 0 <= i < prefix.len() implies is_hex_digit(
                    #[trigger] prefix[i],
                ) by {
                    assert(prefix[i] == digits@.subrange(0, n as int)[i]);
                }
            }
            lemma_hex_value_bound(prefix);
            lemma_pow16_mono((n - 1) as nat, 31);
            lemma_pow16_32();
            reveal_with_fuel(pow16, 2);
            assert(pow16(32) == 16 * pow16(31));
            assert(hex_value(prefix) * 16 + 15 < pow16(31) * 16)
                by (nonlinear_arith)
                requires
                    0 <= hex_value(prefix) < pow16(31) as int,
            ;
        }
        let acc = hex_value_exec(digits, n - 1);
        assert(is_hex_digit(digits@[n - 1])) by {
            assert(digits@.subrange(0, n as int)[n - 1] == digits@[n - 1]);
        }
        let d = hex_digit_value_exec(digits[n - 1]);
        assert(digits@.subrange(0, n as int).last() == digits@[n - 1]);
        acc * 16 + (d as u128)
    }
}

/// The canonical hyphenated lowercase text of a 128-bit identifier value:
/// 8, 4, 4, 4 and 12 hexadecimal digits separated by hyphens.
pub open spec fn uuid_chars(v: nat) -> Seq<char> {
    let h = hex_seq(v, 32);
    h.subrange(0, 8) + seq!['-'] + h.subrange(8, 12) + seq!['-'] + h.subrange(12, 16)
        + seq!['-'] + h.subrange(16, 20) + seq!['-'] + h.subrange(20, 32)
}

/// True when `s` is well-formed hyphenated identifier text: 36 characters,
/// hyphens at positions 8, 13, 18 and 23, hexadecimal digits elsewhere.
pub open spec fn is_uuid_text(s: Seq<char>) -> bool {
    &&& s.len() == 36
    &&& s[8] == '-'
    &&& s[13] == '-'
    &&& s[18] == '-'
    &&& s[23] == '-'
    &&& forall|i: int|
        0 <= i < 36 && i != 8 && i != 13 && i != 18 && i != 23 ==> is_hex_digit(#[trigger] s[i])
}

/// The 32 digit characters of well-formed identifier text, hyphens removed.
pub open spec fn uuid_digits(s: Seq<char>) -> Seq<char> {
    s.subrange(0, 8) + s.subrange(9, 13) + s.subrange(14, 18) + s.subrange(19, 23) + s.subrange(
        24,
        36,
    )
}

/// What parsing identifier text yields: the digits' value on well-formed
/// text, nothing otherwise.
pub open spec fn spec_parse_uuid(s: Seq<char>) -> Option<u128> {
    if is_uuid_text(s) {
        Some(hex_value(uuid_digits(s)) as u128)
    } else {
        None
    }
}

/// The error returned when identifier text is malformed.
#[derive(Clone, Copy, Debug, PartialEq, Eq, Structural)]
pub struct MalformedIdError;

/// An opaque 128-bit identifier value. The all-zero value means
/// "none/unset". Ordering and equality follow the underlying value.
#[derive(Clone, Copy, Debug, PartialEq, Eq, Structural, PartialOrd, Ord, Hash)]
pub struct UuidValue {
    pub value: u128,
}

impl UuidValue {
    /// The distinguished "none/unset" identifier value.
    pub fn none() -> (r: UuidValue)
        ensures
            r.value == 0,
    {
        UuidValue { value: 0 }
    }

    /// True exactly on the all-zero value.
    pub fn is_none(self) -> (r: bool)
        ensures
            r == (self.value == 0),
    {
        self.value == 0
    }

    pub fn from_value(v: u128) -> (r: UuidValue)
        ensures
            r.value == v,
    {
        UuidValue { value: v }
    }

    /// Renders the canonical hyphenated lowercase text of this identifier.
    pub fn render(&self) -> (r: String)
        ensures
            r@ == uuid_chars(self.value as nat),
    {
        let h = hex_render(self.value, 32);
        proof {
            lemma_hex_seq_wf(self.value as nat, 32);
        }
        let mut out: Vec<char> = Vec::new();
        let mut i: usize = 0;
        while i < 8
            invariant
                h@ == hex_seq(self.value as nat, 32),
                h@.len() == 32,
                i <= 8,
                out@ == h@.subrange(0, i as int),
            decreases 8 - i,
        {
            out.push(h[i]);
            proof {
                assert(out@ =~= h@.subrange(0, i + 1 as int));
            }
            i = i + 1;
        }
        out.push('-');
        let ghost part1 = h@.subrange(0, 8) + seq!['-'];
        assert(out@ =~= part1);
        i = 8;
        while i < 12
            invariant
                h@ == hex_seq(self.value as nat, 32),
                h@.len() == 32,
                8 <= i <= 12,
                out@ == part1 + h@.subrange(8, i as int),
            decreases 12 - i,
        {
            out.push(h[i]);
            proof {
                assert(out@ =~= part1 + h@.subrange(8, i + 1 as int));
            }
            i = i + 1;
        }
        out.push('-');
        let ghost part2 = part1 + h@.subrange(8, 12) + seq!['-'];
        assert(out@ =~= part2);
        i = 12;
        while i < 16
            invariant
                h@ == hex_seq(self.value as nat, 32),
                h@.len() == 32,
                12 <= i <= 16,
                out@ == part2 + h@.subrange(12, i as int),
            decreases 16 - i,
        {
            out.push(h[i]);
            proof {
                assert(out@ =~= part2 + h@.subrange(12, i + 1 as int));
            }
            i = i + 1;
        }
        out.push('-');
        let ghost part3 = part2 + h@.subrange(12, 16) + seq!['-'];
        assert(out@ =~= part3);
        i = 16;
        while i < 20
            invariant
                h@ == hex_seq(self.value as nat, 32),
                h@.len() == 32,
                16 <= i <= 20,
                out@ == part3 + h@.subrange(16, i as int),
            decreases 20 - i,
        {
            out.push(h[i]);
            proof {
                assert(out@ =~= part3 + h@.subrange(16, i + 1 as int));
            }
            i = i + 1;
        }
        out.push('-');
        let ghost part4 = part3 + h@.subrange(16, 20) + seq!['-'];
        assert(out@ =~= part4);
        i = 20;
        while i < 32
            invariant
                h@ == hex_seq(self.value as nat, 32),
                h@.len() == 32,
                20 <= i <= 32,
                out@ == part4 + h@.subrange(20, i as int),
            decreases 32 - i,
        {
            out.push(h[i]);
            proof {
                assert(out@ =~= part4 + h@.subrange(20, i + 1 as int));
            }
            i = i + 1;
        }
        assert(out@ =~= uuid_chars(self.value as nat));
        chars_to_string(&out)
    }

    /// Parses hyphenated identifier text, lowercase or uppercase digits.
    /// Fails with a malformed-identifier error on any other text.
    pub fn parse(s: &str) -> (r: Result<UuidValue, MalformedIdError>)
        ensures
            match spec_parse_uuid(s@) {
                Some(v) => r == Ok::<UuidValue, MalformedIdError>(UuidValue { value: v }),
                None => r == Err::<UuidValue, MalformedIdError>(MalformedIdError),
            },
    {
        let chars = str_chars(s);
        if chars.len() != 36 {
            return Err(MalformedIdError);
        }
        if !(*char_at(&chars, 8) == '-' && *char_at(&chars, 13) == '-' && *char_at(&chars, 18)
            == '-' && *char_at(&chars, 23) == '-') {
            return Err(MalformedIdError);
        }
        let mut digits: Vec<char> = Vec::new();
        let mut i: usize = 0;
        while i < 36
            invariant
                chars@ == s@,
                chars@.len() == 36,
                i <= 36,
                digits@ == uuid_digits_prefix(chars@, i as int),
                forall|j: int|
                    0 <= j < i && j != 8 && j != 13 && j != 18 && j != 23 ==> is_hex_digit(
                        #[trigger] chars@[j],
                    ),
            decreases 36 - i,
        {
            let c = *char_at(&chars, i);
            if i == 8 || i == 13 || i == 18 || i == 23 {
                // hyphen positions were checked above
            } else {
                if !is_hex_digit_exec(c) {
                    return Err(MalformedIdError);
                }
                digits.push(c);
            }
            proof {
                assert(digits@ =~= uuid_digits_prefix(chars@, i + 1 as int));
            }
            i = i + 1;
        }
        assert(is_uuid_text(s@));
        assert(digits@ =~= uuid_digits(s@));
        proof {
            assert(digits@.len() == 32);
            assert forall|j: int| 0 <= j < digits@.len() implies is_hex_digit(
                #[trigger] digits@[j],
            ) by {
                if j < 8 {
                    assert(digits@[j] == s@[j]);
                } else if j < 12 {
                    assert(digits@[j] == s@[j + 1]);
                } else if j < 16 {
                    assert(digits@[j] == s@[j + 2]);
                } else if j < 20 {
                    assert(digits@[j] == s@[j + 3]);
                } else {
                    assert(digits@[j] == s@[j + 4]);
                }
            }
            assert(digits@.subrange(0, 32) =~= digits@);
            lemma_hex_value_bound(digits@);
            lemma_pow16_32();
        }
        let v = hex_value_exec(&digits, 32);
        Ok(UuidValue { value: v })
    }
}

/// The digit characters among the first `n` characters of identifier text,
/// hyphen positions skipped.
pub open spec fn uuid_digits_prefix(s: Seq<char>, n: int) -> Seq<char> {
    if n <= 8 {
        s.subrange(0, n)
    } else if n <= 9 {
        s.subrange(0, 8)
    } else if n <= 13 {
        s.subrange(0, 8) + s.subrange(9, n)
    } else if n <= 14 {
        s.subrange(0, 8) + s.subrange(9, 13)
    } else if n <= 18 {
        s.subrange(0, 8) + s.subrange(9, 13) + s.subrange(14, n)
    } else if n <= 19 {
        s.subrange(0, 8) + s.subrange(9, 13) + s.subrange(14, 18)
    } else if n <= 23 {
        s.subrange(0, 8) + s.subrange(9, 13) + s.subrange(14, 18) + s.subrange(19, n)
    } else if n <= 24 {
        s.subrange(0, 8) + s.subrange(9, 13) + s.subrange(14, 18) + s.subrange(19, 23)
    } else {
        s.subrange(0, 8) + s.subrange(9, 13) + s.subrange(14, 18) + s.subrange(19, 23)
            + s.subrange(24, n)
    }
}

/// Reference into a character vector; keeps parsing code free of slice
/// syntax.
fn char_at(v: &Vec<char>, i: usize) -> (r: &char)
    requires
        i < v@.len(),
    ensures
        *r == v@[i as int],
{
    &v[i]
}

/// Rendering an identifier and parsing the text back yields the identifier:
/// the stable-text law for every 128-bit value.
pub proof fn lemma_parse_render_roundtrip(v: u128)
    ensures
        spec_parse_uuid(uuid_chars(v as nat)) == Some(v),
{
    let h = hex_seq(v as nat, 32);
    lemma_hex_seq_wf(v as nat, 32);
    let s = uuid_chars(v as nat);
    assert(s.len() == 36);
    assert(s[8] == '-');
    assert(s[13] == '-');
    assert(s[18] == '-');
    assert(s[23] == '-');
    assert forall|i: int|
        0 <= i < 36 && i != 8 && i != 13 && i != 18 && i != 23 implies is_hex_digit(
        #[trigger] s[i],
    ) by {
        if i < 8 {
            assert(s[i] == h[i]);
        } else if i < 13 {
            assert(s[i] == h[i - 1]);
        } else if i < 18 {
            assert(s[i] == h[i - 2]);
        } else if i < 23 {
            assert(s[i] == h[i - 3]);
        } else {
            assert(s[i] == h[i - 4]);
        }
    }
    assert(is_uuid_text(s));
    assert(uuid_digits(s) =~= h);
    lemma_hex_value_of_hex_seq(v as nat, 32);
    lemma_pow16_32();
    lemma_small_mod(v as nat, pow16(32));
}

/// Rendering is injective: two identifiers with the same text are the same
/// identifier, so rendered text is a stable key.
pub proof fn lemma_render_injective(a: u128, b: u128)
    requires
        uuid_chars(a as nat) == uuid_chars(b as nat),
    ensures
        a == b,
{
    lemma_parse_render_roundtrip(a);
    lemma_parse_render_roundtrip(b);
}

/// Identifier of a website (tenant) instance.
#[derive(Clone, Copy, Debug, PartialEq, Eq, Structural, PartialOrd, Ord, Hash)]
pub struct WebsiteUuid(pub UuidValue);

/// Identifier of a member (account).
#[derive(Clone, Copy, Debug, PartialEq, Eq, Structural, PartialOrd, Ord, Hash)]
pub struct MemberUuid(pub UuidValue);

/// Identifier of an addon instance.
#[derive(Clone, Copy, Debug, PartialEq, Eq, Structural, PartialOrd, Ord, Hash)]
pub struct AddonInstanceUuid(pub UuidValue);

impl WebsiteUuid {
    /// The "none/unset" website identifier.
    pub fn none() -> (r: WebsiteUuid)
        ensures
            r.0.value == 0,
    {
        WebsiteUuid(UuidValue::none())
    }

    /// True exactly on the all-zero value.
    pub fn is_none(self) -> (r: bool)
        ensures
            r == (self.0.value == 0),
    {
        self.0.is_none()
    }

    pub fn from_value(v: u128) -> (r: WebsiteUuid)
        ensures
            r.0.value == v,
    {
        WebsiteUuid(UuidValue::from_value(v))
    }

    /// Renders the canonical hyphenated lowercase text.
    pub fn render(&self) -> (r: String)
        ensures
            r@ == uuid_chars(self.0.value as nat),
    {
        self.0.render()
    }

    /// Parses hyphenated identifier text; fails on malformed text.
    pub fn parse(s: &str) -> (r: Result<WebsiteUuid, MalformedIdError>)
        ensures
            match spec_parse_uuid(s@) {
                Some(v) => r == Ok::<WebsiteUuid, MalformedIdError>(
                    WebsiteUuid(UuidValue { value: v }),
                ),
                None => r == Err::<WebsiteUuid, MalformedIdError>(MalformedIdError),
            },
    {
        match UuidValue::parse(s) {
            Ok(v) => Ok(WebsiteUuid(v)),
            Err(e) => Err(e),
        }
    }
}

impl MemberUuid {
    /// The "none/unset" member identifier.
    pub fn none() -> (r: MemberUuid)
        ensures
            r.0.value == 0,
    {
        MemberUuid(UuidValue::none())
    }

    /// True exactly on the all-zero value.
    pub fn is_none(self) -> (r: bool)
        ensures
            r == (self.0.value == 0),
    {
        self.0.is_none()
    }

    pub fn from_value(v: u128) -> (r: MemberUuid)
        ensures
            r.0.value == v,
    {
        MemberUuid(UuidValue::from_value(v))
    }

    /// Renders the canonical hyphenated lowercase text.
    pub fn render(&self) -> (r: String)
        ensures
            r@ == uuid_chars(self.0.value as nat),
    {
        self.0.render()
    }

    /// Parses hyphenated identifier text; fails on malformed text.
    pub fn parse(s: &str) -> (r: Result<MemberUuid, MalformedIdError>)
        ensures
            match spec_parse_uuid(s@) {
                Some(v) => r == Ok::<MemberUuid, MalformedIdError>(
                    MemberUuid(UuidValue { value: v }),
                ),
                None => r == Err::<MemberUuid, MalformedIdError>(MalformedIdError),
            },
    {
        match UuidValue::parse(s) {
            Ok(v) => Ok(MemberUuid(v)),
            Err(e) => Err(e),
        }
    }
}

impl AddonInstanceUuid {
    /// The "none/unset" addon-instance identifier.
    pub fn none() -> (r: AddonInstanceUuid)
        ensures
            r.0.value == 0,
    {
        AddonInstanceUuid(UuidValue::none())
    }

    /// True exactly on the all-zero value.
    pub fn is_none(self) -> (r: bool)
        ensures
            r == (self.0.value == 0),
    {
        self.0.is_none()
    }

    pub fn from_value(v: u128) -> (r: AddonInstanceUuid)
        ensures
            r.0.value == v,
    {
        AddonInstanceUuid(UuidValue::from_value(v))
    }

    /// Renders the canonical hyphenated lowercase text.
    pub fn render(&self) -> (r: String)
        ensures
            r@ == uuid_chars(self.0.value as nat),
    {
        self.0.render()
    }

    /// Parses hyphenated identifier text; fails on malformed text.
    pub fn parse(s: &str) -> (r: Result<AddonInstanceUuid, MalformedIdError>)
        ensures
            match spec_parse_uuid(s@) {
                Some(v) => r == Ok::<AddonInstanceUuid, MalformedIdError>(
                    AddonInstanceUuid(UuidValue { value: v }),
                ),
                None => r == Err::<AddonInstanceUuid, MalformedIdError>(MalformedIdError),
            },
    {
        match UuidValue::parse(s) {
            Ok(v) => Ok(AddonInstanceUuid(v)),
            Err(e) => Err(e),
        }
    }
}

} // verus!
