//! Row queries and their deterministic query-string serialization.

use vstd::prelude::*;
use vstd::utf8::encode_utf8;
use crate::hex::{dec_render, dec_seq};
use crate::escape::{append_pct_encoded, pct_encode};
use crate::strutil::{append_str_chars, chars_to_string, join_sep};

verus! {

/// Parameters of a row query. Serialization is deterministic: the keys
/// appear in the fixed order `offset`, `limit`, `search`, absent fields
/// skipped, and the search text percent-encoded.
#[derive(Clone, Debug)]
pub struct CmsQuery {
    pub offset: Option<u64>,
    pub limit: Option<u64>,
    pub search: Option<String>,
}

impl CmsQuery {
    /// A query with nothing set: every row, no filter.
    pub fn new() -> (r: CmsQuery)
        ensures
            r.offset is None,
            r.limit is None,
            r.search is None,
    {
        CmsQuery { offset: None, limit: None, search: None }
    }
}

/// The `key=value` pairs of a query, in their fixed serialization order.
pub open spec fn spec_query_parts(q: CmsQuery) -> Seq<Seq<char>> {
    let offset_part: Seq<Seq<char>> = match q.offset {
        Some(v) => seq!["offset="@ + dec_seq(v as nat)],
        None => Seq::empty(),
    };
    let limit_part: Seq<Seq<char>> = match q.limit {
        Some(v) => seq!["limit="@ + dec_seq(v as nat)],
        None => Seq::empty(),
    };
    let search_part: Seq<Seq<char>> = match q.search {
        Some(s) => seq!["search="@ + pct_encode(encode_utf8(s@))],
        None => Seq::empty(),
    };
    offset_part + limit_part + search_part
}

/// The deterministic query string of a query: present fields in the fixed
/// key order, joined with `&`.
pub open spec fn spec_query_string(q: CmsQuery) -> Seq<char> {
    join_sep(spec_query_parts(q), '&')
}

/// Appends `key=` followed by the decimal digits of `v`.
fn append_numeric_part(out: &mut Vec<char>, key: &str, v: u64)
    ensures
        final(out)@ == old(out)@ + key@ + "="@ + dec_seq(v as nat),
{
    append_str_chars(out, key);
    append_str_chars(out, "=");
    let mut digits = dec_render(v);
    let ghost before = out@;
    let mut i: usize = 0;
    while i < digits.len()
        invariant
            i <= digits@.len(),
            digits@ == dec_seq(v as nat),
            out@ == before + digits@.subrange(0, i as int),
        decreases digits@.len() - i,
    {
        out.push(digits[i]);
        proof {
            assert(out@ =~= before + digits@.subrange(0, i + 1 as int));
        }
        i = i + 1;
    }
    proof {
        assert(digits@.subrange(0, digits@.len() as int) =~= digits@);
    }
}

/// Renders the deterministic query string of `q`.
pub fn query_string(q: &CmsQuery) -> (r: String)
    ensures
        r@ == spec_query_string(*q),
{
    let mut out: Vec<char> = Vec::new();
    let mut any: bool = false;
    let ghost parts = spec_query_parts(*q);

    if let Some(v) = &q.offset {
        append_numeric_part(&mut out, "offset", *v);
        any = true;
        proof {
            assert(out@ =~= "offset="@ + dec_seq(*v as nat)) by {
                assert(Seq::<char>::empty() + "offset"@ + "="@ + dec_seq(*v as nat) =~= "offset="@
                    + dec_seq(*v as nat)) by {
                    str_eq_offset();
                }
            }
        }
    }
    let ghost after_offset = out@;
    let ghost parts_offset: Seq<Seq<char>> = match q.offset {
        Some(v) => seq!["offset="@ + dec_seq(v as nat)],
        None => Seq::empty(),
    };
    proof {
        assert(after_offset =~= join_sep(parts_offset, '&'));
    }

    if let Some(v) = &q.limit {
        if any {
            out.push('&');
        }
        append_numeric_part(&mut out, "limit", *v);
        any = true;
    }
    let ghost parts_limit: Seq<Seq<char>> = match q.limit {
        Some(v) => seq!["limit="@ + dec_seq(v as nat)],
        None => Seq::empty(),
    };
    let ghost after_limit = out@;
    proof {
        if let Some(v) = q.limit {
            str_eq_limit();
            if q.offset is Some {
                assert((parts_offset + parts_limit).drop_last() =~= parts_offset);
                assert(after_limit =~= join_sep(parts_offset + parts_limit, '&'));
            } else {
                assert(parts_offset + parts_limit =~= parts_limit);
                assert(after_limit =~= join_sep(parts_offset + parts_limit, '&'));
            }
        } else {
            assert(parts_offset + parts_limit =~= parts_offset);
            assert(after_limit =~= join_sep(parts_offset + parts_limit, '&'));
        }
    }

    if let Some(s) = &q.search {
        if any {
            out.push('&');
        }
        append_str_chars(&mut out, "search");
        append_str_chars(&mut out, "=");
        append_pct_encoded(&mut out, s.as_str().as_bytes());
    }
    let ghost parts_search: Seq<Seq<char>> = match &q.search {
        Some(s) => seq!["search="@ + pct_encode(encode_utf8(s@))],
        None => Seq::empty(),
    };
    proof {
        let all = parts_offset + parts_limit + parts_search;
        if let Some(s) = &q.search {
            str_eq_search();
            if q.offset is Some || q.limit is Some {
                assert(all.drop_last() =~= parts_offset + parts_limit);
                assert(all.last() =~= "search="@ + pct_encode(encode_utf8(s@)));
                assert(out@ =~= join_sep(all, '&'));
            } else {
                assert(all =~= parts_search);
                assert(out@ =~= join_sep(all, '&'));
            }
        } else {
            assert(all =~= parts_offset + parts_limit);
            assert(out@ =~= join_sep(all, '&'));
        }
        assert(parts =~= parts_offset + parts_limit + parts_search);
    }
    chars_to_string(&out)
}

/// The literal `offset=` is `offset` followed by `=`.
proof fn str_eq_offset()
    ensures
        "offset"@ + "="@ =~= "offset="@,
{
    reveal_strlit("offset");
    reveal_strlit("=");
    reveal_strlit("offset=");
}

/// The literal `limit=` is `limit` followed by `=`.
proof fn str_eq_limit()
    ensures
        "limit"@ + "="@ =~= "limit="@,
{
    reveal_strlit("limit");
    reveal_strlit("=");
    reveal_strlit("limit=");
}

/// The literal `search=` is `search` followed by `=`.
proof fn str_eq_search()
    ensures
        "search"@ + "="@ =~= "search="@,
{
    reveal_strlit("search");
    reveal_strlit("=");
    reveal_strlit("search=");
}

} // verus!
