//! The general JSON text layer: whitespace, standard string escapes and
//! value skipping, for reading documents in any JSON spelling.
//!
//! The canonical layer in [`crate::json`] fixes one spelling per value and
//! is what this system writes. Other producers are free to add whitespace,
//! reorder keys, pick other escape forms or add fields, so the decoders
//! also accept the general form through the parsers here. Two bounds of
//! this layer: an escaped surrogate pair is rejected (a character outside
//! the basic plane must arrive as raw UTF-8), and skipped values are
//! matched by shape, not re-validated.

use vstd::prelude::*;
use vstd::string::*;

use crate::json::{lit_at, str_push_char};

verus! {

/// The JSON whitespace characters.
pub open spec fn is_json_ws(c: char) -> bool {
    c == ' ' || c == '\t' || c == '\n' || c == '\r'
}

/// The end of the whitespace run starting at `i`.
pub open spec fn ws_end(s: Seq<char>, i: int) -> int
    decreases s.len() - i,
{
    if 0 <= i < s.len() && is_json_ws(s[i]) {
        ws_end(s, i + 1)
    } else {
        i
    }
}

fn json_ws(c: char) -> (r: bool)
    ensures
        r == is_json_ws(c),
{
    c == ' ' || c == '\t' || c == '\n' || c == '\r'
}

/// Walks past whitespace.
pub fn skip_ws(s: &Vec<char>, i: usize) -> (r: usize)
    requires
        i <= s@.len(),
    ensures
        r == ws_end(s@, i as int),
        i <= r <= s@.len(),
{
    let mut j: usize = i;
    loop
        invariant
            i <= j <= s@.len(),
            ws_end(s@, i as int) == ws_end(s@, j as int),
        decreases s@.len() - j,
    {
        if j < s.len() && json_ws(s[j]) {
            j = j + 1;
        } else {
            return j;
        }
    }
}

/// The value of a hexadecimal digit in either case, or -1.
pub open spec fn hex16(c: char) -> int {
    if '0' <= c && c <= '9' {
        c as u32 - '0' as u32
    } else if 'a' <= c && c <= 'f' {
        c as u32 - 'a' as u32 + 10
    } else if 'A' <= c && c <= 'F' {
        c as u32 - 'A' as u32 + 10
    } else {
        -1
    }
}

fn hex16_val(c: char) -> (r: i32)
    ensures
        r == hex16(c),
{
    if '0' <= c && c <= '9' {
        ((c as u32 - '0' as u32) as u8) as i32
    } else if 'a' <= c && c <= 'f' {
        ((c as u32 - 'a' as u32 + 10) as u8) as i32
    } else if 'A' <= c && c <= 'F' {
        ((c as u32 - 'A' as u32 + 10) as u8) as i32
    } else {
        -1
    }
}

/// Relies on std `char::from_u32`: `Some` exactly for a Unicode scalar
/// value (below the surrogate range, or past it and at most 0x10FFFF),
/// yielding the character with that value.
#[verifier::external_body]
fn char_from_u32(v: u32) -> (r: Option<char>)
    ensures
        r is Some <==> (v < 0xD800 || (0xE000 <= v && v <= 0x10FFFF)),
        r matches Some(c) ==> c == (v as char),
{
    char::from_u32(v)
}

/// The character a standard short escape stands for; `/` maps to itself.
pub open spec fn unesc_std(e: char) -> char {
    if e == '"' { '"' } else if e == '\\' { '\\' } else if e == '/' { '/' } else if e == 'n' {
        '\n'
    } else if e == 'r' { '\r' } else if e == 't' { '\t' } else if e == 'b' { '\u{8}' } else {
        '\u{c}'
    }
}

/// Scans the content of a string literal in any standard spelling, from
/// position `i` up to and over the closing quote: raw characters from the
/// space upward, the eight short escapes, and `\uXXXX` in either case for
/// any scalar of the basic plane.
pub open spec fn rscan_body(s: Seq<char>, i: int) -> Option<(Seq<char>, int)>
    decreases s.len() - i,
{
    if i < 0 || i >= s.len() {
        None
    } else if s[i] == '"' {
        Some((Seq::empty(), i + 1))
    } else if s[i] == '\\' {
        if i + 1 < s.len() {
            let e = s[i + 1];
            if e == '"' || e == '\\' || e == '/' || e == 'n' || e == 'r' || e == 't' || e == 'b'
                || e == 'f' {
                match rscan_body(s, i + 2) {
                    Some((t, j)) => Some((seq![unesc_std(e)] + t, j)),
                    None => None,
                }
            } else if e == 'u' {
                if i + 5 < s.len() && hex16(s[i + 2]) >= 0 && hex16(s[i + 3]) >= 0 && hex16(
                    s[i + 4],
                ) >= 0 && hex16(s[i + 5]) >= 0 {
                    let v = 4096 * hex16(s[i + 2]) + 256 * hex16(s[i + 3]) + 16 * hex16(s[i + 4])
                        + hex16(s[i + 5]);
                    if 0xD800 <= v < 0xE000 {
                        None
                    } else {
                        match rscan_body(s, i + 6) {
                            Some((t, j)) => Some((seq![(v as u32) as char] + t, j)),
                            None => None,
                        }
                    }
                } else {
                    None
                }
            } else {
                None
            }
        } else {
            None
        }
    } else if (s[i] as u32) < 0x20 {
        None
    } else {
        match rscan_body(s, i + 1) {
            Some((t, j)) => Some((seq![s[i]] + t, j)),
            None => None,
        }
    }
}

/// Scans a whole string literal in any standard spelling at `i`.
pub open spec fn rscan(s: Seq<char>, i: int) -> Option<(Seq<char>, int)> {
    if 0 <= i < s.len() && s[i] == '"' {
        rscan_body(s, i + 1)
    } else {
        None
    }
}

/// Reads a string literal in any standard spelling at `i`.
pub fn scan_jstr_relaxed(s: &Vec<char>, i: usize) -> (r: Option<(String, usize)>)
    requires
        i <= s@.len(),
    ensures
        match r {
            Some(p) => rscan(s@, i as int) == Some((p.0@, p.1 as int)) && i < p.1 <= s@.len(),
            None => rscan(s@, i as int) is None,
        },
{
    if i >= s.len() || s[i] != '"' {
        return None;
    }
    let mut out = String::new();
    let mut cur: usize = i + 1;
    loop
        invariant
            i + 1 <= cur <= s@.len(),
            rscan(s@, i as int) == match rscan_body(s@, cur as int) {
                Some((t, j)) => Some((out@ + t, j)),
                None => None::<(Seq<char>, int)>,
            },
        decreases s@.len() - cur,
    {
        if cur >= s.len() {
            return None;
        }
        let c = s[cur];
        if c == '"' {
            assert(rscan_body(s@, cur as int) == Some((Seq::<char>::empty(), cur + 1 as int)));
            assert(out@ + Seq::<char>::empty() =~= out@);
            return Some((out, cur + 1));
        } else if c == '\\' {
            if cur + 1 >= s.len() {
                return None;
            }
            let e = s[cur + 1];
            if e == '"' || e == '\\' || e == '/' || e == 'n' || e == 'r' || e == 't' || e == 'b'
                || e == 'f' {
                let u = if e == '"' { '"' } else if e == '\\' { '\\' } else if e == '/' { '/' }
                    else if e == 'n' { '\n' } else if e == 'r' { '\r' } else if e == 't' { '\t' }
                    else if e == 'b' { '\u{8}' } else { '\u{c}' };
                str_push_char(&mut out, u);
                proof {
                    assert forall|t: Seq<char>| out@.drop_last() + (seq![unesc_std(e)] + t)
                        =~= out@ + t by {}
                }
                cur = cur + 2;
            } else if e == 'u' {
                if s.len() - cur < 6 {
                    return None;
                }
                let d1 = hex16_val(s[cur + 2]);
                let d2 = hex16_val(s[cur + 3]);
                let d3 = hex16_val(s[cur + 4]);
                let d4 = hex16_val(s[cur + 5]);
                if d1 < 0 || d2 < 0 || d3 < 0 || d4 < 0 {
                    return None;
                }
                let v: i32 = 4096 * d1 + 256 * d2 + 16 * d3 + d4;
                if 0xD800 <= v && v < 0xE000 {
                    return None;
                }
                let c2 = match char_from_u32(v as u32) {
                    Some(c2) => c2,
                    None => {
                        // unreachable: v is at most 0xFFFF and not a
                        // surrogate, hence a scalar
                        return None;
                    },
                };
                assert(c2 == ((v as u32) as char));
                str_push_char(&mut out, c2);
                proof {
                    assert forall|t: Seq<char>| out@.drop_last() + (seq![c2] + t) =~= out@
                        + t by {}
                }
                cur = cur + 6;
            } else {
                return None;
            }
        } else if (c as u32) < 0x20 {
            return None;
        } else {
            str_push_char(&mut out, c);
            proof {
                assert forall|t: Seq<char>| out@.drop_last() + (seq![c] + t) =~= out@ + t by {}
            }
            cur = cur + 1;
        }
    }
}

// ---------------------------------------------------------------------------
// Skipping unknown values
// ---------------------------------------------------------------------------

/// Whether a character ends a bare token: a separator, a bracket close or
/// whitespace.
pub open spec fn is_delim(c: char) -> bool {
    c == ',' || c == '}' || c == ']' || is_json_ws(c)
}

/// The end of the bare token starting at `i`: `true`, `false`, `null` or a
/// number, matched by shape.
pub open spec fn prim_end(s: Seq<char>, i: int) -> int
    decreases s.len() - i,
{
    if 0 <= i < s.len() && !is_delim(s[i]) {
        prim_end(s, i + 1)
    } else {
        i
    }
}

fn delim_char(c: char) -> (r: bool)
    ensures
        r == is_delim(c),
{
    c == ',' || c == '}' || c == ']' || json_ws(c)
}

fn scan_prim_end(s: &Vec<char>, i: usize) -> (r: usize)
    requires
        i <= s@.len(),
    ensures
        r == prim_end(s@, i as int),
        i <= r <= s@.len(),
{
    let mut j: usize = i;
    loop
        invariant
            i <= j <= s@.len(),
            prim_end(s@, i as int) == prim_end(s@, j as int),
        decreases s@.len() - j,
    {
        if j < s.len() && !delim_char(s[j]) {
            j = j + 1;
        } else {
            return j;
        }
    }
}

/// Walks over the remainder of a bracketed value: strings are honored,
/// brackets are counted down to the one that closes the value. Container
/// kinds are matched by count, not by pairing.
pub open spec fn skip_inner(s: Seq<char>, i: int, depth: int) -> Option<int>
    decreases s.len() - i,
{
    if i < 0 || i >= s.len() || depth < 1 {
        None
    } else if s[i] == '"' {
        match rscan(s, i) {
            Some((_, j)) => if j <= i || j > s.len() {
                None
            } else {
                skip_inner(s, j, depth)
            },
            None => None,
        }
    } else if s[i] == '{' || s[i] == '[' {
        skip_inner(s, i + 1, depth + 1)
    } else if s[i] == '}' || s[i] == ']' {
        if depth == 1 {
            Some(i + 1)
        } else {
            skip_inner(s, i + 1, depth - 1)
        }
    } else {
        skip_inner(s, i + 1, depth)
    }
}

/// The end of the JSON value starting at `i`: a string, a bracketed
/// container or a bare token.
pub open spec fn skip_value(s: Seq<char>, i: int) -> Option<int> {
    if i < 0 || i >= s.len() {
        None
    } else if s[i] == '"' {
        match rscan(s, i) {
            Some((_, j)) => Some(j),
            None => None,
        }
    } else if s[i] == '{' || s[i] == '[' {
        skip_inner(s, i + 1, 1)
    } else if is_delim(s[i]) {
        None
    } else {
        let e = prim_end(s, i);
        if e <= i {
            None
        } else {
            Some(e)
        }
    }
}

/// Walks over one JSON value of any shape.
pub fn skip_value_at(s: &Vec<char>, i: usize) -> (r: Option<usize>)
    requires
        i <= s@.len(),
    ensures
        match r {
            Some(j) => skip_value(s@, i as int) == Some(j as int) && i < j <= s@.len(),
            None => skip_value(s@, i as int) is None,
        },
{
    if i >= s.len() {
        return None;
    }
    let c = s[i];
    if c == '"' {
        match scan_jstr_relaxed(s, i) {
            Some((_, j)) => Some(j),
            None => None,
        }
    } else if c == '{' || c == '[' {
        let mut cur: usize = i + 1;
        let mut depth: usize = 1;
        loop
            invariant
                i + 1 <= cur <= s@.len(),
                1 <= depth <= cur,
                skip_value(s@, i as int) == skip_inner(s@, cur as int, depth as int),
            decreases s@.len() - cur,
        {
            if cur >= s.len() {
                return None;
            }
            let c2 = s[cur];
            if c2 == '"' {
                match scan_jstr_relaxed(s, cur) {
                    Some((_, j)) => {
                        cur = j;
                    },
                    None => {
                        return None;
                    },
                }
            } else if c2 == '{' || c2 == '[' {
                depth = depth + 1;
                cur = cur + 1;
            } else if c2 == '}' || c2 == ']' {
                if depth == 1 {
                    return Some(cur + 1);
                }
                depth = depth - 1;
                cur = cur + 1;
            } else {
                cur = cur + 1;
            }
        }
    } else if delim_char(c) {
        None
    } else {
        let e = scan_prim_end(s, i + 1);
        assert(prim_end(s@, i as int) == prim_end(s@, i + 1 as int));
        Some(e)
    }
}

// ---------------------------------------------------------------------------
// Optional string values in any spelling
// ---------------------------------------------------------------------------

/// Reads `null` or a string literal in any standard spelling.
pub open spec fn ropt(s: Seq<char>, i: int) -> Option<(Option<Seq<char>>, int)> {
    if lit_at(s, i, "null"@) {
        Some((None, i + "null"@.len()))
    } else {
        match rscan(s, i) {
            Some((v, j)) => Some((Some(v), j)),
            None => None,
        }
    }
}

/// Reads `null` or a string literal in any standard spelling.
pub fn scan_opt_relaxed(s: &Vec<char>, i: usize) -> (r: Option<(Option<String>, usize)>)
    requires
        i <= s@.len(),
    ensures
        match r {
            Some(p) => ropt(s@, i as int) == Some((
                match p.0 {
                    Some(v) => Some(v@),
                    None => None::<Seq<char>>,
                },
                p.1 as int,
            )) && i < p.1 <= s@.len(),
            None => ropt(s@, i as int) is None,
        },
{
    match crate::json::expect_lit(s, i, "null") {
        Some(j) => {
            proof {
                reveal_strlit("null");
            }
            Some((None, j))
        },
        None => {
            match scan_jstr_relaxed(s, i) {
                Some((v, j)) => Some((Some(v), j)),
                None => None,
            }
        },
    }
}

/// The view of an optional owned string.
pub open spec fn opt_view(o: Option<String>) -> Option<Seq<char>> {
    match o {
        Some(s) => Some(s@),
        None => None,
    }
}

} // verus!
