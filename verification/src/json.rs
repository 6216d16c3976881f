//! Canonical JSON text layer for the wire payloads.
//!
//! Every payload this system publishes or consumes is a JSON document in a
//! fixed canonical form: no whitespace, object keys in declaration order,
//! strings escaped exactly as [`esc`] describes. The encoder writes that form
//! and the decoder accepts exactly that form, so decoding is the inverse of
//! encoding.

use vstd::prelude::*;
use vstd::string::*;

verus! {

// ---------------------------------------------------------------------------
// Escaping
// ---------------------------------------------------------------------------

/// Characters written with a two-character escape.
pub open spec fn is_short_escape(c: char) -> bool {
    c == '"' || c == '\\' || c == '\n' || c == '\r' || c == '\t' || c == '\u{8}' || c == '\u{c}'
}

/// Control characters written as a `\u00XX` escape.
pub open spec fn is_hex_escape(c: char) -> bool {
    (c as u32) < 0x20 && !is_short_escape(c)
}

/// The lower-case hexadecimal digit for `v`.
pub open spec fn hex_digit(v: int) -> char {
    if v == 0 { '0' } else if v == 1 { '1' } else if v == 2 { '2' } else if v == 3 { '3' }
    else if v == 4 { '4' } else if v == 5 { '5' } else if v == 6 { '6' } else if v == 7 { '7' }
    else if v == 8 { '8' } else if v == 9 { '9' } else if v == 10 { 'a' } else if v == 11 { 'b' }
    else if v == 12 { 'c' } else if v == 13 { 'd' } else if v == 14 { 'e' } else { 'f' }
}

/// The value of a lower-case hexadecimal digit, or -1 for any other character.
pub open spec fn hex_val(c: char) -> int {
    if c == '0' { 0 } else if c == '1' { 1 } else if c == '2' { 2 } else if c == '3' { 3 }
    else if c == '4' { 4 } else if c == '5' { 5 } else if c == '6' { 6 } else if c == '7' { 7 }
    else if c == '8' { 8 } else if c == '9' { 9 } else if c == 'a' { 10 } else if c == 'b' { 11 }
    else if c == 'c' { 12 } else if c == 'd' { 13 } else if c == 'e' { 14 } else if c == 'f' { 15 }
    else { -1 }
}

pub proof fn lemma_hex_val_digit(v: int)
    requires
        0 <= v < 16,
    ensures
        hex_val(hex_digit(v)) == v,
{
}

/// The character a short escape `\e` stands for.
pub open spec fn unesc_short(e: char) -> char {
    if e == '"' { '"' } else if e == '\\' { '\\' } else if e == 'n' { '\n' }
    else if e == 'r' { '\r' } else if e == 't' { '\t' } else if e == 'b' { '\u{8}' }
    else { '\u{c}' }
}

/// The canonical escaped form of one character.
pub open spec fn esc_char(c: char) -> Seq<char> {
    if c == '"' { seq!['\\', '"'] }
    else if c == '\\' { seq!['\\', '\\'] }
    else if c == '\n' { seq!['\\', 'n'] }
    else if c == '\r' { seq!['\\', 'r'] }
    else if c == '\t' { seq!['\\', 't'] }
    else if c == '\u{8}' { seq!['\\', 'b'] }
    else if c == '\u{c}' { seq!['\\', 'f'] }
    else if (c as u32) < 0x20 {
        seq!['\\', 'u', '0', '0', hex_digit((c as u32) as int / 16), hex_digit((c as u32) as int % 16)]
    } else {
        seq![c]
    }
}

/// The canonical escaped form of a string's characters.
pub open spec fn esc(s: Seq<char>) -> Seq<char>
    decreases s.len(),
{
    if s.len() == 0 {
        Seq::empty()
    } else {
        esc_char(s[0]) + esc(s.drop_first())
    }
}

/// A canonical JSON string literal: quote, escaped content, quote.
pub open spec fn jstr(s: Seq<char>) -> Seq<char> {
    seq!['"'] + esc(s) + seq!['"']
}

pub proof fn lemma_esc_push(s: Seq<char>, c: char)
    ensures
        esc(s.push(c)) == esc(s) + esc_char(c),
    decreases s.len(),
{
    if s.len() == 0 {
        reveal_with_fuel(esc, 2);
        assert(s.push(c)[0] == c);
        assert(s.push(c).drop_first() =~= Seq::<char>::empty());
        assert(esc(s.push(c)) =~= esc(s) + esc_char(c));
    } else {
        assert(s.push(c)[0] == s[0]);
        assert(s.push(c).drop_first() =~= s.drop_first().push(c));
        lemma_esc_push(s.drop_first(), c);
        assert(esc(s.push(c)) =~= esc(s) + esc_char(c));
    }
}

// ---------------------------------------------------------------------------
// The string scanner
// ---------------------------------------------------------------------------

/// Scans the canonical escaped content of a string literal from position `i`
/// up to and over the closing quote. Returns the unescaped content and the
/// position after the closing quote.
pub open spec fn sscan_body(s: Seq<char>, i: int) -> Option<(Seq<char>, int)>
    decreases s.len() - i,
{
    if i < 0 || i >= s.len() {
        None
    } else if s[i] == '"' {
        Some((Seq::empty(), i + 1))
    } else if s[i] == '\\' {
        if i + 1 < s.len() {
            let e = s[i + 1];
            if e == '"' || e == '\\' || e == 'n' || e == 'r' || e == 't' || e == 'b' || e == 'f' {
                match sscan_body(s, i + 2) {
                    Some((t, j)) => Some((seq![unesc_short(e)] + t, j)),
                    None => None,
                }
            } else if e == 'u' {
                if i + 5 < s.len() && s[i + 2] == '0' && s[i + 3] == '0'
                    && hex_val(s[i + 4]) >= 0 && hex_val(s[i + 5]) >= 0 {
                    let v = 16 * hex_val(s[i + 4]) + hex_val(s[i + 5]);
                    let c = (v as u32) as char;
                    if v < 0x20 && !is_short_escape(c) {
                        match sscan_body(s, i + 6) {
                            Some((t, j)) => Some((seq![c] + t, j)),
                            None => None,
                        }
                    } else {
                        None
                    }
                } else {
                    None
                }
            } else {
                None
            }
        } else {
            None
        }
    } else if (s[i] as u32) < 0x20 {
        None
    } else {
        match sscan_body(s, i + 1) {
            Some((t, j)) => Some((seq![s[i]] + t, j)),
            None => None,
        }
    }
}

/// Scans a whole canonical string literal (opening quote included) at `i`.
pub open spec fn sscan(s: Seq<char>, i: int) -> Option<(Seq<char>, int)> {
    if 0 <= i < s.len() && s[i] == '"' {
        sscan_body(s, i + 1)
    } else {
        None
    }
}

/// The scanner inverts the escaper: scanning `esc(v)` followed by a closing
/// quote yields `v` and stops right after that quote.
pub proof fn lemma_sscan_esc(v: Seq<char>, pre: Seq<char>, rest: Seq<char>)
    ensures
        sscan_body(pre + esc(v) + seq!['"'] + rest, pre.len() as int)
            == Some((v, pre.len() + esc(v).len() + 1int)),
    decreases v.len(),
{
    let s = pre + esc(v) + seq!['"'] + rest;
    let i = pre.len() as int;
    if v.len() == 0 {
        assert(s[i] == '"');
        assert(sscan_body(s, i) == Some((Seq::<char>::empty(), i + 1)));
        assert(v =~= Seq::<char>::empty());
    } else {
        let c = v[0];
        let v1 = v.drop_first();
        let e1 = esc_char(c);
        let pre1 = pre + e1;
        assert(esc(v) == e1 + esc(v1));
        assert(s =~= pre1 + esc(v1) + seq!['"'] + rest);
        lemma_sscan_esc(v1, pre1, rest);
        // the recursive call settles the tail; the head case splits on the
        // escape class of c
        assert forall|k: int| 0 <= k < e1.len() implies s[i + k] == e1[k] by {}
        if c == '"' || c == '\\' || c == '\n' || c == '\r' || c == '\t' || c == '\u{8}'
            || c == '\u{c}' {
            assert(s[i] == '\\');
            assert(unesc_short(e1[1]) == c);
            assert(sscan_body(s, i) == Some((v, pre.len() + esc(v).len() + 1int))) by {
                assert(seq![c] + v1 =~= v);
            }
        } else if (c as u32) < 0x20 {
            let u = c as u32;
            assert(s[i] == '\\' && s[i + 1] == 'u' && s[i + 2] == '0' && s[i + 3] == '0');
            assert(s[i + 4] == hex_digit(u as int / 16) && s[i + 5] == hex_digit(u as int % 16));
            lemma_hex_val_digit(u as int / 16);
            lemma_hex_val_digit(u as int % 16);
            assert(16 * (u as int / 16) + u as int % 16 == u as int);
            vstd::utf8::char_u32_cast(c, u);
            assert(sscan_body(s, i) == Some((v, pre.len() + esc(v).len() + 1int))) by {
                assert(seq![c] + v1 =~= v);
            }
        } else {
            assert(s[i] == c && c != '"' && c != '\\' && (c as u32) >= 0x20);
            assert(sscan_body(s, i) == Some((v, pre.len() + esc(v).len() + 1int))) by {
                assert(seq![c] + v1 =~= v);
            }
        }
    }
}

/// Scanning a canonical string literal embedded in a larger document yields
/// its content and stops right after it.
pub proof fn lemma_sscan_jstr(v: Seq<char>, pre: Seq<char>, rest: Seq<char>)
    ensures
        sscan(pre + jstr(v) + rest, pre.len() as int)
            == Some((v, pre.len() as int + jstr(v).len() as int)),
{
    let s = pre + jstr(v) + rest;
    let i = pre.len() as int;
    assert(s[i] == '"');
    let pre1 = pre + seq!['"'];
    assert(s =~= pre1 + esc(v) + seq!['"'] + rest);
    lemma_sscan_esc(v, pre1, rest);
}

// ---------------------------------------------------------------------------
// Literal pieces
// ---------------------------------------------------------------------------

/// The document `s` carries exactly `lit` at position `i`.
pub open spec fn lit_at(s: Seq<char>, i: int, lit: Seq<char>) -> bool {
    0 <= i && i + lit.len() <= s.len() && s.subrange(i, i + lit.len()) == lit
}

/// Consume a fixed literal.
pub open spec fn parse_lit(s: Seq<char>, i: int, lit: Seq<char>) -> Option<int> {
    if lit_at(s, i, lit) {
        Some(i + lit.len())
    } else {
        None
    }
}

pub proof fn lemma_lit_at(pre: Seq<char>, lit: Seq<char>, rest: Seq<char>)
    ensures
        lit_at(pre + lit + rest, pre.len() as int, lit),
{
    let s = pre + lit + rest;
    assert(s.subrange(pre.len() as int, pre.len() + lit.len() as int) =~= lit);
}

// ---------------------------------------------------------------------------
// Executable building blocks
// ---------------------------------------------------------------------------

/// Relies on `String::push` from std: appends the given character to the end
/// of the string.
#[verifier::external_body]
pub fn str_push_char(out: &mut String, c: char)
    ensures
        final(out)@ == old(out)@.push(c),
{
    out.push(c);
}

/// Relies on `String::from_utf8` from std: returns `Ok` exactly when the
/// bytes are valid UTF-8, and then returns their decoded characters.
#[verifier::external_body]
pub fn utf8_to_string(data: &Vec<u8>) -> (r: Option<String>)
    ensures
        r is Some <==> vstd::utf8::valid_utf8(data@),
        r is Some ==> r->0@ == vstd::utf8::decode_utf8(data@),
{
    String::from_utf8(data.clone()).ok()
}

/// The characters of `s`, one vector entry per character.
pub fn str_to_chars(s: &str) -> (r: Vec<char>)
    ensures
        r@ == s@,
{
    let n = s.unicode_len();
    let mut r: Vec<char> = Vec::new();
    let mut j: usize = 0;
    while j < n
        invariant
            j <= n,
            n == s@.len(),
            r@ == s@.take(j as int),
        decreases n - j,
    {
        let c = s.get_char(j);
        r.push(c);
        assert(s@.take(j + 1 as int) =~= s@.take(j as int).push(c));
        j = j + 1;
    }
    assert(r@ =~= s@);
    r
}

fn hex_digit_ch(v: u32) -> (r: char)
    requires
        v < 16,
    ensures
        r == hex_digit(v as int),
{
    if v == 0 { '0' } else if v == 1 { '1' } else if v == 2 { '2' } else if v == 3 { '3' }
    else if v == 4 { '4' } else if v == 5 { '5' } else if v == 6 { '6' } else if v == 7 { '7' }
    else if v == 8 { '8' } else if v == 9 { '9' } else if v == 10 { 'a' } else if v == 11 { 'b' }
    else if v == 12 { 'c' } else if v == 13 { 'd' } else if v == 14 { 'e' } else { 'f' }
}

/// Appends the canonical escaped form of `s` to `out`.
pub fn append_escaped(out: &mut String, s: &str)
    ensures
        final(out)@ == old(out)@ + esc(s@),
{
    let n = s.unicode_len();
    let mut j: usize = 0;
    while j < n
        invariant
            j <= n,
            n == s@.len(),
            out@ == old(out)@ + esc(s@.take(j as int)),
        decreases n - j,
    {
        let c = s.get_char(j);
        if c == '"' {
            str_push_char(out, '\\');
            str_push_char(out, '"');
        } else if c == '\\' {
            str_push_char(out, '\\');
            str_push_char(out, '\\');
        } else if c == '\n' {
            str_push_char(out, '\\');
            str_push_char(out, 'n');
        } else if c == '\r' {
            str_push_char(out, '\\');
            str_push_char(out, 'r');
        } else if c == '\t' {
            str_push_char(out, '\\');
            str_push_char(out, 't');
        } else if c == '\u{8}' {
            str_push_char(out, '\\');
            str_push_char(out, 'b');
        } else if c == '\u{c}' {
            str_push_char(out, '\\');
            str_push_char(out, 'f');
        } else if (c as u32) < 0x20 {
            str_push_char(out, '\\');
            str_push_char(out, 'u');
            str_push_char(out, '0');
            str_push_char(out, '0');
            str_push_char(out, hex_digit_ch((c as u32) / 16));
            str_push_char(out, hex_digit_ch((c as u32) % 16));
        } else {
            str_push_char(out, c);
        }
        proof {
            lemma_esc_push(s@.take(j as int), c);
            assert(s@.take(j + 1 as int) =~= s@.take(j as int).push(c));
            assert(out@ =~= old(out)@ + esc(s@.take(j + 1 as int)));
        }
        j = j + 1;
    }
    assert(s@.take(n as int) =~= s@);
}

/// Appends the canonical JSON string literal for `s` to `out`.
pub fn append_jstr(out: &mut String, s: &str)
    ensures
        final(out)@ == old(out)@ + jstr(s@),
{
    str_push_char(out, '"');
    append_escaped(out, s);
    str_push_char(out, '"');
    assert(out@ =~= old(out)@ + jstr(s@));
}

/// Checks that the document carries exactly `lit` at position `i`.
pub fn expect_lit(s: &Vec<char>, i: usize, lit: &str) -> (r: Option<usize>)
    requires
        i <= s@.len(),
    ensures
        match r {
            Some(j) => lit_at(s@, i as int, lit@) && j == i + lit@.len(),
            None => !lit_at(s@, i as int, lit@),
        },
{
    let n = lit.unicode_len();
    if s.len() - i < n {
        return None;
    }
    let mut k: usize = 0;
    while k < n
        invariant
            k <= n,
            n == lit@.len(),
            i + n <= s@.len(),
            s@.len() <= usize::MAX,
            forall|m: int| 0 <= m < k ==> s@[i + m] == lit@[m],
        decreases n - k,
    {
        let c = lit.get_char(k);
        assert(i + k < s@.len());
        if s[i + k] != c {
            assert(!lit_at(s@, i as int, lit@)) by {
                if lit_at(s@, i as int, lit@) {
                    assert(s@.subrange(i as int, i + lit@.len())[k as int] == lit@[k as int]);
                }
            }
            return None;
        }
        k = k + 1;
    }
    assert(s@.subrange(i as int, i + lit@.len()) =~= lit@);
    Some(i + n)
}

/// Scans a canonical string literal at `i`, returning its unescaped content
/// and the position after the closing quote.
pub fn scan_jstr(s: &Vec<char>, i: usize) -> (r: Option<(String, usize)>)
    requires
        i <= s@.len(),
    ensures
        match r {
            Some(p) => sscan(s@, i as int) == Some((p.0@, p.1 as int)) && i < p.1 <= s@.len(),
            None => sscan(s@, i as int) is None,
        },
{
    if i >= s.len() || s[i] != '"' {
        return None;
    }
    let mut out = String::new();
    let mut cur: usize = i + 1;
    loop
        invariant
            i + 1 <= cur <= s@.len(),
            sscan(s@, i as int) == match sscan_body(s@, cur as int) {
                Some((t, j)) => Some((out@ + t, j)),
                None => None::<(Seq<char>, int)>,
            },
        decreases s@.len() - cur,
    {
        if cur >= s.len() {
            return None;
        }
        let c = s[cur];
        if c == '"' {
            assert(sscan_body(s@, cur as int) == Some((Seq::<char>::empty(), cur + 1 as int)));
            assert(out@ + Seq::<char>::empty() =~= out@);
            return Some((out, cur + 1));
        } else if c == '\\' {
            if cur + 1 >= s.len() {
                return None;
            }
            let e = s[cur + 1];
            if e == '"' || e == '\\' || e == 'n' || e == 'r' || e == 't' || e == 'b' || e == 'f' {
                let u = if e == '"' { '"' } else if e == '\\' { '\\' } else if e == 'n' { '\n' }
                    else if e == 'r' { '\r' } else if e == 't' { '\t' } else if e == 'b' { '\u{8}' }
                    else { '\u{c}' };
                str_push_char(&mut out, u);
                proof {
                    assert forall|t: Seq<char>| out@.drop_last() + (seq![unesc_short(e)] + t)
                        =~= out@ + t by {}
                }
                cur = cur + 2;
            } else if e == 'u' {
                if s.len() - cur < 6 {
                    return None;
                }
                if s[cur + 2] != '0' || s[cur + 3] != '0' {
                    return None;
                }
                let d1 = s[cur + 4];
                let d2 = s[cur + 5];
                let v1 = hex_val_ch(d1);
                let v2 = hex_val_ch(d2);
                if v1 < 0 || v2 < 0 {
                    return None;
                }
                let v: i32 = 16 * v1 + v2;
                if v >= 0x20 {
                    return None;
                }
                let c2 = (v as u8) as char;
                assert((v as u8) as u32 == v as u32);
                assert(c2 == ((v as u32) as char));
                if c2 == '"' || c2 == '\\' || c2 == '\n' || c2 == '\r' || c2 == '\t'
                    || c2 == '\u{8}' || c2 == '\u{c}' {
                    return None;
                }
                str_push_char(&mut out, c2);
                proof {
                    assert forall|t: Seq<char>| out@.drop_last() + (seq![c2] + t) =~= out@ + t by {}
                }
                cur = cur + 6;
            } else {
                return None;
            }
        } else if (c as u32) < 0x20 {
            return None;
        } else {
            str_push_char(&mut out, c);
            proof {
                assert forall|t: Seq<char>| out@.drop_last() + (seq![c] + t) =~= out@ + t by {}
            }
            cur = cur + 1;
        }
    }
}

fn hex_val_ch(c: char) -> (r: i32)
    ensures
        r == hex_val(c),
{
    if c == '0' { 0 } else if c == '1' { 1 } else if c == '2' { 2 } else if c == '3' { 3 }
    else if c == '4' { 4 } else if c == '5' { 5 } else if c == '6' { 6 } else if c == '7' { 7 }
    else if c == '8' { 8 } else if c == '9' { 9 } else if c == 'a' { 10 } else if c == 'b' { 11 }
    else if c == 'c' { 12 } else if c == 'd' { 13 } else if c == 'e' { 14 } else if c == 'f' { 15 }
    else { -1 }
}

/// Whether two strings have the same characters.
pub fn str_eq(a: &str, b: &str) -> (r: bool)
    ensures
        r == (a@ == b@),
{
    let na = a.unicode_len();
    let nb = b.unicode_len();
    if na != nb {
        return false;
    }
    let mut k: usize = 0;
    while k < na
        invariant
            k <= na,
            na == a@.len(),
            na == b@.len(),
            forall|m: int| 0 <= m < k ==> a@[m] == b@[m],
        decreases na - k,
    {
        if a.get_char(k) != b.get_char(k) {
            return false;
        }
        k = k + 1;
    }
    assert(a@ =~= b@);
    true
}

} // verus!
