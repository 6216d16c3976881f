//! JSON encoding and decoding of the wire payloads.
//!
//! Each payload type has a spec-level canonical encoder (`enc_*`), a strict
//! parser for that canonical spelling (`parse_*`), a general parser for any
//! JSON spelling (`parse_*_relaxed`), executable counterparts proved against
//! them, and a round-trip proof: parsing an encoded value yields the value
//! back. A document's meaning (`parse_*_text`) reads the canonical spelling
//! as itself and everything else under the general parser.

use vstd::prelude::*;
use vstd::string::*;

use crate::json::{
    append_jstr, expect_lit, jstr, parse_lit, scan_jstr, sscan, str_to_chars, utf8_to_string,
    lemma_lit_at, lemma_sscan_jstr,
};
use crate::models::{
    Address, AddressV, Callback, CallbackV, Content, ContentV, Email, EmailV, Personalization,
    PersonalizationV, SendGridPayload, SendGridV,
};
use crate::json_relaxed::{
    opt_view, rscan, scan_jstr_relaxed, skip_value, skip_value_at, skip_ws, ws_end,
};
use crate::push_codec::{append_opt_str, enc_opt_str};

verus! {

/// Why a payload failed to decode.
#[derive(Clone, Copy, Debug, PartialEq, Eq)]
pub enum DecodeError {
    /// The payload bytes are not valid UTF-8.
    Utf8,
    /// The payload text is not the canonical JSON document of the expected
    /// record.
    Json,
}

// ---------------------------------------------------------------------------
// Callback
// ---------------------------------------------------------------------------

/// The canonical JSON document of a callback.
pub open spec fn enc_callback(c: CallbackV) -> Seq<char> {
    "{\"url\":"@ + jstr(c.url) + ",\"amountCaptured\":"@ + jstr(c.amount_captured)
        + ",\"currency\":"@ + jstr(c.currency) + ",\"address\":"@ + jstr(c.address)
        + ",\"accountId\":"@ + jstr(c.account_id) + "}"@
}

/// The strict parser for the canonical callback document: it accepts exactly
/// the documents [`enc_callback`] produces.
pub open spec fn parse_callback(s: Seq<char>) -> Option<CallbackV> {
    match parse_lit(s, 0, "{\"url\":"@) {
        None => None,
        Some(i1) => match sscan(s, i1) {
            None => None,
            Some((url, i2)) => match parse_lit(s, i2, ",\"amountCaptured\":"@) {
                None => None,
                Some(i3) => match sscan(s, i3) {
                    None => None,
                    Some((amount_captured, i4)) => match parse_lit(s, i4, ",\"currency\":"@) {
                        None => None,
                        Some(i5) => match sscan(s, i5) {
                            None => None,
                            Some((currency, i6)) => match parse_lit(s, i6, ",\"address\":"@) {
                                None => None,
                                Some(i7) => match sscan(s, i7) {
                                    None => None,
                                    Some((address, i8)) => match parse_lit(s, i8, ",\"accountId\":"@) {
                                        None => None,
                                        Some(i9) => match sscan(s, i9) {
                                            None => None,
                                            Some((account_id, i10)) =>
                                                if i10 + 1 == s.len() && s[i10] == '}' {
                                                    Some(CallbackV {
                                                        url,
                                                        amount_captured,
                                                        currency,
                                                        address,
                                                        account_id,
                                                    })
                                                } else {
                                                    None
                                                },
                                        },
                                    },
                                },
                            },
                        },
                    },
                },
            },
        },
    }
}

/// Writes the canonical JSON document of a callback.
pub fn encode_callback(c: &Callback) -> (r: String)
    ensures
        r@ == enc_callback(c@),
{
    let mut out = String::new();
    out.append("{\"url\":");
    append_jstr(&mut out, c.url.as_str());
    out.append(",\"amountCaptured\":");
    append_jstr(&mut out, c.amount_captured.as_str());
    out.append(",\"currency\":");
    append_jstr(&mut out, c.currency.as_str());
    out.append(",\"address\":");
    append_jstr(&mut out, c.address.as_str());
    out.append(",\"accountId\":");
    append_jstr(&mut out, c.account_id.as_str());
    out.append("}");
    assert(out@ =~= enc_callback(c@));
    out
}

/// Reads the canonical JSON document of a callback.
pub fn decode_callback_str(s: &str) -> (r: Option<Callback>)
    ensures
        match r {
            Some(c) => parse_callback(s@) == Some(c@),
            None => parse_callback(s@) is None,
        },
{
    let chars = str_to_chars(s);
    let i1 = match expect_lit(&chars, 0, "{\"url\":") {
        Some(i) => i,
        None => { return None; },
    };
    let (url, i2) = match scan_jstr(&chars, i1) {
        Some(p) => p,
        None => { return None; },
    };
    let i3 = match expect_lit(&chars, i2, ",\"amountCaptured\":") {
        Some(i) => i,
        None => { return None; },
    };
    let (amount_captured, i4) = match scan_jstr(&chars, i3) {
        Some(p) => p,
        None => { return None; },
    };
    let i5 = match expect_lit(&chars, i4, ",\"currency\":") {
        Some(i) => i,
        None => { return None; },
    };
    let (currency, i6) = match scan_jstr(&chars, i5) {
        Some(p) => p,
        None => { return None; },
    };
    let i7 = match expect_lit(&chars, i6, ",\"address\":") {
        Some(i) => i,
        None => { return None; },
    };
    let (address, i8) = match scan_jstr(&chars, i7) {
        Some(p) => p,
        None => { return None; },
    };
    let i9 = match expect_lit(&chars, i8, ",\"accountId\":") {
        Some(i) => i,
        None => { return None; },
    };
    let (account_id, i10) = match scan_jstr(&chars, i9) {
        Some(p) => p,
        None => { return None; },
    };
    if chars.len() - i10 == 1 && chars[i10] == '}' {
        Some(Callback { url, amount_captured, currency, address, account_id })
    } else {
        None
    }
}

/// Parsing the canonical callback document yields the callback back.
pub proof fn lemma_callback_round_trip(c: CallbackV)
    ensures
        parse_callback(enc_callback(c)) == Some(c),
{
    let l1 = "{\"url\":"@;
    let j1 = jstr(c.url);
    let l2 = ",\"amountCaptured\":"@;
    let j2 = jstr(c.amount_captured);
    let l3 = ",\"currency\":"@;
    let j3 = jstr(c.currency);
    let l4 = ",\"address\":"@;
    let j4 = jstr(c.address);
    let l5 = ",\"accountId\":"@;
    let j5 = jstr(c.account_id);
    let l6 = "}"@;
    let u11 = l6;
    let u10 = j5 + u11;
    let u9 = l5 + u10;
    let u8 = j4 + u9;
    let u7 = l4 + u8;
    let u6 = j3 + u7;
    let u5 = l3 + u6;
    let u4 = j2 + u5;
    let u3 = l2 + u4;
    let u2 = j1 + u3;
    let u1 = l1 + u2;
    let f1 = l1;
    let f2 = f1 + j1;
    let f3 = f2 + l2;
    let f4 = f3 + j2;
    let f5 = f4 + l3;
    let f6 = f5 + j3;
    let f7 = f6 + l4;
    let f8 = f7 + j4;
    let f9 = f8 + l5;
    let f10 = f9 + j5;
    let f11 = f10 + l6;
    assert(enc_callback(c) == f11);
    vstd::seq_lib::lemma_concat_associative(f1, j1, u3);
    assert(f2 + u3 == f1 + u2);
    vstd::seq_lib::lemma_concat_associative(f2, l2, u4);
    assert(f3 + u4 == f2 + u3);
    vstd::seq_lib::lemma_concat_associative(f3, j2, u5);
    assert(f4 + u5 == f3 + u4);
    vstd::seq_lib::lemma_concat_associative(f4, l3, u6);
    assert(f5 + u6 == f4 + u5);
    vstd::seq_lib::lemma_concat_associative(f5, j3, u7);
    assert(f6 + u7 == f5 + u6);
    vstd::seq_lib::lemma_concat_associative(f6, l4, u8);
    assert(f7 + u8 == f6 + u7);
    vstd::seq_lib::lemma_concat_associative(f7, j4, u9);
    assert(f8 + u9 == f7 + u8);
    vstd::seq_lib::lemma_concat_associative(f8, l5, u10);
    assert(f9 + u10 == f8 + u9);
    vstd::seq_lib::lemma_concat_associative(f9, j5, u11);
    assert(f10 + u11 == f9 + u10);
    assert(enc_callback(c) == u1);
    let s = enc_callback(c);
    let p0 = Seq::<char>::empty();
    assert(s =~= p0 + u1);

    let p1 = kv_step(s, p0, l1, c.url, u3);
    let p2 = kv_step(s, p1, l2, c.amount_captured, u5);
    let p3 = kv_step(s, p2, l3, c.currency, u7);
    let p4 = kv_step(s, p3, l4, c.address, u9);
    let p5 = kv_step(s, p4, l5, c.account_id, u11);

    reveal_strlit("}");
    assert(s == p5 + l6);
    assert(s[p5.len() as int] == '}');
    assert(p5.len() + 1 == s.len());
}

/// One strict `key:"value"` step: in a document that carries `key`, then the
/// string literal of `v`, then `rest` after the prefix `pre`, the key and the
/// value parse in turn. Returns the prefix up to and over the value.
proof fn kv_step(s: Seq<char>, pre: Seq<char>, key: Seq<char>, v: Seq<char>, rest: Seq<char>) -> (p: Seq<char>)
    requires
        s == pre + (key + (jstr(v) + rest)),
    ensures
        p == pre + key + jstr(v),
        parse_lit(s, pre.len() as int, key) == Some((pre.len() + key.len()) as int),
        sscan(s, (pre.len() + key.len()) as int)
            == Some((v, (pre.len() + key.len() + jstr(v).len()) as int)),
        s == p + rest,
{
    vstd::seq_lib::lemma_concat_associative(pre, key, jstr(v) + rest);
    lemma_lit_at(pre, key, jstr(v) + rest);
    vstd::seq_lib::lemma_concat_associative(pre + key, jstr(v), rest);
    lemma_sscan_jstr(v, pre + key, rest);
    pre + key + jstr(v)
}


// ---------------------------------------------------------------------------
// Reading the general JSON spelling
// ---------------------------------------------------------------------------

/// The fields of a callback document collected so far.
pub struct CbSlots {
    pub url: Option<Seq<char>>,
    pub amount_captured: Option<Seq<char>>,
    pub currency: Option<Seq<char>>,
    pub address: Option<Seq<char>>,
    pub account_id: Option<Seq<char>>,
}

/// No callback field seen yet.
pub open spec fn cb_slots_empty() -> CbSlots {
    CbSlots { url: None, amount_captured: None, currency: None, address: None, account_id: None }
}

/// A finished callback object: every field present exactly once.
pub open spec fn cb_finish(sl: CbSlots, j: int) -> Option<(CallbackV, int)> {
    if sl.url is Some && sl.amount_captured is Some && sl.currency is Some && sl.address is Some
        && sl.account_id is Some {
        Some((
            CallbackV {
                url: sl.url->0,
                amount_captured: sl.amount_captured->0,
                currency: sl.currency->0,
                address: sl.address->0,
                account_id: sl.account_id->0,
            },
            j,
        ))
    } else {
        None
    }
}

/// One callback field value at `k`: a known key takes a string, once; any
/// other key's value is skipped.
pub open spec fn cb_field_value(s: Seq<char>, k: int, key: Seq<char>, sl: CbSlots) -> Option<
    (CbSlots, int),
> {
    if key == "url"@ {
        if sl.url is Some {
            None
        } else {
            match rscan(s, k) {
                Some((v, m)) => Some((CbSlots { url: Some(v), ..sl }, m)),
                None => None,
            }
        }
    } else if key == "amountCaptured"@ {
        if sl.amount_captured is Some {
            None
        } else {
            match rscan(s, k) {
                Some((v, m)) => Some((CbSlots { amount_captured: Some(v), ..sl }, m)),
                None => None,
            }
        }
    } else if key == "currency"@ {
        if sl.currency is Some {
            None
        } else {
            match rscan(s, k) {
                Some((v, m)) => Some((CbSlots { currency: Some(v), ..sl }, m)),
                None => None,
            }
        }
    } else if key == "address"@ {
        if sl.address is Some {
            None
        } else {
            match rscan(s, k) {
                Some((v, m)) => Some((CbSlots { address: Some(v), ..sl }, m)),
                None => None,
            }
        }
    } else if key == "accountId"@ {
        if sl.account_id is Some {
            None
        } else {
            match rscan(s, k) {
                Some((v, m)) => Some((CbSlots { account_id: Some(v), ..sl }, m)),
                None => None,
            }
        }
    } else {
        match skip_value(s, k) {
            Some(m) => Some((sl, m)),
            None => None,
        }
    }
}

/// The member list of a callback object, keys in any order, whitespace
/// anywhere, unknown members skipped.
pub open spec fn cb_fields(s: Seq<char>, i: int, sl: CbSlots) -> Option<(CallbackV, int)>
    decreases s.len() - i,
{
    let iw = ws_end(s, i);
    if i < 0 || iw < i || iw >= s.len() {
        None
    } else if s[iw] == '}' {
        cb_finish(sl, iw + 1)
    } else {
        match rscan(s, iw) {
            None => None,
            Some((key, j)) => {
                let jw = ws_end(s, j);
                if j <= iw || jw < j || jw >= s.len() || s[jw] != ':' {
                    None
                } else {
                    match cb_field_value(s, ws_end(s, jw + 1), key, sl) {
                        None => None,
                        Some((sl2, m)) => {
                            let mw = ws_end(s, m);
                            if m <= jw || mw < m || mw >= s.len() {
                                None
                            } else if s[mw] == ',' {
                                cb_fields(s, mw + 1, sl2)
                            } else if s[mw] == '}' {
                                cb_finish(sl2, mw + 1)
                            } else {
                                None
                            }
                        },
                    }
                }
            },
        }
    }
}

/// The general-spelling parser for a whole callback document.
pub open spec fn parse_callback_relaxed(s: Seq<char>) -> Option<CallbackV> {
    let i0 = ws_end(s, 0);
    if 0 <= i0 < s.len() && s[i0] == '{' {
        match cb_fields(s, i0 + 1, cb_slots_empty()) {
            Some((v, j)) => if ws_end(s, j) == s.len() {
                Some(v)
            } else {
                None
            },
            None => None,
        }
    } else {
        None
    }
}

/// What a callback document means: the canonical spelling reads as itself;
/// any other text reads under the general parser.
pub open spec fn parse_callback_text(s: Seq<char>) -> Option<CallbackV> {
    if parse_callback(s) is Some {
        parse_callback(s)
    } else {
        parse_callback_relaxed(s)
    }
}

/// Reads the member list of a callback object in any spelling.
fn decode_cb_fields(s: &Vec<char>, start: usize) -> (r: Option<(Callback, usize)>)
    requires
        start <= s@.len(),
    ensures
        match r {
            Some(p) => cb_fields(s@, start as int, cb_slots_empty()) == Some((p.0@, p.1 as int))
                && p.1 <= s@.len(),
            None => cb_fields(s@, start as int, cb_slots_empty()) is None,
        },
{
    let mut url: Option<String> = None;
    let mut amount_captured: Option<String> = None;
    let mut currency: Option<String> = None;
    let mut address: Option<String> = None;
    let mut account_id: Option<String> = None;
    let mut cur: usize = start;
    loop
        invariant
            cur <= s@.len(),
            cb_fields(s@, start as int, cb_slots_empty()) == cb_fields(
                s@,
                cur as int,
                CbSlots {
                    url: opt_view(url),
                    amount_captured: opt_view(amount_captured),
                    currency: opt_view(currency),
                    address: opt_view(address),
                    account_id: opt_view(account_id),
                },
            ),
        decreases s@.len() - cur,
    {
        let ghost sl = CbSlots {
            url: opt_view(url),
            amount_captured: opt_view(amount_captured),
            currency: opt_view(currency),
            address: opt_view(address),
            account_id: opt_view(account_id),
        };
        let iw = skip_ws(s, cur);
        if iw >= s.len() {
            return None;
        }
        if s[iw] == '}' {
            assert(cb_fields(s@, cur as int, sl) == cb_finish(sl, iw + 1));
            return match (url, amount_captured, currency, address, account_id) {
                (Some(u), Some(a), Some(c), Some(d), Some(e)) => Some(
                    (
                        Callback {
                            url: u,
                            amount_captured: a,
                            currency: c,
                            address: d,
                            account_id: e,
                        },
                        iw + 1,
                    ),
                ),
                _ => None,
            };
        }
        let (key, j) = match scan_jstr_relaxed(s, iw) {
            Some(p) => p,
            None => {
                return None;
            },
        };
        let jw = skip_ws(s, j);
        if jw >= s.len() || s[jw] != ':' {
            return None;
        }
        let k = skip_ws(s, jw + 1);
        let m: usize;
        if crate::json::str_eq(key.as_str(), "url") {
            if url.is_some() {
                return None;
            }
            let (v, m2) = match scan_jstr_relaxed(s, k) {
                Some(p) => p,
                None => {
                    return None;
                },
            };
            url = Some(v);
            m = m2;
        } else if crate::json::str_eq(key.as_str(), "amountCaptured") {
            if amount_captured.is_some() {
                return None;
            }
            let (v, m2) = match scan_jstr_relaxed(s, k) {
                Some(p) => p,
                None => {
                    return None;
                },
            };
            amount_captured = Some(v);
            m = m2;
        } else if crate::json::str_eq(key.as_str(), "currency") {
            if currency.is_some() {
                return None;
            }
            let (v, m2) = match scan_jstr_relaxed(s, k) {
                Some(p) => p,
                None => {
                    return None;
                },
            };
            currency = Some(v);
            m = m2;
        } else if crate::json::str_eq(key.as_str(), "address") {
            if address.is_some() {
                return None;
            }
            let (v, m2) = match scan_jstr_relaxed(s, k) {
                Some(p) => p,
                None => {
                    return None;
                },
            };
            address = Some(v);
            m = m2;
        } else if crate::json::str_eq(key.as_str(), "accountId") {
            if account_id.is_some() {
                return None;
            }
            let (v, m2) = match scan_jstr_relaxed(s, k) {
                Some(p) => p,
                None => {
                    return None;
                },
            };
            account_id = Some(v);
            m = m2;
        } else {
            m = match skip_value_at(s, k) {
                Some(m2) => m2,
                None => {
                    return None;
                },
            };
        }
        let ghost sl2 = CbSlots {
            url: opt_view(url),
            amount_captured: opt_view(amount_captured),
            currency: opt_view(currency),
            address: opt_view(address),
            account_id: opt_view(account_id),
        };
        assert(cb_field_value(s@, k as int, key@, sl) == Some((sl2, m as int)));
        let mw = skip_ws(s, m);
        if mw >= s.len() {
            return None;
        }
        if s[mw] == ',' {
            assert(cb_fields(s@, cur as int, sl) == cb_fields(s@, mw + 1 as int, sl2));
            cur = mw + 1;
        } else if s[mw] == '}' {
            assert(cb_fields(s@, cur as int, sl) == cb_finish(sl2, mw + 1));
            return match (url, amount_captured, currency, address, account_id) {
                (Some(u), Some(a), Some(c), Some(d), Some(e)) => Some(
                    (
                        Callback {
                            url: u,
                            amount_captured: a,
                            currency: c,
                            address: d,
                            account_id: e,
                        },
                        mw + 1,
                    ),
                ),
                _ => None,
            };
        } else {
            return None;
        }
    }
}

/// Reads a whole callback document in any spelling.
fn decode_callback_relaxed(s: &Vec<char>) -> (r: Option<Callback>)
    ensures
        match r {
            Some(c) => parse_callback_relaxed(s@) == Some(c@),
            None => parse_callback_relaxed(s@) is None,
        },
{
    let i0 = skip_ws(s, 0);
    if i0 >= s.len() || s[i0] != '{' {
        return None;
    }
    match decode_cb_fields(s, i0 + 1) {
        Some((c, j)) => {
            let jw = skip_ws(s, j);
            if jw == s.len() {
                Some(c)
            } else {
                None
            }
        },
        None => None,
    }
}
// ---------------------------------------------------------------------------
// Email
// ---------------------------------------------------------------------------

/// The canonical JSON document of an email.
pub open spec fn enc_email(e: EmailV) -> Seq<char> {
    "{\"to\":"@ + jstr(e.to) + ",\"subject\":"@ + jstr(e.subject) + ",\"text\":"@ + jstr(e.text)
        + "}"@
}

/// The strict parser for the canonical email document.
pub open spec fn parse_email(s: Seq<char>) -> Option<EmailV> {
    match parse_lit(s, 0, "{\"to\":"@) {
        None => None,
        Some(i1) => match sscan(s, i1) {
            None => None,
            Some((to, i2)) => match parse_lit(s, i2, ",\"subject\":"@) {
                None => None,
                Some(i3) => match sscan(s, i3) {
                    None => None,
                    Some((subject, i4)) => match parse_lit(s, i4, ",\"text\":"@) {
                        None => None,
                        Some(i5) => match sscan(s, i5) {
                            None => None,
                            Some((text, i6)) =>
                                if i6 + 1 == s.len() && s[i6] == '}' {
                                    Some(EmailV { to, subject, text })
                                } else {
                                    None
                                },
                        },
                    },
                },
            },
        },
    }
}

/// Writes the canonical JSON document of an email.
pub fn encode_email(e: &Email) -> (r: String)
    ensures
        r@ == enc_email(e@),
{
    let mut out = String::new();
    out.append("{\"to\":");
    append_jstr(&mut out, e.to.as_str());
    out.append(",\"subject\":");
    append_jstr(&mut out, e.subject.as_str());
    out.append(",\"text\":");
    append_jstr(&mut out, e.text.as_str());
    out.append("}");
    assert(out@ =~= enc_email(e@));
    out
}

/// Reads the canonical JSON document of an email.
pub fn decode_email_str(s: &str) -> (r: Option<Email>)
    ensures
        match r {
            Some(e) => parse_email(s@) == Some(e@),
            None => parse_email(s@) is None,
        },
{
    let chars = str_to_chars(s);
    let i1 = match expect_lit(&chars, 0, "{\"to\":") {
        Some(i) => i,
        None => { return None; },
    };
    let (to, i2) = match scan_jstr(&chars, i1) {
        Some(p) => p,
        None => { return None; },
    };
    let i3 = match expect_lit(&chars, i2, ",\"subject\":") {
        Some(i) => i,
        None => { return None; },
    };
    let (subject, i4) = match scan_jstr(&chars, i3) {
        Some(p) => p,
        None => { return None; },
    };
    let i5 = match expect_lit(&chars, i4, ",\"text\":") {
        Some(i) => i,
        None => { return None; },
    };
    let (text, i6) = match scan_jstr(&chars, i5) {
        Some(p) => p,
        None => { return None; },
    };
    if chars.len() - i6 == 1 && chars[i6] == '}' {
        Some(Email { to, subject, text })
    } else {
        None
    }
}

/// Parsing the canonical email document yields the email back.
pub proof fn lemma_email_round_trip(e: EmailV)
    ensures
        parse_email(enc_email(e)) == Some(e),
{
    let l1 = "{\"to\":"@;
    let j1 = jstr(e.to);
    let l2 = ",\"subject\":"@;
    let j2 = jstr(e.subject);
    let l3 = ",\"text\":"@;
    let j3 = jstr(e.text);
    let l4 = "}"@;
    let u7 = l4;
    let u6 = j3 + u7;
    let u5 = l3 + u6;
    let u4 = j2 + u5;
    let u3 = l2 + u4;
    let u2 = j1 + u3;
    let u1 = l1 + u2;
    let f1 = l1;
    let f2 = f1 + j1;
    let f3 = f2 + l2;
    let f4 = f3 + j2;
    let f5 = f4 + l3;
    let f6 = f5 + j3;
    let f7 = f6 + l4;
    assert(enc_email(e) == f7);
    vstd::seq_lib::lemma_concat_associative(f1, j1, u3);
    assert(f2 + u3 == f1 + u2);
    vstd::seq_lib::lemma_concat_associative(f2, l2, u4);
    assert(f3 + u4 == f2 + u3);
    vstd::seq_lib::lemma_concat_associative(f3, j2, u5);
    assert(f4 + u5 == f3 + u4);
    vstd::seq_lib::lemma_concat_associative(f4, l3, u6);
    assert(f5 + u6 == f4 + u5);
    vstd::seq_lib::lemma_concat_associative(f5, j3, u7);
    assert(f6 + u7 == f5 + u6);
    assert(enc_email(e) == u1);
    let s = enc_email(e);
    let p0 = Seq::<char>::empty();
    assert(s =~= p0 + u1);

    let p1 = kv_step(s, p0, l1, e.to, u3);
    let p2 = kv_step(s, p1, l2, e.subject, u5);
    let p3 = kv_step(s, p2, l3, e.text, u7);

    reveal_strlit("}");
    assert(s == p3 + l4);
    assert(s[p3.len() as int] == '}');
    assert(p3.len() + 1 == s.len());
}

/// The fields of the document collected so far.
pub struct EmSlots {
    pub to: Option<Seq<char>>,
    pub subject: Option<Seq<char>>,
    pub text: Option<Seq<char>>,
}

/// No field seen yet.
pub open spec fn em_slots_empty() -> EmSlots {
    EmSlots { to: None, subject: None, text: None }
}

/// A finished object: every required field present exactly once.
pub open spec fn em_finish(sl: EmSlots, j: int) -> Option<(EmailV, int)> {
    if sl.to is Some && sl.subject is Some && sl.text is Some {
        Some((
            EmailV {
                to: sl.to->0,
                subject: sl.subject->0,
                text: sl.text->0,
            },
            j,
        ))
    } else {
        None
    }
}

/// One field value at `k`: a known key takes its typed value, once;
/// any other key's value is skipped.
pub open spec fn em_field_value(s: Seq<char>, k: int, key: Seq<char>, sl: EmSlots) -> Option<
    (EmSlots, int),
> {
    if key == "to"@ {
        if sl.to is Some {
            None
        } else {
            match rscan(s, k) {
                Some((v, m)) => Some((EmSlots { to: Some(v), ..sl }, m)),
                None => None,
            }
        }
    } else if key == "subject"@ {
        if sl.subject is Some {
            None
        } else {
            match rscan(s, k) {
                Some((v, m)) => Some((EmSlots { subject: Some(v), ..sl }, m)),
                None => None,
            }
        }
    } else if key == "text"@ {
        if sl.text is Some {
            None
        } else {
            match rscan(s, k) {
                Some((v, m)) => Some((EmSlots { text: Some(v), ..sl }, m)),
                None => None,
            }
        }
    } else {
        match skip_value(s, k) {
            Some(m) => Some((sl, m)),
            None => None,
        }
    }
}

/// The member list of the object, keys in any order, whitespace
/// anywhere, unknown members skipped.
pub open spec fn em_fields(s: Seq<char>, i: int, sl: EmSlots) -> Option<(EmailV, int)>
    decreases s.len() - i,
{
    let iw = ws_end(s, i);
    if i < 0 || iw < i || iw >= s.len() {
        None
    } else if s[iw] == '}' {
        em_finish(sl, iw + 1)
    } else {
        match rscan(s, iw) {
            None => None,
            Some((key, j)) => {
                let jw = ws_end(s, j);
                if j <= iw || jw < j || jw >= s.len() || s[jw] != ':' {
                    None
                } else {
                    match em_field_value(s, ws_end(s, jw + 1), key, sl) {
                        None => None,
                        Some((sl2, m)) => {
                            let mw = ws_end(s, m);
                            if m <= jw || mw < m || mw >= s.len() {
                                None
                            } else if s[mw] == ',' {
                                em_fields(s, mw + 1, sl2)
                            } else if s[mw] == '}' {
                                em_finish(sl2, mw + 1)
                            } else {
                                None
                            }
                        },
                    }
                }
            },
        }
    }
}

/// Reads the member list of the object in any spelling.
fn decode_em_fields(s: &Vec<char>, start: usize) -> (r: Option<(Email, usize)>)
    requires
        start <= s@.len(),
    ensures
        match r {
            Some(p) => em_fields(s@, start as int, em_slots_empty()) == Some((p.0@, p.1 as int))
                && p.1 <= s@.len(),
            None => em_fields(s@, start as int, em_slots_empty()) is None,
        },
{
    let mut to: Option<String> = None;
    let mut subject: Option<String> = None;
    let mut text: Option<String> = None;
    let mut cur: usize = start;
    loop
        invariant
            cur <= s@.len(),
            em_fields(s@, start as int, em_slots_empty()) == em_fields(
                s@,
                cur as int,
                EmSlots {
                    to: opt_view(to),
                    subject: opt_view(subject),
                    text: opt_view(text),
                },
            ),
        decreases s@.len() - cur,
    {
        let ghost sl = EmSlots {
            to: opt_view(to),
            subject: opt_view(subject),
            text: opt_view(text),
        };
        let iw = skip_ws(s, cur);
        if iw >= s.len() {
            return None;
        }
        if s[iw] == '}' {
            assert(em_fields(s@, cur as int, sl) == em_finish(sl, iw + 1));
            return match (to, subject, text) {
                (Some(to_v), Some(subject_v), Some(text_v)) => Some(
                    (
                        Email {
                            to: to_v,
                            subject: subject_v,
                            text: text_v,
                        },
                        iw + 1,
                    ),
                ),
                _ => None,
            };
        }
        let (key, j) = match scan_jstr_relaxed(s, iw) {
            Some(p) => p,
            None => {
                return None;
            },
        };
        let jw = skip_ws(s, j);
        if jw >= s.len() || s[jw] != ':' {
            return None;
        }
        let k = skip_ws(s, jw + 1);
        let m: usize;
        if crate::json::str_eq(key.as_str(), "to") {
            if to.is_some() {
                return None;
            }
            let (v, m2) = match scan_jstr_relaxed(s, k) {
                Some(p) => p,
                None => {
                    return None;
                },
            };
            to = Some(v);
            m = m2;
        } else if crate::json::str_eq(key.as_str(), "subject") {
            if subject.is_some() {
                return None;
            }
            let (v, m2) = match scan_jstr_relaxed(s, k) {
                Some(p) => p,
                None => {
                    return None;
                },
            };
            subject = Some(v);
            m = m2;
        } else if crate::json::str_eq(key.as_str(), "text") {
            if text.is_some() {
                return None;
            }
            let (v, m2) = match scan_jstr_relaxed(s, k) {
                Some(p) => p,
                None => {
                    return None;
                },
            };
            text = Some(v);
            m = m2;
        } else {
            m = match skip_value_at(s, k) {
                Some(m2) => m2,
                None => {
                    return None;
                },
            };
        }
        let ghost sl2 = EmSlots {
            to: opt_view(to),
            subject: opt_view(subject),
            text: opt_view(text),
        };
        assert(em_field_value(s@, k as int, key@, sl) == Some((sl2, m as int)));
        let mw = skip_ws(s, m);
        if mw >= s.len() {
            return None;
        }
        if s[mw] == ',' {
            assert(em_fields(s@, cur as int, sl) == em_fields(s@, mw + 1 as int, sl2));
            cur = mw + 1;
        } else if s[mw] == '}' {
            assert(em_fields(s@, cur as int, sl) == em_finish(sl2, mw + 1));
            return match (to, subject, text) {
                (Some(to_v), Some(subject_v), Some(text_v)) => Some(
                    (
                        Email {
                            to: to_v,
                            subject: subject_v,
                            text: text_v,
                        },
                        mw + 1,
                    ),
                ),
                _ => None,
            };
        } else {
            return None;
        }
    }
}

/// The general-spelling parser for a whole email document.
pub open spec fn parse_email_relaxed(s: Seq<char>) -> Option<EmailV> {
    let i0 = ws_end(s, 0);
    if 0 <= i0 < s.len() && s[i0] == '{' {
        match em_fields(s, i0 + 1, em_slots_empty()) {
            Some((v, j)) => if ws_end(s, j) == s.len() {
                Some(v)
            } else {
                None
            },
            None => None,
        }
    } else {
        None
    }
}

/// What an email document means: the canonical spelling reads as itself;
/// any other text reads under the general parser.
pub open spec fn parse_email_text(s: Seq<char>) -> Option<EmailV> {
    if parse_email(s) is Some {
        parse_email(s)
    } else {
        parse_email_relaxed(s)
    }
}

/// Reads a whole email document in any spelling.
fn decode_email_relaxed(s: &Vec<char>) -> (r: Option<Email>)
    ensures
        match r {
            Some(e) => parse_email_relaxed(s@) == Some(e@),
            None => parse_email_relaxed(s@) is None,
        },
{
    let i0 = skip_ws(s, 0);
    if i0 >= s.len() || s[i0] != '{' {
        return None;
    }
    match decode_em_fields(s, i0 + 1) {
        Some((e, j)) => {
            let jw = skip_ws(s, j);
            if jw == s.len() {
                Some(e)
            } else {
                None
            }
        },
        None => None,
    }
}

// ---------------------------------------------------------------------------
// The wire layer: UTF-8 bytes
// ---------------------------------------------------------------------------

/// The callback document as wire bytes.
pub fn callback_bytes(c: &Callback) -> (r: Vec<u8>)
    ensures
        r@ == vstd::utf8::encode_utf8(enc_callback(c@)),
{
    let s = encode_callback(c);
    s.as_str().as_bytes_vec()
}

/// The email document as wire bytes.
pub fn email_bytes(e: &Email) -> (r: Vec<u8>)
    ensures
        r@ == vstd::utf8::encode_utf8(enc_email(e@)),
{
    let s = encode_email(e);
    s.as_str().as_bytes_vec()
}

/// Reads a callback from wire bytes: UTF-8 validation, then a JSON parse
/// of the record — the canonical spelling on its fast path, anything else
/// through the general parser.
pub fn decode_callback(data: &Vec<u8>) -> (r: Result<Callback, DecodeError>)
    ensures
        match r {
            Ok(c) => vstd::utf8::valid_utf8(data@)
                && parse_callback_text(vstd::utf8::decode_utf8(data@)) == Some(c@),
            Err(e) => (e == DecodeError::Utf8 && !vstd::utf8::valid_utf8(data@))
                || (e == DecodeError::Json && vstd::utf8::valid_utf8(data@)
                    && parse_callback_text(vstd::utf8::decode_utf8(data@)) is None),
        },
{
    let s = match utf8_to_string(data) {
        Some(s) => s,
        None => { return Err(DecodeError::Utf8); },
    };
    match decode_callback_str(s.as_str()) {
        Some(c) => Ok(c),
        None => {
            let chars = str_to_chars(s.as_str());
            match decode_callback_relaxed(&chars) {
                Some(c) => Ok(c),
                None => Err(DecodeError::Json),
            }
        },
    }
}

/// Reads an email from wire bytes: UTF-8 validation, then a JSON parse of
/// the record — the canonical spelling on its fast path, anything else
/// through the general parser.
pub fn decode_email(data: &Vec<u8>) -> (r: Result<Email, DecodeError>)
    ensures
        match r {
            Ok(e) => vstd::utf8::valid_utf8(data@)
                && parse_email_text(vstd::utf8::decode_utf8(data@)) == Some(e@),
            Err(e) => (e == DecodeError::Utf8 && !vstd::utf8::valid_utf8(data@))
                || (e == DecodeError::Json && vstd::utf8::valid_utf8(data@)
                    && parse_email_text(vstd::utf8::decode_utf8(data@)) is None),
        },
{
    let s = match utf8_to_string(data) {
        Some(s) => s,
        None => { return Err(DecodeError::Utf8); },
    };
    match decode_email_str(s.as_str()) {
        Some(e) => Ok(e),
        None => {
            let chars = str_to_chars(s.as_str());
            match decode_email_relaxed(&chars) {
                Some(e) => Ok(e),
                None => Err(DecodeError::Json),
            }
        },
    }
}

/// Decoding the wire bytes of an encoded callback yields the callback back.
pub proof fn lemma_callback_wire_round_trip(c: CallbackV)
    ensures
        vstd::utf8::valid_utf8(vstd::utf8::encode_utf8(enc_callback(c))),
        parse_callback_text(vstd::utf8::decode_utf8(vstd::utf8::encode_utf8(enc_callback(c))))
            == Some(c),
{
    vstd::utf8::encode_utf8_valid_utf8(enc_callback(c));
    vstd::utf8::encode_utf8_decode_utf8(enc_callback(c));
    lemma_callback_round_trip(c);
}

/// Decoding the wire bytes of an encoded email yields the email back.
pub proof fn lemma_email_wire_round_trip(e: EmailV)
    ensures
        vstd::utf8::valid_utf8(vstd::utf8::encode_utf8(enc_email(e))),
        parse_email_text(vstd::utf8::decode_utf8(vstd::utf8::encode_utf8(enc_email(e))))
            == Some(e),
{
    vstd::utf8::encode_utf8_valid_utf8(enc_email(e));
    vstd::utf8::encode_utf8_decode_utf8(enc_email(e));
    lemma_email_round_trip(e);
}

// ---------------------------------------------------------------------------
// The SendGrid request body
// ---------------------------------------------------------------------------

/// The canonical JSON document of a SendGrid address entry.
pub open spec fn enc_sg_address(a: AddressV) -> Seq<char> {
    "{\"email\":"@ + (jstr(a.email) + (",\"name\":"@ + (enc_opt_str(a.name) + "}"@)))
}

/// The canonical comma-separated items of a SendGrid address list.
pub open spec fn enc_sg_addr_list(items: Seq<AddressV>) -> Seq<char>
    decreases items.len(),
{
    if items.len() == 0 {
        Seq::empty()
    } else if items.len() == 1 {
        enc_sg_address(items[0])
    } else {
        enc_sg_address(items[0]) + seq![','] + enc_sg_addr_list(items.drop_first())
    }
}

/// The canonical JSON document of a SendGrid address array.
pub open spec fn enc_sg_addr_array(items: Seq<AddressV>) -> Seq<char> {
    seq!['['] + enc_sg_addr_list(items) + seq![']']
}

/// The canonical JSON document of a personalization block.
pub open spec fn enc_personalization(p: PersonalizationV) -> Seq<char> {
    "{\"to\":"@ + (enc_sg_addr_array(p.to) + "}"@)
}

/// The canonical comma-separated items of a personalization list.
pub open spec fn enc_pers_list(items: Seq<PersonalizationV>) -> Seq<char>
    decreases items.len(),
{
    if items.len() == 0 {
        Seq::empty()
    } else if items.len() == 1 {
        enc_personalization(items[0])
    } else {
        enc_personalization(items[0]) + seq![','] + enc_pers_list(items.drop_first())
    }
}

/// The canonical JSON document of a personalization array.
pub open spec fn enc_pers_array(items: Seq<PersonalizationV>) -> Seq<char> {
    seq!['['] + enc_pers_list(items) + seq![']']
}

/// The canonical JSON document of a content block.
pub open spec fn enc_content(c: ContentV) -> Seq<char> {
    "{\"type\":"@ + (jstr(c.type_field) + (",\"value\":"@ + (jstr(c.value) + "}"@)))
}

/// The canonical comma-separated items of a content list.
pub open spec fn enc_content_list(items: Seq<ContentV>) -> Seq<char>
    decreases items.len(),
{
    if items.len() == 0 {
        Seq::empty()
    } else if items.len() == 1 {
        enc_content(items[0])
    } else {
        enc_content(items[0]) + seq![','] + enc_content_list(items.drop_first())
    }
}

/// The canonical JSON document of a content array.
pub open spec fn enc_content_array(items: Seq<ContentV>) -> Seq<char> {
    seq!['['] + enc_content_list(items) + seq![']']
}

/// The canonical JSON document of a whole SendGrid request.
pub open spec fn enc_sendgrid(p: SendGridV) -> Seq<char> {
    "{\"personalizations\":"@ + (enc_pers_array(p.personalizations) + (",\"from\":"@ + (
    enc_sg_address(p.from) + (",\"subject\":"@ + (jstr(p.subject) + (",\"content\":"@ + (
    enc_content_array(p.content) + "}"@)))))))
}

/// Appending one more item extends a comma-separated list form.
proof fn lemma_enc_sg_addr_list_push(items: Seq<AddressV>, a: AddressV)
    ensures
        enc_sg_addr_list(items.push(a)) == if items.len() == 0 {
            enc_sg_address(a)
        } else {
            enc_sg_addr_list(items) + seq![','] + enc_sg_address(a)
        },
    decreases items.len(),
{
    let w = items.push(a);
    assert(w[0] == if items.len() == 0 { a } else { items[0] });
    if items.len() == 0 {
    } else if items.len() == 1 {
        assert(w.drop_first() =~= seq![a]);
        assert(enc_sg_addr_list(seq![a]) == enc_sg_address(a));
    } else {
        assert(w.drop_first() =~= items.drop_first().push(a));
        lemma_enc_sg_addr_list_push(items.drop_first(), a);
        assert(enc_sg_addr_list(w) =~= enc_sg_addr_list(items) + seq![','] + enc_sg_address(a));
    }
}

/// Appending one more item extends a comma-separated list form.
proof fn lemma_enc_pers_list_push(items: Seq<PersonalizationV>, p: PersonalizationV)
    ensures
        enc_pers_list(items.push(p)) == if items.len() == 0 {
            enc_personalization(p)
        } else {
            enc_pers_list(items) + seq![','] + enc_personalization(p)
        },
    decreases items.len(),
{
    let w = items.push(p);
    assert(w[0] == if items.len() == 0 { p } else { items[0] });
    if items.len() == 0 {
    } else if items.len() == 1 {
        assert(w.drop_first() =~= seq![p]);
        assert(enc_pers_list(seq![p]) == enc_personalization(p));
    } else {
        assert(w.drop_first() =~= items.drop_first().push(p));
        lemma_enc_pers_list_push(items.drop_first(), p);
        assert(enc_pers_list(w) =~= enc_pers_list(items) + seq![','] + enc_personalization(p));
    }
}

/// Appending one more item extends a comma-separated list form.
proof fn lemma_enc_content_list_push(items: Seq<ContentV>, c: ContentV)
    ensures
        enc_content_list(items.push(c)) == if items.len() == 0 {
            enc_content(c)
        } else {
            enc_content_list(items) + seq![','] + enc_content(c)
        },
    decreases items.len(),
{
    let w = items.push(c);
    assert(w[0] == if items.len() == 0 { c } else { items[0] });
    if items.len() == 0 {
    } else if items.len() == 1 {
        assert(w.drop_first() =~= seq![c]);
        assert(enc_content_list(seq![c]) == enc_content(c));
    } else {
        assert(w.drop_first() =~= items.drop_first().push(c));
        lemma_enc_content_list_push(items.drop_first(), c);
        assert(enc_content_list(w) =~= enc_content_list(items) + seq![','] + enc_content(c));
    }
}

/// The item views of an address list.
pub open spec fn sg_addr_views(items: Seq<Address>) -> Seq<AddressV> {
    items.map_values(|a: Address| a@)
}

/// The item views of a personalization list.
pub open spec fn pers_views(items: Seq<Personalization>) -> Seq<PersonalizationV> {
    items.map_values(|p: Personalization| p@)
}

/// The item views of a content list.
pub open spec fn content_views(items: Seq<Content>) -> Seq<ContentV> {
    items.map_values(|c: Content| c@)
}

/// Writes the canonical JSON document of a SendGrid address entry.
fn append_sg_address(out: &mut String, a: &Address)
    ensures
        final(out)@ == old(out)@ + enc_sg_address(a@),
{
    out.append("{\"email\":");
    append_jstr(out, a.email.as_str());
    out.append(",\"name\":");
    append_opt_str(out, &a.name);
    out.append("}");
    assert(out@ =~= old(out)@ + enc_sg_address(a@));
}

/// Writes the canonical JSON document of a SendGrid address array.
fn append_sg_addr_array(out: &mut String, items: &Vec<Address>)
    ensures
        final(out)@ == old(out)@ + enc_sg_addr_array(sg_addr_views(items@)),
{
    let ghost vs = sg_addr_views(items@);
    crate::json::str_push_char(out, '[');
    let n = items.len();
    let mut j: usize = 0;
    while j < n
        invariant
            j <= n,
            n == items@.len(),
            vs == sg_addr_views(items@),
            vs.len() == n,
            out@ == old(out)@ + seq!['['] + enc_sg_addr_list(vs.take(j as int)),
        decreases n - j,
    {
        if j > 0 {
            crate::json::str_push_char(out, ',');
        }
        append_sg_address(out, &items[j]);
        proof {
            lemma_enc_sg_addr_list_push(vs.take(j as int), vs[j as int]);
            assert(vs.take(j + 1 as int) =~= vs.take(j as int).push(vs[j as int]));
            assert(out@ =~= old(out)@ + seq!['['] + enc_sg_addr_list(vs.take(j + 1 as int)));
        }
        j = j + 1;
    }
    crate::json::str_push_char(out, ']');
    assert(vs.take(n as int) =~= vs);
    assert(out@ =~= old(out)@ + enc_sg_addr_array(vs));
}

/// Writes the canonical JSON document of a personalization block.
fn append_personalization(out: &mut String, p: &Personalization)
    ensures
        final(out)@ == old(out)@ + enc_personalization(p@),
{
    out.append("{\"to\":");
    append_sg_addr_array(out, &p.to);
    out.append("}");
    assert(p@.to =~= sg_addr_views(p.to@));
    assert(out@ =~= old(out)@ + enc_personalization(p@));
}

/// Writes the canonical JSON document of a personalization array.
fn append_pers_array(out: &mut String, items: &Vec<Personalization>)
    ensures
        final(out)@ == old(out)@ + enc_pers_array(pers_views(items@)),
{
    let ghost vs = pers_views(items@);
    crate::json::str_push_char(out, '[');
    let n = items.len();
    let mut j: usize = 0;
    while j < n
        invariant
            j <= n,
            n == items@.len(),
            vs == pers_views(items@),
            vs.len() == n,
            out@ == old(out)@ + seq!['['] + enc_pers_list(vs.take(j as int)),
        decreases n - j,
    {
        if j > 0 {
            crate::json::str_push_char(out, ',');
        }
        append_personalization(out, &items[j]);
        proof {
            lemma_enc_pers_list_push(vs.take(j as int), vs[j as int]);
            assert(vs.take(j + 1 as int) =~= vs.take(j as int).push(vs[j as int]));
            assert(out@ =~= old(out)@ + seq!['['] + enc_pers_list(vs.take(j + 1 as int)));
        }
        j = j + 1;
    }
    crate::json::str_push_char(out, ']');
    assert(vs.take(n as int) =~= vs);
    assert(out@ =~= old(out)@ + enc_pers_array(vs));
}

/// Writes the canonical JSON document of a content block.
fn append_content(out: &mut String, c: &Content)
    ensures
        final(out)@ == old(out)@ + enc_content(c@),
{
    out.append("{\"type\":");
    append_jstr(out, c.type_field.as_str());
    out.append(",\"value\":");
    append_jstr(out, c.value.as_str());
    out.append("}");
    assert(out@ =~= old(out)@ + enc_content(c@));
}

/// Writes the canonical JSON document of a content array.
fn append_content_array(out: &mut String, items: &Vec<Content>)
    ensures
        final(out)@ == old(out)@ + enc_content_array(content_views(items@)),
{
    let ghost vs = content_views(items@);
    crate::json::str_push_char(out, '[');
    let n = items.len();
    let mut j: usize = 0;
    while j < n
        invariant
            j <= n,
            n == items@.len(),
            vs == content_views(items@),
            vs.len() == n,
            out@ == old(out)@ + seq!['['] + enc_content_list(vs.take(j as int)),
        decreases n - j,
    {
        if j > 0 {
            crate::json::str_push_char(out, ',');
        }
        append_content(out, &items[j]);
        proof {
            lemma_enc_content_list_push(vs.take(j as int), vs[j as int]);
            assert(vs.take(j + 1 as int) =~= vs.take(j as int).push(vs[j as int]));
            assert(out@ =~= old(out)@ + seq!['['] + enc_content_list(vs.take(j + 1 as int)));
        }
        j = j + 1;
    }
    crate::json::str_push_char(out, ']');
    assert(vs.take(n as int) =~= vs);
    assert(out@ =~= old(out)@ + enc_content_array(vs));
}

/// Writes the canonical JSON document of a whole SendGrid request.
pub fn encode_sendgrid(p: &SendGridPayload) -> (r: String)
    ensures
        r@ == enc_sendgrid(p@),
{
    let mut out = String::new();
    out.append("{\"personalizations\":");
    append_pers_array(&mut out, &p.personalizations);
    out.append(",\"from\":");
    append_sg_address(&mut out, &p.from);
    out.append(",\"subject\":");
    append_jstr(&mut out, p.subject.as_str());
    out.append(",\"content\":");
    append_content_array(&mut out, &p.content);
    out.append("}");
    assert(p@.personalizations =~= pers_views(p.personalizations@));
    assert(p@.content =~= content_views(p.content@));
    assert(out@ =~= enc_sendgrid(p@));
    out
}

/// The SendGrid request body as wire bytes.
pub fn sendgrid_bytes(p: &SendGridPayload) -> (r: Vec<u8>)
    ensures
        r@ == vstd::utf8::encode_utf8(enc_sendgrid(p@)),
{
    let s = encode_sendgrid(p);
    s.as_str().as_bytes_vec()
}

} // verus!
