//! JSON encoding and decoding of push notifications.
//!
//! The push document nests a transaction record, which nests address-info
//! objects and an array of them; optional fields travel as `null`, a string
//! or not at all. Each level has a spec canonical encoder, a strict parser
//! for that spelling, a general parser for any JSON spelling, executable
//! counterparts, and a round-trip proof.

use vstd::prelude::*;
use vstd::string::*;

use crate::json_relaxed::{
    opt_view, ropt, rscan, scan_jstr_relaxed, scan_opt_relaxed, skip_value, skip_value_at,
    skip_ws, ws_end,
};
use crate::json::{
    append_jstr, expect_lit, jstr, lit_at, parse_lit, scan_jstr, sscan, str_to_chars,
    lemma_lit_at, lemma_sscan_jstr,
};
use crate::codec::DecodeError;
use crate::json::utf8_to_string;
use crate::models::{AddressInfoV, TransactionAddressInfo, TransactionV, TransactionsResponse, PushV, PushNotifications};

verus! {

// ---------------------------------------------------------------------------
// Optional string fields
// ---------------------------------------------------------------------------

/// The canonical form of an optional string field: `null` or a string
/// literal.
pub open spec fn enc_opt_str(o: Option<Seq<char>>) -> Seq<char> {
    match o {
        None => "null"@,
        Some(v) => jstr(v),
    }
}

/// The strict parser for an optional string field.
pub open spec fn parse_opt_str(s: Seq<char>, i: int) -> Option<(Option<Seq<char>>, int)> {
    if lit_at(s, i, "null"@) {
        Some((None, i + "null"@.len()))
    } else {
        match sscan(s, i) {
            Some((v, j)) => Some((Some(v), j)),
            None => None,
        }
    }
}

/// One strict `key:value` step for an optional string field, after the
/// prefix `pre`. Returns the prefix up to and over the value.
proof fn kv_opt_step(s: Seq<char>, pre: Seq<char>, key: Seq<char>, o: Option<Seq<char>>, rest: Seq<char>) -> (p: Seq<char>)
    requires
        s == pre + (key + (enc_opt_str(o) + rest)),
    ensures
        p == pre + key + enc_opt_str(o),
        parse_lit(s, pre.len() as int, key) == Some((pre.len() + key.len()) as int),
        parse_opt_str(s, (pre.len() + key.len()) as int)
            == Some((o, (pre.len() + key.len() + enc_opt_str(o).len()) as int)),
        s == p + rest,
{
    vstd::seq_lib::lemma_concat_associative(pre, key, enc_opt_str(o) + rest);
    lemma_lit_at(pre, key, enc_opt_str(o) + rest);
    vstd::seq_lib::lemma_concat_associative(pre + key, enc_opt_str(o), rest);
    let q = pre + key;
    let i = q.len() as int;
    reveal_strlit("null");
    match o {
        None => {
            lemma_lit_at(q, "null"@, rest);
        },
        Some(v) => {
            lemma_sscan_jstr(v, q, rest);
            assert(s[i] == '"');
            assert(!lit_at(s, i, "null"@)) by {
                if lit_at(s, i, "null"@) {
                    assert(s.subrange(i, i + 4)[0] == 'n');
                }
            }
        },
    }
    pre + key + enc_opt_str(o)
}

// ---------------------------------------------------------------------------
// Address info objects
// ---------------------------------------------------------------------------

/// The canonical JSON document of an address info record.
#[verifier::opaque]
pub open spec fn enc_addr(a: AddressInfoV) -> Seq<char> {
    "{\"account_id\":"@ + (enc_opt_str(a.account_id) + (",\"owner_name\":"@ + (enc_opt_str(
        a.owner_name,
    ) + (",\"blockchain_address\":"@ + (jstr(a.blockchain_address) + "}"@)))))
}

/// The strict parser for an address info object starting at `i`.
pub open spec fn parse_addr(s: Seq<char>, i: int) -> Option<(AddressInfoV, int)> {
    match parse_lit(s, i, "{\"account_id\":"@) {
        None => None,
        Some(i1) => match parse_opt_str(s, i1) {
            None => None,
            Some((account_id, i2)) => match parse_lit(s, i2, ",\"owner_name\":"@) {
                None => None,
                Some(i3) => match parse_opt_str(s, i3) {
                    None => None,
                    Some((owner_name, i4)) => match parse_lit(s, i4, ",\"blockchain_address\":"@) {
                        None => None,
                        Some(i5) => match sscan(s, i5) {
                            None => None,
                            Some((blockchain_address, i6)) =>
                                if i6 < s.len() && s[i6] == '}' {
                                    Some((AddressInfoV { account_id, owner_name, blockchain_address }, i6 + 1))
                                } else {
                                    None
                                },
                        },
                    },
                },
            },
        },
    }
}

/// One strict `key:"value"` step, as in the flat documents. Returns the
/// prefix up to and over the value.
proof fn kv_step(s: Seq<char>, pre: Seq<char>, key: Seq<char>, v: Seq<char>, rest: Seq<char>) -> (p: Seq<char>)
    requires
        s == pre + (key + (jstr(v) + rest)),
    ensures
        p == pre + key + jstr(v),
        parse_lit(s, pre.len() as int, key) == Some((pre.len() + key.len()) as int),
        sscan(s, (pre.len() + key.len()) as int)
            == Some((v, (pre.len() + key.len() + jstr(v).len()) as int)),
        s == p + rest,
{
    vstd::seq_lib::lemma_concat_associative(pre, key, jstr(v) + rest);
    lemma_lit_at(pre, key, jstr(v) + rest);
    vstd::seq_lib::lemma_concat_associative(pre + key, jstr(v), rest);
    lemma_sscan_jstr(v, pre + key, rest);
    pre + key + jstr(v)
}

/// An address info document embedded at `pre.len()` parses back to its
/// record and stops right after its closing brace.
pub proof fn lemma_addr_at(a: AddressInfoV, pre: Seq<char>, rest: Seq<char>)
    ensures
        parse_addr(pre + (enc_addr(a) + rest), pre.len() as int)
            == Some((a, pre.len() + enc_addr(a).len() as int)),
{
    reveal(enc_addr);
    let s = pre + (enc_addr(a) + rest);
    let l1 = "{\"account_id\":"@;
    let l2 = ",\"owner_name\":"@;
    let l3 = ",\"blockchain_address\":"@;
    let l4 = "}"@;
    let o1 = enc_opt_str(a.account_id);
    let o2 = enc_opt_str(a.owner_name);
    let j1 = jstr(a.blockchain_address);

    let u7 = l4;
    let u6 = j1 + u7;
    let u5 = l3 + u6;
    let u4 = o2 + u5;
    let u3 = l2 + u4;
    let u2 = o1 + u3;
    let u1 = l1 + u2;
    assert(enc_addr(a) == u1);

    let w7 = l4 + rest;
    let w6 = j1 + w7;
    shift_tail(j1, u7, rest, w7);
    let w5 = l3 + w6;
    shift_tail(l3, u6, rest, w6);
    let w4 = o2 + w5;
    shift_tail(o2, u5, rest, w5);
    let w3 = l2 + w4;
    shift_tail(l2, u4, rest, w4);
    let w2 = o1 + w3;
    shift_tail(o1, u3, rest, w3);
    let w1 = l1 + w2;
    shift_tail(l1, u2, rest, w2);
    assert(s == pre + w1);

    let p1 = kv_opt_step(s, pre, l1, a.account_id, w3);
    let p2 = kv_opt_step(s, p1, l2, a.owner_name, w5);
    let p3 = kv_step(s, p2, l3, a.blockchain_address, w7);
    reveal_strlit("}");
    assert(s == p3 + (l4 + rest));
    assert(s[p3.len() as int] == '}');
    assert(p3.len() + 1 == pre.len() + enc_addr(a).len());
}


/// Writes `null` or the canonical string literal of an optional field.
pub fn append_opt_str(out: &mut String, o: &Option<String>)
    ensures
        final(out)@ == old(out)@ + enc_opt_str(match o {
            Some(s) => Some(s@),
            None => None,
        }),
{
    match o {
        None => {
            out.append("null");
        },
        Some(s) => {
            append_jstr(out, s.as_str());
        },
    }
}

/// Writes the canonical JSON document of an address info record.
pub fn append_addr(out: &mut String, a: &TransactionAddressInfo)
    ensures
        final(out)@ == old(out)@ + enc_addr(a@),
{
    out.append("{\"account_id\":");
    append_opt_str(out, &a.account_id);
    out.append(",\"owner_name\":");
    append_opt_str(out, &a.owner_name);
    out.append(",\"blockchain_address\":");
    append_jstr(out, a.blockchain_address.as_str());
    out.append("}");
    assert(out@ =~= old(out)@ + enc_addr(a@)) by {
        reveal(enc_addr);
    }
}

/// Reads `null` or a canonical string literal.
pub fn decode_opt_str(s: &Vec<char>, i: usize) -> (r: Option<(Option<String>, usize)>)
    requires
        i <= s@.len(),
    ensures
        match r {
            Some(p) => parse_opt_str(s@, i as int) == Some((
                match p.0 {
                    Some(v) => Some(v@),
                    None => None::<Seq<char>>,
                },
                p.1 as int,
            )) && i < p.1 <= s@.len(),
            None => parse_opt_str(s@, i as int) is None,
        },
{
    match expect_lit(s, i, "null") {
        Some(j) => {
            proof {
                reveal_strlit("null");
            }
            Some((None, j))
        },
        None => {
            match scan_jstr(s, i) {
                Some((v, j)) => Some((Some(v), j)),
                None => None,
            }
        },
    }
}

/// Reads a canonical address info object at `i`.
pub fn decode_addr(s: &Vec<char>, i: usize) -> (r: Option<(TransactionAddressInfo, usize)>)
    requires
        i <= s@.len(),
    ensures
        match r {
            Some(p) => parse_addr(s@, i as int) == Some((p.0@, p.1 as int)) && i < p.1 <= s@.len(),
            None => parse_addr(s@, i as int) is None,
        },
{
    let i1 = match expect_lit(s, i, "{\"account_id\":") {
        Some(j) => j,
        None => { return None; },
    };
    let (account_id, i2) = match decode_opt_str(s, i1) {
        Some(p) => p,
        None => { return None; },
    };
    let i3 = match expect_lit(s, i2, ",\"owner_name\":") {
        Some(j) => j,
        None => { return None; },
    };
    let (owner_name, i4) = match decode_opt_str(s, i3) {
        Some(p) => p,
        None => { return None; },
    };
    let i5 = match expect_lit(s, i4, ",\"blockchain_address\":") {
        Some(j) => j,
        None => { return None; },
    };
    let (blockchain_address, i6) = match scan_jstr(s, i5) {
        Some(p) => p,
        None => { return None; },
    };
    if i6 < s.len() && s[i6] == '}' {
        Some((TransactionAddressInfo { account_id, owner_name, blockchain_address }, i6 + 1))
    } else {
        None
    }
}

// ---------------------------------------------------------------------------
// Arrays of address info objects
// ---------------------------------------------------------------------------

/// The canonical comma-separated items of an address info array.
pub open spec fn enc_addr_list(items: Seq<AddressInfoV>) -> Seq<char>
    decreases items.len(),
{
    if items.len() == 0 {
        Seq::empty()
    } else if items.len() == 1 {
        enc_addr(items[0])
    } else {
        enc_addr(items[0]) + seq![','] + enc_addr_list(items.drop_first())
    }
}

/// The canonical JSON document of an address info array.
pub open spec fn enc_addr_array(items: Seq<AddressInfoV>) -> Seq<char> {
    seq!['['] + enc_addr_list(items) + seq![']']
}

/// The strict parser for the items of a non-empty address info array,
/// consuming the closing bracket.
pub open spec fn parse_addr_items(s: Seq<char>, i: int) -> Option<(Seq<AddressInfoV>, int)>
    decreases s.len() - i,
{
    match parse_addr(s, i) {
        None => None,
        Some((a, j)) =>
            if j <= i || j >= s.len() {
                None
            } else if s[j] == ']' {
                Some((seq![a], j + 1))
            } else if s[j] == ',' {
                match parse_addr_items(s, j + 1) {
                    Some((more, k)) => Some((seq![a] + more, k)),
                    None => None,
                }
            } else {
                None
            },
    }
}

/// The strict parser for an address info array at `i`.
pub open spec fn parse_addr_array(s: Seq<char>, i: int) -> Option<(Seq<AddressInfoV>, int)> {
    if 0 <= i && i + 1 < s.len() && s[i] == '[' {
        if s[i + 1] == ']' {
            Some((Seq::empty(), i + 2))
        } else {
            parse_addr_items(s, i + 1)
        }
    } else {
        None
    }
}

/// The encoded address info object is non-empty and opens with a brace.
proof fn lemma_enc_addr_head(a: AddressInfoV)
    ensures
        enc_addr(a).len() > 0,
        enc_addr(a)[0] == '{',
{
    reveal(enc_addr);
    reveal_strlit("{\"account_id\":");
    assert(enc_addr(a)[0] == "{\"account_id\":"@[0]);
}

/// The items of a non-empty array, embedded before their closing bracket,
/// parse back to the item list.
#[verifier::rlimit(100)]
proof fn lemma_addr_items_at(items: Seq<AddressInfoV>, pre: Seq<char>, rest: Seq<char>)
    requires
        items.len() >= 1,
    ensures
        parse_addr_items(pre + (enc_addr_list(items) + (seq![']'] + rest)), pre.len() as int)
            == Some((items, pre.len() + enc_addr_list(items).len() + 1int)),
    decreases items.len(),
{
    let s = pre + (enc_addr_list(items) + (seq![']'] + rest));
    let a = items[0];
    let i = pre.len() as int;
    lemma_enc_addr_head(a);
    if items.len() == 1 {
        assert(s =~= pre + (enc_addr(a) + (seq![']'] + rest)));
        lemma_addr_at(a, pre, seq![']'] + rest);
        let j = pre.len() + enc_addr(a).len() as int;
        assert(s == (pre + enc_addr(a)) + (seq![']'] + rest)) by {
            vstd::seq_lib::lemma_concat_associative(pre, enc_addr(a), seq![']'] + rest);
        }
        assert(s[j] == ']');
        assert(j < s.len());
        assert(seq![a] =~= items);
    } else {
        let more = items.drop_first();
        let t = seq![','] + (enc_addr_list(more) + (seq![']'] + rest));
        assert(s =~= pre + (enc_addr(a) + t)) by {
            assert(enc_addr_list(items) == enc_addr(a) + seq![','] + enc_addr_list(more));
        }
        lemma_addr_at(a, pre, t);
        let j = pre.len() + enc_addr(a).len() as int;
        let p1 = pre + enc_addr(a);
        assert(s == p1 + t) by {
            vstd::seq_lib::lemma_concat_associative(pre, enc_addr(a), t);
        }
        assert(s[j] == ',');
        assert(j < s.len());
        let p2 = p1 + seq![','];
        assert(s == p2 + (enc_addr_list(more) + (seq![']'] + rest))) by {
            vstd::seq_lib::lemma_concat_associative(p1, seq![','], enc_addr_list(more) + (seq![']'] + rest));
        }
        lemma_addr_items_at(more, p2, rest);
        assert(parse_addr_items(s, j + 1) == Some((more, p2.len() + enc_addr_list(more).len() + 1int)));
        assert(seq![a] + more =~= items);
        assert(p2.len() + enc_addr_list(more).len() + 1 == pre.len() + enc_addr_list(items).len() + 1);
    }
}

/// An address info array document embedded at `pre.len()` parses back to its
/// item list and stops right after its closing bracket.
pub proof fn lemma_addr_array_at(items: Seq<AddressInfoV>, pre: Seq<char>, rest: Seq<char>)
    ensures
        parse_addr_array(pre + (enc_addr_array(items) + rest), pre.len() as int)
            == Some((items, pre.len() + enc_addr_array(items).len() as int)),
{
    let s = pre + (enc_addr_array(items) + rest);
    let i = pre.len() as int;
    assert(s[i] == '[');
    if items.len() == 0 {
        assert(enc_addr_array(items) =~= seq!['[', ']']);
        assert(s[i + 1] == ']');
        assert(i + 1 < s.len());
    } else {
        let p1 = pre + seq!['['];
        assert(s == p1 + (enc_addr_list(items) + (seq![']'] + rest))) by {
            assert(s =~= p1 + (enc_addr_list(items) + (seq![']'] + rest)));
        }
        lemma_addr_items_at(items, p1, rest);
        lemma_enc_addr_head(items[0]);
        assert(enc_addr_list(items).len() > 0);
        assert(enc_addr_list(items)[0] == enc_addr(items[0])[0]);
        assert(s[i + 1] == enc_addr_list(items)[0]);
        reveal_strlit("]");
        assert(i + 1 < s.len());
        assert(s[i + 1] != ']');
    }
}


// ---------------------------------------------------------------------------
// Executable array encoder and decoder
// ---------------------------------------------------------------------------

/// Appending one more item extends the comma-separated list form.
proof fn lemma_enc_addr_list_push(items: Seq<AddressInfoV>, a: AddressInfoV)
    ensures
        enc_addr_list(items.push(a)) == if items.len() == 0 {
            enc_addr(a)
        } else {
            enc_addr_list(items) + seq![','] + enc_addr(a)
        },
    decreases items.len(),
{
    let w = items.push(a);
    assert(w[0] == if items.len() == 0 { a } else { items[0] });
    if items.len() == 0 {
        assert(enc_addr_list(w) == enc_addr(a));
    } else if items.len() == 1 {
        assert(w.drop_first() =~= seq![a]);
        assert(enc_addr_list(seq![a]) == enc_addr(a));
        assert(enc_addr_list(w) == enc_addr(items[0]) + seq![','] + enc_addr(a));
    } else {
        assert(w.drop_first() =~= items.drop_first().push(a));
        lemma_enc_addr_list_push(items.drop_first(), a);
        assert(enc_addr_list(w) =~= enc_addr_list(items) + seq![','] + enc_addr(a));
    }
}

/// The item views of an address info vector.
pub open spec fn addr_views(items: Seq<TransactionAddressInfo>) -> Seq<AddressInfoV> {
    items.map_values(|x: TransactionAddressInfo| x@)
}

/// Writes the canonical JSON document of an address info array.
pub fn append_addr_array(out: &mut String, items: &Vec<TransactionAddressInfo>)
    ensures
        final(out)@ == old(out)@ + enc_addr_array(addr_views(items@)),
{
    let ghost vs = addr_views(items@);
    crate::json::str_push_char(out, '[');
    let n = items.len();
    let mut j: usize = 0;
    while j < n
        invariant
            j <= n,
            n == items@.len(),
            vs == addr_views(items@),
            vs.len() == n,
            out@ == old(out)@ + seq!['['] + enc_addr_list(vs.take(j as int)),
        decreases n - j,
    {
        if j > 0 {
            crate::json::str_push_char(out, ',');
        }
        append_addr(out, &items[j]);
        proof {
            lemma_enc_addr_list_push(vs.take(j as int), vs[j as int]);
            assert(vs.take(j + 1 as int) =~= vs.take(j as int).push(vs[j as int]));
            assert(out@ =~= old(out)@ + seq!['['] + enc_addr_list(vs.take(j + 1 as int)));
        }
        j = j + 1;
    }
    crate::json::str_push_char(out, ']');
    assert(vs.take(n as int) =~= vs);
    assert(out@ =~= old(out)@ + enc_addr_array(vs));
}

/// Reads a canonical address info array at `i`.
pub fn decode_addr_array(s: &Vec<char>, i: usize) -> (r: Option<(Vec<TransactionAddressInfo>, usize)>)
    requires
        i <= s@.len(),
    ensures
        match r {
            Some(p) => parse_addr_array(s@, i as int) == Some((addr_views(p.0@), p.1 as int))
                && i < p.1 <= s@.len(),
            None => parse_addr_array(s@, i as int) is None,
        },
{
    if i >= s.len() || s[i] != '[' {
        return None;
    }
    if i + 1 >= s.len() {
        return None;
    }
    if s[i + 1] == ']' {
        let empty: Vec<TransactionAddressInfo> = Vec::new();
        assert(addr_views(empty@) =~= Seq::<AddressInfoV>::empty());
        return Some((empty, i + 2));
    }
    let mut acc: Vec<TransactionAddressInfo> = Vec::new();
    let mut cur: usize = i + 1;
    loop
        invariant
            i + 1 <= cur <= s@.len(),
            parse_addr_array(s@, i as int) == match parse_addr_items(s@, cur as int) {
                Some((more, k)) => Some((addr_views(acc@) + more, k)),
                None => None::<(Seq<AddressInfoV>, int)>,
            },
        decreases s@.len() - cur,
    {
        let (a, j) = match decode_addr(s, cur) {
            Some(p) => p,
            None => { return None; },
        };
        if j >= s.len() {
            return None;
        }
        if s[j] == ']' {
            let ghost accv = addr_views(acc@);
            acc.push(a);
            proof {
                assert(parse_addr_items(s@, cur as int) == Some((seq![a@], j + 1 as int)));
                assert(addr_views(acc@) =~= accv + seq![a@]);
            }
            return Some((acc, j + 1));
        } else if s[j] == ',' {
            let ghost accv = addr_views(acc@);
            acc.push(a);
            proof {
                assert(addr_views(acc@) =~= accv + seq![a@]);
                let r = parse_addr_items(s@, j + 1 as int);
                match r {
                    Some((more, k)) => {
                        assert(parse_addr_items(s@, cur as int) == Some((seq![a@] + more, k)));
                        assert(accv + (seq![a@] + more) =~= addr_views(acc@) + more);
                    },
                    None => {
                        assert(parse_addr_items(s@, cur as int) is None);
                    },
                }
            }
            cur = j + 1;
        } else {
            return None;
        }
    }
}


// ---------------------------------------------------------------------------
// The transaction record
// ---------------------------------------------------------------------------

/// The canonical JSON document of a transaction record.
#[verifier::opaque]
pub open spec fn enc_tx(t: TransactionV) -> Seq<char> {
    "{\"id\":"@ + (jstr(t.id) + (",\"from\":"@ + (enc_addr_array(t.from) + (",\"to\":"@ + (enc_addr(t.to) + (",\"fromValue\":"@ + (jstr(t.from_value) + (",\"fromCurrency\":"@ + (jstr(t.from_currency) + (",\"toValue\":"@ + (jstr(t.to_value) + (",\"toCurrency\":"@ + (jstr(t.to_currency) + (",\"fee\":"@ + (jstr(t.fee) + (",\"status\":"@ + (jstr(t.status) + (",\"blockchainTxId\":"@ + (enc_opt_str(t.blockchain_tx_id) + (",\"createdAt\":"@ + (jstr(t.created_at) + (",\"updatedAt\":"@ + (jstr(t.updated_at) + ("}"@))))))))))))))))))))))))
}

/// The strict parser for a transaction record starting at `i`.
pub open spec fn parse_tx(s: Seq<char>, i: int) -> Option<(TransactionV, int)> {
    match parse_lit(s, i, "{\"id\":"@) {
        None => None,
        Some(i1) => match sscan(s, i1) {
            None => None,
            Some((id, i2)) => match parse_lit(s, i2, ",\"from\":"@) {
                None => None,
                Some(i3) => match parse_addr_array(s, i3) {
                    None => None,
                    Some((from, i4)) => match parse_lit(s, i4, ",\"to\":"@) {
                        None => None,
                        Some(i5) => match parse_addr(s, i5) {
                            None => None,
                            Some((to, i6)) => match parse_lit(s, i6, ",\"fromValue\":"@) {
                                None => None,
                                Some(i7) => match sscan(s, i7) {
                                    None => None,
                                    Some((from_value, i8)) => match parse_lit(s, i8, ",\"fromCurrency\":"@) {
                                        None => None,
                                        Some(i9) => match sscan(s, i9) {
                                            None => None,
                                            Some((from_currency, i10)) => parse_tx_rest(s, i10, id, from, to, from_value, from_currency),
                                        },
                                    },
                                },
                            },
                        },
                    },
                },
            },
        },
    }
}

/// The second half of the strict transaction parser, from `toValue` on.
pub open spec fn parse_tx_rest(
    s: Seq<char>,
    i10: int,
    id: Seq<char>,
    from: Seq<AddressInfoV>,
    to: AddressInfoV,
    from_value: Seq<char>,
    from_currency: Seq<char>,
) -> Option<(TransactionV, int)> {
    match parse_lit(s, i10, ",\"toValue\":"@) {
        None => None,
        Some(i11) => match sscan(s, i11) {
            None => None,
            Some((to_value, i12)) => match parse_lit(s, i12, ",\"toCurrency\":"@) {
                None => None,
                Some(i13) => match sscan(s, i13) {
                    None => None,
                    Some((to_currency, i14)) => match parse_lit(s, i14, ",\"fee\":"@) {
                        None => None,
                        Some(i15) => match sscan(s, i15) {
                            None => None,
                            Some((fee, i16)) => match parse_lit(s, i16, ",\"status\":"@) {
                                None => None,
                                Some(i17) => match sscan(s, i17) {
                                    None => None,
                                    Some((status, i18)) => match parse_lit(s, i18, ",\"blockchainTxId\":"@) {
                                        None => None,
                                        Some(i19) => match parse_opt_str(s, i19) {
                                            None => None,
                                            Some((blockchain_tx_id, i20)) => match parse_lit(s, i20, ",\"createdAt\":"@) {
                                                None => None,
                                                Some(i21) => match sscan(s, i21) {
                                                    None => None,
                                                    Some((created_at, i22)) => match parse_lit(s, i22, ",\"updatedAt\":"@) {
                                                        None => None,
                                                        Some(i23) => match sscan(s, i23) {
                                                            None => None,
                                                            Some((updated_at, i24)) =>
                                                                if i24 < s.len() && s[i24] == '}' {
                                                                    Some((TransactionV {
                                                                        id, from, to, from_value, from_currency,
                                                                        to_value, to_currency, fee, status,
                                                                        blockchain_tx_id, created_at, updated_at,
                                                                    }, i24 + 1))
                                                                } else {
                                                                    None
                                                                },
                                                        },
                                                    },
                                                },
                                            },
                                        },
                                    },
                                },
                            },
                        },
                    },
                },
            },
        },
    }
}

/// Pushes a trailing context into a nested concatenation, one level deep.
proof fn shift_tail(a: Seq<char>, u: Seq<char>, rest: Seq<char>, w: Seq<char>)
    requires
        u + rest == w,
    ensures
        (a + u) + rest == a + w,
{
    vstd::seq_lib::lemma_concat_associative(a, u, rest);
}

/// One strict `key:array` step. Returns the prefix up to and over the array.
proof fn arr_step(s: Seq<char>, pre: Seq<char>, key: Seq<char>, items: Seq<AddressInfoV>, rest: Seq<char>) -> (p: Seq<char>)
    requires
        s == pre + (key + (enc_addr_array(items) + rest)),
    ensures
        p == pre + key + enc_addr_array(items),
        parse_lit(s, pre.len() as int, key) == Some((pre.len() + key.len()) as int),
        parse_addr_array(s, (pre.len() + key.len()) as int)
            == Some((items, (pre.len() + key.len() + enc_addr_array(items).len()) as int)),
        s == p + rest,
{
    vstd::seq_lib::lemma_concat_associative(pre, key, enc_addr_array(items) + rest);
    lemma_lit_at(pre, key, enc_addr_array(items) + rest);
    vstd::seq_lib::lemma_concat_associative(pre + key, enc_addr_array(items), rest);
    lemma_addr_array_at(items, pre + key, rest);
    pre + key + enc_addr_array(items)
}

/// One strict `key:object` step for an embedded address info record.
proof fn obj_step(s: Seq<char>, pre: Seq<char>, key: Seq<char>, a: AddressInfoV, rest: Seq<char>) -> (p: Seq<char>)
    requires
        s == pre + (key + (enc_addr(a) + rest)),
    ensures
        p == pre + key + enc_addr(a),
        parse_lit(s, pre.len() as int, key) == Some((pre.len() + key.len()) as int),
        parse_addr(s, (pre.len() + key.len()) as int)
            == Some((a, (pre.len() + key.len() + enc_addr(a).len()) as int)),
        s == p + rest,
{
    vstd::seq_lib::lemma_concat_associative(pre, key, enc_addr(a) + rest);
    lemma_lit_at(pre, key, enc_addr(a) + rest);
    vstd::seq_lib::lemma_concat_associative(pre + key, enc_addr(a), rest);
    lemma_addr_at(a, pre + key, rest);
    pre + key + enc_addr(a)
}

/// A transaction document embedded at `pre.len()` parses back to its record
/// and stops right after its closing brace.
#[verifier::rlimit(100)]
#[verifier::spinoff_prover]
pub proof fn lemma_tx_at(t: TransactionV, pre: Seq<char>, rest: Seq<char>)
    ensures
        parse_tx(pre + (enc_tx(t) + rest), pre.len() as int)
            == Some((t, pre.len() + enc_tx(t).len() as int)),
{
    reveal(enc_tx);
    let s = pre + (enc_tx(t) + rest);
    let k13 = "}"@;
    let x12 = jstr(t.updated_at);
    let k12 = ",\"updatedAt\":"@;
    let x11 = jstr(t.created_at);
    let k11 = ",\"createdAt\":"@;
    let x10 = enc_opt_str(t.blockchain_tx_id);
    let k10 = ",\"blockchainTxId\":"@;
    let x9 = jstr(t.status);
    let k9 = ",\"status\":"@;
    let x8 = jstr(t.fee);
    let k8 = ",\"fee\":"@;
    let x7 = jstr(t.to_currency);
    let k7 = ",\"toCurrency\":"@;
    let x6 = jstr(t.to_value);
    let k6 = ",\"toValue\":"@;
    let x5 = jstr(t.from_currency);
    let k5 = ",\"fromCurrency\":"@;
    let x4 = jstr(t.from_value);
    let k4 = ",\"fromValue\":"@;
    let x3 = enc_addr(t.to);
    let k3 = ",\"to\":"@;
    let x2 = enc_addr_array(t.from);
    let k2 = ",\"from\":"@;
    let x1 = jstr(t.id);
    let k1 = "{\"id\":"@;
    let u25 = k13;
    let w25 = k13 + rest;
    let u24 = x12 + u25;
    let w24 = x12 + w25;
    shift_tail(x12, u25, rest, w25);
    let u23 = k12 + u24;
    let w23 = k12 + w24;
    shift_tail(k12, u24, rest, w24);
    let u22 = x11 + u23;
    let w22 = x11 + w23;
    shift_tail(x11, u23, rest, w23);
    let u21 = k11 + u22;
    let w21 = k11 + w22;
    shift_tail(k11, u22, rest, w22);
    let u20 = x10 + u21;
    let w20 = x10 + w21;
    shift_tail(x10, u21, rest, w21);
    let u19 = k10 + u20;
    let w19 = k10 + w20;
    shift_tail(k10, u20, rest, w20);
    let u18 = x9 + u19;
    let w18 = x9 + w19;
    shift_tail(x9, u19, rest, w19);
    let u17 = k9 + u18;
    let w17 = k9 + w18;
    shift_tail(k9, u18, rest, w18);
    let u16 = x8 + u17;
    let w16 = x8 + w17;
    shift_tail(x8, u17, rest, w17);
    let u15 = k8 + u16;
    let w15 = k8 + w16;
    shift_tail(k8, u16, rest, w16);
    let u14 = x7 + u15;
    let w14 = x7 + w15;
    shift_tail(x7, u15, rest, w15);
    let u13 = k7 + u14;
    let w13 = k7 + w14;
    shift_tail(k7, u14, rest, w14);
    let u12 = x6 + u13;
    let w12 = x6 + w13;
    shift_tail(x6, u13, rest, w13);
    let u11 = k6 + u12;
    let w11 = k6 + w12;
    shift_tail(k6, u12, rest, w12);
    let u10 = x5 + u11;
    let w10 = x5 + w11;
    shift_tail(x5, u11, rest, w11);
    let u9 = k5 + u10;
    let w9 = k5 + w10;
    shift_tail(k5, u10, rest, w10);
    let u8 = x4 + u9;
    let w8 = x4 + w9;
    shift_tail(x4, u9, rest, w9);
    let u7 = k4 + u8;
    let w7 = k4 + w8;
    shift_tail(k4, u8, rest, w8);
    let u6 = x3 + u7;
    let w6 = x3 + w7;
    shift_tail(x3, u7, rest, w7);
    let u5 = k3 + u6;
    let w5 = k3 + w6;
    shift_tail(k3, u6, rest, w6);
    let u4 = x2 + u5;
    let w4 = x2 + w5;
    shift_tail(x2, u5, rest, w5);
    let u3 = k2 + u4;
    let w3 = k2 + w4;
    shift_tail(k2, u4, rest, w4);
    let u2 = x1 + u3;
    let w2 = x1 + w3;
    shift_tail(x1, u3, rest, w3);
    let u1 = k1 + u2;
    let w1 = k1 + w2;
    shift_tail(k1, u2, rest, w2);
    assert(enc_tx(t) == u1);
    assert(s == pre + w1);

    let p1 = kv_step(s, pre, k1, t.id, w3);
    let p2 = arr_step(s, p1, k2, t.from, w5);
    let p3 = obj_step(s, p2, k3, t.to, w7);
    let p4 = kv_step(s, p3, k4, t.from_value, w9);
    let p5 = kv_step(s, p4, k5, t.from_currency, w11);
    let p6 = kv_step(s, p5, k6, t.to_value, w13);
    let p7 = kv_step(s, p6, k7, t.to_currency, w15);
    let p8 = kv_step(s, p7, k8, t.fee, w17);
    let p9 = kv_step(s, p8, k9, t.status, w19);
    let p10 = kv_opt_step(s, p9, k10, t.blockchain_tx_id, w21);
    let p11 = kv_step(s, p10, k11, t.created_at, w23);
    let p12 = kv_step(s, p11, k12, t.updated_at, w25);

    reveal_strlit("}");
    assert(s == p12 + (k13 + rest));
    assert(s[p12.len() as int] == '}');
    assert(p12.len() + 1 == pre.len() + enc_tx(t).len());
}


/// Writes the canonical JSON document of a transaction record.
#[verifier::rlimit(100)]
pub fn append_tx(out: &mut String, t: &TransactionsResponse)
    ensures
        final(out)@ == old(out)@ + enc_tx(t@),
{
    out.append("{\"id\":");
    append_jstr(out, t.id.as_str());
    out.append(",\"from\":");
    append_addr_array(out, &t.from);
    out.append(",\"to\":");
    append_addr(out, &t.to);
    out.append(",\"fromValue\":");
    append_jstr(out, t.from_value.as_str());
    out.append(",\"fromCurrency\":");
    append_jstr(out, t.from_currency.as_str());
    out.append(",\"toValue\":");
    append_jstr(out, t.to_value.as_str());
    out.append(",\"toCurrency\":");
    append_jstr(out, t.to_currency.as_str());
    out.append(",\"fee\":");
    append_jstr(out, t.fee.as_str());
    out.append(",\"status\":");
    append_jstr(out, t.status.as_str());
    out.append(",\"blockchainTxId\":");
    append_opt_str(out, &t.blockchain_tx_id);
    out.append(",\"createdAt\":");
    append_jstr(out, t.created_at.as_str());
    out.append(",\"updatedAt\":");
    append_jstr(out, t.updated_at.as_str());
    out.append("}");
    proof {
        reveal(enc_tx);
        assert(t@.from =~= addr_views(t.from@));
        let k1 = "{\"id\":"@;
        let x1 = jstr(t@.id);
        let k2 = ",\"from\":"@;
        let x2 = enc_addr_array(t@.from);
        let k3 = ",\"to\":"@;
        let x3 = enc_addr(t@.to);
        let k4 = ",\"fromValue\":"@;
        let x4 = jstr(t@.from_value);
        let k5 = ",\"fromCurrency\":"@;
        let x5 = jstr(t@.from_currency);
        let k6 = ",\"toValue\":"@;
        let x6 = jstr(t@.to_value);
        let k7 = ",\"toCurrency\":"@;
        let x7 = jstr(t@.to_currency);
        let k8 = ",\"fee\":"@;
        let x8 = jstr(t@.fee);
        let k9 = ",\"status\":"@;
        let x9 = jstr(t@.status);
        let k10 = ",\"blockchainTxId\":"@;
        let x10 = enc_opt_str(t@.blockchain_tx_id);
        let k11 = ",\"createdAt\":"@;
        let x11 = jstr(t@.created_at);
        let k12 = ",\"updatedAt\":"@;
        let x12 = jstr(t@.updated_at);
        let k13 = "}"@;
        let u25 = k13;
        let u24 = x12 + u25;
        let u23 = k12 + u24;
        let u22 = x11 + u23;
        let u21 = k11 + u22;
        let u20 = x10 + u21;
        let u19 = k10 + u20;
        let u18 = x9 + u19;
        let u17 = k9 + u18;
        let u16 = x8 + u17;
        let u15 = k8 + u16;
        let u14 = x7 + u15;
        let u13 = k7 + u14;
        let u12 = x6 + u13;
        let u11 = k6 + u12;
        let u10 = x5 + u11;
        let u9 = k5 + u10;
        let u8 = x4 + u9;
        let u7 = k4 + u8;
        let u6 = x3 + u7;
        let u5 = k3 + u6;
        let u4 = x2 + u5;
        let u3 = k2 + u4;
        let u2 = x1 + u3;
        let u1 = k1 + u2;
        assert(enc_tx(t@) == u1);
        let g0 = old(out)@;
        let g1 = g0 + k1;
        let g2 = g1 + x1;
        let g3 = g2 + k2;
        let g4 = g3 + x2;
        let g5 = g4 + k3;
        let g6 = g5 + x3;
        let g7 = g6 + k4;
        let g8 = g7 + x4;
        let g9 = g8 + k5;
        let g10 = g9 + x5;
        let g11 = g10 + k6;
        let g12 = g11 + x6;
        let g13 = g12 + k7;
        let g14 = g13 + x7;
        let g15 = g14 + k8;
        let g16 = g15 + x8;
        let g17 = g16 + k9;
        let g18 = g17 + x9;
        let g19 = g18 + k10;
        let g20 = g19 + x10;
        let g21 = g20 + k11;
        let g22 = g21 + x11;
        let g23 = g22 + k12;
        let g24 = g23 + x12;
        let g25 = g24 + k13;
        assert(out@ == g25);
        vstd::seq_lib::lemma_concat_associative(g0, k1, u2);
        assert(g1 + u2 == g0 + u1);
        vstd::seq_lib::lemma_concat_associative(g1, x1, u3);
        assert(g2 + u3 == g1 + u2);
        vstd::seq_lib::lemma_concat_associative(g2, k2, u4);
        assert(g3 + u4 == g2 + u3);
        vstd::seq_lib::lemma_concat_associative(g3, x2, u5);
        assert(g4 + u5 == g3 + u4);
        vstd::seq_lib::lemma_concat_associative(g4, k3, u6);
        assert(g5 + u6 == g4 + u5);
        vstd::seq_lib::lemma_concat_associative(g5, x3, u7);
        assert(g6 + u7 == g5 + u6);
        vstd::seq_lib::lemma_concat_associative(g6, k4, u8);
        assert(g7 + u8 == g6 + u7);
        vstd::seq_lib::lemma_concat_associative(g7, x4, u9);
        assert(g8 + u9 == g7 + u8);
        vstd::seq_lib::lemma_concat_associative(g8, k5, u10);
        assert(g9 + u10 == g8 + u9);
        vstd::seq_lib::lemma_concat_associative(g9, x5, u11);
        assert(g10 + u11 == g9 + u10);
        vstd::seq_lib::lemma_concat_associative(g10, k6, u12);
        assert(g11 + u12 == g10 + u11);
        vstd::seq_lib::lemma_concat_associative(g11, x6, u13);
        assert(g12 + u13 == g11 + u12);
        vstd::seq_lib::lemma_concat_associative(g12, k7, u14);
        assert(g13 + u14 == g12 + u13);
        vstd::seq_lib::lemma_concat_associative(g13, x7, u15);
        assert(g14 + u15 == g13 + u14);
        vstd::seq_lib::lemma_concat_associative(g14, k8, u16);
        assert(g15 + u16 == g14 + u15);
        vstd::seq_lib::lemma_concat_associative(g15, x8, u17);
        assert(g16 + u17 == g15 + u16);
        vstd::seq_lib::lemma_concat_associative(g16, k9, u18);
        assert(g17 + u18 == g16 + u17);
        vstd::seq_lib::lemma_concat_associative(g17, x9, u19);
        assert(g18 + u19 == g17 + u18);
        vstd::seq_lib::lemma_concat_associative(g18, k10, u20);
        assert(g19 + u20 == g18 + u19);
        vstd::seq_lib::lemma_concat_associative(g19, x10, u21);
        assert(g20 + u21 == g19 + u20);
        vstd::seq_lib::lemma_concat_associative(g20, k11, u22);
        assert(g21 + u22 == g20 + u21);
        vstd::seq_lib::lemma_concat_associative(g21, x11, u23);
        assert(g22 + u23 == g21 + u22);
        vstd::seq_lib::lemma_concat_associative(g22, k12, u24);
        assert(g23 + u24 == g22 + u23);
        vstd::seq_lib::lemma_concat_associative(g23, x12, u25);
        assert(g24 + u25 == g23 + u24);
        assert(out@ == old(out)@ + enc_tx(t@));
    }
}

/// Reads a canonical transaction record at `i`.
pub fn decode_tx(s: &Vec<char>, i: usize) -> (r: Option<(TransactionsResponse, usize)>)
    requires
        i <= s@.len(),
    ensures
        match r {
            Some(p) => parse_tx(s@, i as int) == Some((p.0@, p.1 as int)) && i < p.1 <= s@.len(),
            None => parse_tx(s@, i as int) is None,
        },
{
    let i1 = match expect_lit(s, i, "{\"id\":") {
        Some(j) => j,
        None => { return None; },
    };
    let (id, i2) = match scan_jstr(s, i1) {
        Some(p) => p,
        None => { return None; },
    };
    let i3 = match expect_lit(s, i2, ",\"from\":") {
        Some(j) => j,
        None => { return None; },
    };
    let (from, i4) = match decode_addr_array(s, i3) {
        Some(p) => p,
        None => { return None; },
    };
    let i5 = match expect_lit(s, i4, ",\"to\":") {
        Some(j) => j,
        None => { return None; },
    };
    let (to, i6) = match decode_addr(s, i5) {
        Some(p) => p,
        None => { return None; },
    };
    let i7 = match expect_lit(s, i6, ",\"fromValue\":") {
        Some(j) => j,
        None => { return None; },
    };
    let (from_value, i8) = match scan_jstr(s, i7) {
        Some(p) => p,
        None => { return None; },
    };
    let i9 = match expect_lit(s, i8, ",\"fromCurrency\":") {
        Some(j) => j,
        None => { return None; },
    };
    let (from_currency, i10) = match scan_jstr(s, i9) {
        Some(p) => p,
        None => { return None; },
    };
    let i11 = match expect_lit(s, i10, ",\"toValue\":") {
        Some(j) => j,
        None => { return None; },
    };
    let (to_value, i12) = match scan_jstr(s, i11) {
        Some(p) => p,
        None => { return None; },
    };
    let i13 = match expect_lit(s, i12, ",\"toCurrency\":") {
        Some(j) => j,
        None => { return None; },
    };
    let (to_currency, i14) = match scan_jstr(s, i13) {
        Some(p) => p,
        None => { return None; },
    };
    let i15 = match expect_lit(s, i14, ",\"fee\":") {
        Some(j) => j,
        None => { return None; },
    };
    let (fee, i16) = match scan_jstr(s, i15) {
        Some(p) => p,
        None => { return None; },
    };
    let i17 = match expect_lit(s, i16, ",\"status\":") {
        Some(j) => j,
        None => { return None; },
    };
    let (status, i18) = match scan_jstr(s, i17) {
        Some(p) => p,
        None => { return None; },
    };
    let i19 = match expect_lit(s, i18, ",\"blockchainTxId\":") {
        Some(j) => j,
        None => { return None; },
    };
    let (blockchain_tx_id, i20) = match decode_opt_str(s, i19) {
        Some(p) => p,
        None => { return None; },
    };
    let i21 = match expect_lit(s, i20, ",\"createdAt\":") {
        Some(j) => j,
        None => { return None; },
    };
    let (created_at, i22) = match scan_jstr(s, i21) {
        Some(p) => p,
        None => { return None; },
    };
    let i23 = match expect_lit(s, i22, ",\"updatedAt\":") {
        Some(j) => j,
        None => { return None; },
    };
    let (updated_at, i24) = match scan_jstr(s, i23) {
        Some(p) => p,
        None => { return None; },
    };
    if i24 < s.len() && s[i24] == '}' {
        Some((TransactionsResponse {
            id, from, to, from_value, from_currency, to_value, to_currency, fee, status,
            blockchain_tx_id, created_at, updated_at,
        }, i24 + 1))
    } else {
        None
    }
}

// ---------------------------------------------------------------------------
// The push document
// ---------------------------------------------------------------------------

/// The canonical JSON document of a push notification.
pub open spec fn enc_push(p: PushV) -> Seq<char> {
    "{\"deviceId\":"@ + (jstr(p.device_id) + (",\"transaction\":"@ + (enc_tx(p.transaction)
        + "}"@)))
}

/// The strict parser for the canonical push document: it accepts exactly the
/// documents [`enc_push`] produces.
pub open spec fn parse_push(s: Seq<char>) -> Option<PushV> {
    match parse_lit(s, 0, "{\"deviceId\":"@) {
        None => None,
        Some(i1) => match sscan(s, i1) {
            None => None,
            Some((device_id, i2)) => match parse_lit(s, i2, ",\"transaction\":"@) {
                None => None,
                Some(i3) => match parse_tx(s, i3) {
                    None => None,
                    Some((transaction, i4)) =>
                        if i4 + 1 == s.len() && s[i4] == '}' {
                            Some(PushV { device_id, transaction })
                        } else {
                            None
                        },
                },
            },
        },
    }
}

/// One strict `key:transaction` step. Returns the prefix up to and over the
/// record.
proof fn tx_step(s: Seq<char>, pre: Seq<char>, key: Seq<char>, t: TransactionV, rest: Seq<char>) -> (p: Seq<char>)
    requires
        s == pre + (key + (enc_tx(t) + rest)),
    ensures
        p == pre + key + enc_tx(t),
        parse_lit(s, pre.len() as int, key) == Some((pre.len() + key.len()) as int),
        parse_tx(s, (pre.len() + key.len()) as int)
            == Some((t, (pre.len() + key.len() + enc_tx(t).len()) as int)),
        s == p + rest,
{
    vstd::seq_lib::lemma_concat_associative(pre, key, enc_tx(t) + rest);
    lemma_lit_at(pre, key, enc_tx(t) + rest);
    vstd::seq_lib::lemma_concat_associative(pre + key, enc_tx(t), rest);
    lemma_tx_at(t, pre + key, rest);
    pre + key + enc_tx(t)
}

/// Parsing the canonical push document yields the push back.
pub proof fn lemma_push_round_trip(p: PushV)
    ensures
        parse_push(enc_push(p)) == Some(p),
{
    let m1 = "{\"deviceId\":"@;
    let m2 = ",\"transaction\":"@;
    let m3 = "}"@;
    let s = enc_push(p);
    let p0 = Seq::<char>::empty();
    assert(s =~= p0 + (m1 + (jstr(p.device_id) + (m2 + (enc_tx(p.transaction) + m3)))));
    let q1 = kv_step(s, p0, m1, p.device_id, m2 + (enc_tx(p.transaction) + m3));
    let q2 = tx_step(s, q1, m2, p.transaction, m3);
    reveal_strlit("}");
    assert(s == q2 + m3);
    assert(s[q2.len() as int] == '}');
    assert(q2.len() + 1 == s.len());
}

/// Writes the canonical JSON document of a push notification.
pub fn encode_push(p: &PushNotifications) -> (r: String)
    ensures
        r@ == enc_push(p@),
{
    let mut out = String::new();
    out.append("{\"deviceId\":");
    append_jstr(&mut out, p.device_id.as_str());
    out.append(",\"transaction\":");
    append_tx(&mut out, &p.transaction);
    out.append("}");
    assert(out@ =~= enc_push(p@));
    out
}

/// Reads the canonical JSON document of a push notification.
pub fn decode_push_str(s: &str) -> (r: Option<PushNotifications>)
    ensures
        match r {
            Some(p) => parse_push(s@) == Some(p@),
            None => parse_push(s@) is None,
        },
{
    let chars = str_to_chars(s);
    let i1 = match expect_lit(&chars, 0, "{\"deviceId\":") {
        Some(j) => j,
        None => { return None; },
    };
    let (device_id, i2) = match scan_jstr(&chars, i1) {
        Some(p) => p,
        None => { return None; },
    };
    let i3 = match expect_lit(&chars, i2, ",\"transaction\":") {
        Some(j) => j,
        None => { return None; },
    };
    let (transaction, i4) = match decode_tx(&chars, i3) {
        Some(p) => p,
        None => { return None; },
    };
    if chars.len() - i4 == 1 && chars[i4] == '}' {
        Some(PushNotifications { device_id, transaction })
    } else {
        None
    }
}

// ---------------------------------------------------------------------------
// Reading the general JSON spelling
// ---------------------------------------------------------------------------

/// The view of an optional optional string slot.
pub open spec fn opt_opt_view(o: Option<Option<String>>) -> Option<Option<Seq<char>>> {
    match o {
        Some(v) => Some(opt_view(v)),
        None => None,
    }
}

/// The view of an optional address-list slot.
pub open spec fn opt_addr_list_view(o: Option<Vec<TransactionAddressInfo>>) -> Option<
    Seq<AddressInfoV>,
> {
    match o {
        Some(v) => Some(addr_views(v@)),
        None => None,
    }
}

/// The view of an optional address-record slot.
pub open spec fn opt_addr_view(o: Option<TransactionAddressInfo>) -> Option<AddressInfoV> {
    match o {
        Some(v) => Some(v@),
        None => None,
    }
}

/// The view of an optional transaction slot.
pub open spec fn opt_tx_view(o: Option<TransactionsResponse>) -> Option<TransactionV> {
    match o {
        Some(v) => Some(v@),
        None => None,
    }
}

/// An address info object in any spelling at `i`.
pub open spec fn addr_obj_rx(s: Seq<char>, i: int) -> Option<(AddressInfoV, int)> {
    if 0 <= i < s.len() && s[i] == '{' {
        ad_fields(s, i + 1, ad_slots_empty())
    } else {
        None
    }
}

/// Reads an address info object in any spelling at `i`.
fn decode_addr_obj_rx(s: &Vec<char>, i: usize) -> (r: Option<(TransactionAddressInfo, usize)>)
    requires
        i <= s@.len(),
    ensures
        match r {
            Some(p) => addr_obj_rx(s@, i as int) == Some((p.0@, p.1 as int)) && i < p.1
                <= s@.len(),
            None => addr_obj_rx(s@, i as int) is None,
        },
{
    if i >= s.len() || s[i] != '{' {
        return None;
    }
    decode_ad_fields(s, i + 1)
}

/// The items of an address array in any spelling, from the first item on.
pub open spec fn arr_items_rx(s: Seq<char>, i: int, acc: Seq<AddressInfoV>) -> Option<
    (Seq<AddressInfoV>, int),
>
    decreases s.len() - i,
{
    let iw = ws_end(s, i);
    if i < 0 || iw < i || iw >= s.len() {
        None
    } else {
        match addr_obj_rx(s, iw) {
            None => None,
            Some((a, j)) => {
                let jw = ws_end(s, j);
                if j <= iw || jw < j || jw >= s.len() {
                    None
                } else if s[jw] == ',' {
                    arr_items_rx(s, jw + 1, acc.push(a))
                } else if s[jw] == ']' {
                    Some((acc.push(a), jw + 1))
                } else {
                    None
                }
            },
        }
    }
}

/// An address array in any spelling at `i`.
pub open spec fn rarr(s: Seq<char>, i: int) -> Option<(Seq<AddressInfoV>, int)> {
    if 0 <= i < s.len() && s[i] == '[' {
        let iw = ws_end(s, i + 1);
        if iw >= s.len() {
            None
        } else if s[iw] == ']' {
            Some((Seq::empty(), iw + 1))
        } else {
            arr_items_rx(s, i + 1, Seq::empty())
        }
    } else {
        None
    }
}

/// Reads an address array in any spelling at `i`.
fn decode_arr_rx(s: &Vec<char>, i: usize) -> (r: Option<(Vec<TransactionAddressInfo>, usize)>)
    requires
        i <= s@.len(),
    ensures
        match r {
            Some(p) => rarr(s@, i as int) == Some((addr_views(p.0@), p.1 as int)) && i < p.1
                <= s@.len(),
            None => rarr(s@, i as int) is None,
        },
{
    if i >= s.len() || s[i] != '[' {
        return None;
    }
    let iw0 = skip_ws(s, i + 1);
    if iw0 >= s.len() {
        return None;
    }
    if s[iw0] == ']' {
        let empty: Vec<TransactionAddressInfo> = Vec::new();
        assert(addr_views(empty@) =~= Seq::<AddressInfoV>::empty());
        return Some((empty, iw0 + 1));
    }
    let mut acc: Vec<TransactionAddressInfo> = Vec::new();
    assert(addr_views(acc@) =~= Seq::<AddressInfoV>::empty());
    let mut cur: usize = i + 1;
    loop
        invariant
            i + 1 <= cur <= s@.len(),
            rarr(s@, i as int) == arr_items_rx(s@, cur as int, addr_views(acc@)),
        decreases s@.len() - cur,
    {
        let iw = skip_ws(s, cur);
        if iw >= s.len() {
            return None;
        }
        let (a, j) = match decode_addr_obj_rx(s, iw) {
            Some(p) => p,
            None => {
                return None;
            },
        };
        let jw = skip_ws(s, j);
        if jw >= s.len() {
            return None;
        }
        if s[jw] == ',' {
            let ghost accv = addr_views(acc@);
            acc.push(a);
            proof {
                assert(addr_views(acc@) =~= accv.push(a@));
                assert(arr_items_rx(s@, cur as int, accv) == arr_items_rx(
                    s@,
                    jw + 1 as int,
                    addr_views(acc@),
                ));
            }
            cur = jw + 1;
        } else if s[jw] == ']' {
            let ghost accv = addr_views(acc@);
            acc.push(a);
            proof {
                assert(addr_views(acc@) =~= accv.push(a@));
                assert(arr_items_rx(s@, cur as int, accv) == Some((
                    addr_views(acc@),
                    jw + 1 as int,
                )));
            }
            return Some((acc, jw + 1));
        } else {
            return None;
        }
    }
}

/// The fields of the document collected so far.
pub struct AdSlots {
    pub account_id: Option<Option<Seq<char>>>,
    pub owner_name: Option<Option<Seq<char>>>,
    pub blockchain_address: Option<Seq<char>>,
}

/// No field seen yet.
pub open spec fn ad_slots_empty() -> AdSlots {
    AdSlots { account_id: None, owner_name: None, blockchain_address: None }
}

/// A finished object: every required field present exactly once.
pub open spec fn ad_finish(sl: AdSlots, j: int) -> Option<(AddressInfoV, int)> {
    if sl.blockchain_address is Some {
        Some((
            AddressInfoV {
                account_id: match sl.account_id { Some(v) => v, None => None },
                owner_name: match sl.owner_name { Some(v) => v, None => None },
                blockchain_address: sl.blockchain_address->0,
            },
            j,
        ))
    } else {
        None
    }
}

/// One field value at `k`: a known key takes its typed value, once;
/// any other key's value is skipped.
pub open spec fn ad_field_value(s: Seq<char>, k: int, key: Seq<char>, sl: AdSlots) -> Option<
    (AdSlots, int),
> {
    if key == "account_id"@ {
        if sl.account_id is Some {
            None
        } else {
            match ropt(s, k) {
                Some((v, m)) => Some((AdSlots { account_id: Some(v), ..sl }, m)),
                None => None,
            }
        }
    } else if key == "owner_name"@ {
        if sl.owner_name is Some {
            None
        } else {
            match ropt(s, k) {
                Some((v, m)) => Some((AdSlots { owner_name: Some(v), ..sl }, m)),
                None => None,
            }
        }
    } else if key == "blockchain_address"@ {
        if sl.blockchain_address is Some {
            None
        } else {
            match rscan(s, k) {
                Some((v, m)) => Some((AdSlots { blockchain_address: Some(v), ..sl }, m)),
                None => None,
            }
        }
    } else {
        match skip_value(s, k) {
            Some(m) => Some((sl, m)),
            None => None,
        }
    }
}

/// The member list of the object, keys in any order, whitespace
/// anywhere, unknown members skipped.
pub open spec fn ad_fields(s: Seq<char>, i: int, sl: AdSlots) -> Option<(AddressInfoV, int)>
    decreases s.len() - i,
{
    let iw = ws_end(s, i);
    if i < 0 || iw < i || iw >= s.len() {
        None
    } else if s[iw] == '}' {
        ad_finish(sl, iw + 1)
    } else {
        match rscan(s, iw) {
            None => None,
            Some((key, j)) => {
                let jw = ws_end(s, j);
                if j <= iw || jw < j || jw >= s.len() || s[jw] != ':' {
                    None
                } else {
                    match ad_field_value(s, ws_end(s, jw + 1), key, sl) {
                        None => None,
                        Some((sl2, m)) => {
                            let mw = ws_end(s, m);
                            if m <= jw || mw < m || mw >= s.len() {
                                None
                            } else if s[mw] == ',' {
                                ad_fields(s, mw + 1, sl2)
                            } else if s[mw] == '}' {
                                ad_finish(sl2, mw + 1)
                            } else {
                                None
                            }
                        },
                    }
                }
            },
        }
    }
}

/// Reads the member list of the object in any spelling.
fn decode_ad_fields(s: &Vec<char>, start: usize) -> (r: Option<(TransactionAddressInfo, usize)>)
    requires
        start <= s@.len(),
    ensures
        match r {
            Some(p) => ad_fields(s@, start as int, ad_slots_empty()) == Some((p.0@, p.1 as int))
                && start < p.1 <= s@.len(),
            None => ad_fields(s@, start as int, ad_slots_empty()) is None,
        },
{
    let mut account_id: Option<Option<String>> = None;
    let mut owner_name: Option<Option<String>> = None;
    let mut blockchain_address: Option<String> = None;
    let mut cur: usize = start;
    loop
        invariant
            start <= cur <= s@.len(),
            ad_fields(s@, start as int, ad_slots_empty()) == ad_fields(
                s@,
                cur as int,
                AdSlots {
                    account_id: opt_opt_view(account_id),
                    owner_name: opt_opt_view(owner_name),
                    blockchain_address: opt_view(blockchain_address),
                },
            ),
        decreases s@.len() - cur,
    {
        let ghost sl = AdSlots {
            account_id: opt_opt_view(account_id),
            owner_name: opt_opt_view(owner_name),
            blockchain_address: opt_view(blockchain_address),
        };
        let iw = skip_ws(s, cur);
        if iw >= s.len() {
            return None;
        }
        if s[iw] == '}' {
            assert(ad_fields(s@, cur as int, sl) == ad_finish(sl, iw + 1));
            return match (account_id, owner_name, blockchain_address) {
                (account_id_o, owner_name_o, Some(blockchain_address_v)) => Some(
                    (
                        TransactionAddressInfo {
                            account_id: match account_id_o { Some(v) => v, None => None },
                            owner_name: match owner_name_o { Some(v) => v, None => None },
                            blockchain_address: blockchain_address_v,
                        },
                        iw + 1,
                    ),
                ),
                _ => None,
            };
        }
        let (key, j) = match scan_jstr_relaxed(s, iw) {
            Some(p) => p,
            None => {
                return None;
            },
        };
        let jw = skip_ws(s, j);
        if jw >= s.len() || s[jw] != ':' {
            return None;
        }
        let k = skip_ws(s, jw + 1);
        let m: usize;
        if crate::json::str_eq(key.as_str(), "account_id") {
            if account_id.is_some() {
                return None;
            }
            let (v, m2) = match scan_opt_relaxed(s, k) {
                Some(p) => p,
                None => {
                    return None;
                },
            };
            account_id = Some(v);
            m = m2;
        } else if crate::json::str_eq(key.as_str(), "owner_name") {
            if owner_name.is_some() {
                return None;
            }
            let (v, m2) = match scan_opt_relaxed(s, k) {
                Some(p) => p,
                None => {
                    return None;
                },
            };
            owner_name = Some(v);
            m = m2;
        } else if crate::json::str_eq(key.as_str(), "blockchain_address") {
            if blockchain_address.is_some() {
                return None;
            }
            let (v, m2) = match scan_jstr_relaxed(s, k) {
                Some(p) => p,
                None => {
                    return None;
                },
            };
            blockchain_address = Some(v);
            m = m2;
        } else {
            m = match skip_value_at(s, k) {
                Some(m2) => m2,
                None => {
                    return None;
                },
            };
        }
        let ghost sl2 = AdSlots {
            account_id: opt_opt_view(account_id),
            owner_name: opt_opt_view(owner_name),
            blockchain_address: opt_view(blockchain_address),
        };
        assert(ad_field_value(s@, k as int, key@, sl) == Some((sl2, m as int)));
        let mw = skip_ws(s, m);
        if mw >= s.len() {
            return None;
        }
        if s[mw] == ',' {
            assert(ad_fields(s@, cur as int, sl) == ad_fields(s@, mw + 1 as int, sl2));
            cur = mw + 1;
        } else if s[mw] == '}' {
            assert(ad_fields(s@, cur as int, sl) == ad_finish(sl2, mw + 1));
            return match (account_id, owner_name, blockchain_address) {
                (account_id_o, owner_name_o, Some(blockchain_address_v)) => Some(
                    (
                        TransactionAddressInfo {
                            account_id: match account_id_o { Some(v) => v, None => None },
                            owner_name: match owner_name_o { Some(v) => v, None => None },
                            blockchain_address: blockchain_address_v,
                        },
                        mw + 1,
                    ),
                ),
                _ => None,
            };
        } else {
            return None;
        }
    }
}

/// A transaction record in any spelling at `i`.
pub open spec fn tx_obj_rx(s: Seq<char>, i: int) -> Option<(TransactionV, int)> {
    if 0 <= i < s.len() && s[i] == '{' {
        tx_fields(s, i + 1, tx_slots_empty())
    } else {
        None
    }
}

/// Reads a transaction record in any spelling at `i`.
fn decode_tx_obj_rx(s: &Vec<char>, i: usize) -> (r: Option<(TransactionsResponse, usize)>)
    requires
        i <= s@.len(),
    ensures
        match r {
            Some(p) => tx_obj_rx(s@, i as int) == Some((p.0@, p.1 as int)) && i < p.1
                <= s@.len(),
            None => tx_obj_rx(s@, i as int) is None,
        },
{
    if i >= s.len() || s[i] != '{' {
        return None;
    }
    decode_tx_fields(s, i + 1)
}

/// The fields of the document collected so far.
pub struct TxSlots {
    pub id: Option<Seq<char>>,
    pub from: Option<Seq<AddressInfoV>>,
    pub to: Option<AddressInfoV>,
    pub from_value: Option<Seq<char>>,
    pub from_currency: Option<Seq<char>>,
    pub to_value: Option<Seq<char>>,
    pub to_currency: Option<Seq<char>>,
    pub fee: Option<Seq<char>>,
    pub status: Option<Seq<char>>,
    pub blockchain_tx_id: Option<Option<Seq<char>>>,
    pub created_at: Option<Seq<char>>,
    pub updated_at: Option<Seq<char>>,
}

/// No field seen yet.
pub open spec fn tx_slots_empty() -> TxSlots {
    TxSlots { id: None, from: None, to: None, from_value: None, from_currency: None, to_value: None, to_currency: None, fee: None, status: None, blockchain_tx_id: None, created_at: None, updated_at: None }
}

/// A finished object: every required field present exactly once.
pub open spec fn tx_finish(sl: TxSlots, j: int) -> Option<(TransactionV, int)> {
    if sl.id is Some && sl.from is Some && sl.to is Some && sl.from_value is Some && sl.from_currency is Some && sl.to_value is Some && sl.to_currency is Some && sl.fee is Some && sl.status is Some && sl.created_at is Some && sl.updated_at is Some {
        Some((
            TransactionV {
                id: sl.id->0,
                from: sl.from->0,
                to: sl.to->0,
                from_value: sl.from_value->0,
                from_currency: sl.from_currency->0,
                to_value: sl.to_value->0,
                to_currency: sl.to_currency->0,
                fee: sl.fee->0,
                status: sl.status->0,
                blockchain_tx_id: match sl.blockchain_tx_id { Some(v) => v, None => None },
                created_at: sl.created_at->0,
                updated_at: sl.updated_at->0,
            },
            j,
        ))
    } else {
        None
    }
}

/// One field value at `k`: a known key takes its typed value, once;
/// any other key's value is skipped.
pub open spec fn tx_field_value(s: Seq<char>, k: int, key: Seq<char>, sl: TxSlots) -> Option<
    (TxSlots, int),
> {
    if key == "id"@ {
        if sl.id is Some {
            None
        } else {
            match rscan(s, k) {
                Some((v, m)) => Some((TxSlots { id: Some(v), ..sl }, m)),
                None => None,
            }
        }
    } else if key == "from"@ {
        if sl.from is Some {
            None
        } else {
            match rarr(s, k) {
                Some((v, m)) => Some((TxSlots { from: Some(v), ..sl }, m)),
                None => None,
            }
        }
    } else if key == "to"@ {
        if sl.to is Some {
            None
        } else {
            match addr_obj_rx(s, k) {
                Some((v, m)) => Some((TxSlots { to: Some(v), ..sl }, m)),
                None => None,
            }
        }
    } else if key == "fromValue"@ {
        if sl.from_value is Some {
            None
        } else {
            match rscan(s, k) {
                Some((v, m)) => Some((TxSlots { from_value: Some(v), ..sl }, m)),
                None => None,
            }
        }
    } else if key == "fromCurrency"@ {
        if sl.from_currency is Some {
            None
        } else {
            match rscan(s, k) {
                Some((v, m)) => Some((TxSlots { from_currency: Some(v), ..sl }, m)),
                None => None,
            }
        }
    } else if key == "toValue"@ {
        if sl.to_value is Some {
            None
        } else {
            match rscan(s, k) {
                Some((v, m)) => Some((TxSlots { to_value: Some(v), ..sl }, m)),
                None => None,
            }
        }
    } else if key == "toCurrency"@ {
        if sl.to_currency is Some {
            None
        } else {
            match rscan(s, k) {
                Some((v, m)) => Some((TxSlots { to_currency: Some(v), ..sl }, m)),
                None => None,
            }
        }
    } else if key == "fee"@ {
        if sl.fee is Some {
            None
        } else {
            match rscan(s, k) {
                Some((v, m)) => Some((TxSlots { fee: Some(v), ..sl }, m)),
                None => None,
            }
        }
    } else if key == "status"@ {
        if sl.status is Some {
            None
        } else {
            match rscan(s, k) {
                Some((v, m)) => Some((TxSlots { status: Some(v), ..sl }, m)),
                None => None,
            }
        }
    } else if key == "blockchainTxId"@ {
        if sl.blockchain_tx_id is Some {
            None
        } else {
            match ropt(s, k) {
                Some((v, m)) => Some((TxSlots { blockchain_tx_id: Some(v), ..sl }, m)),
                None => None,
            }
        }
    } else if key == "createdAt"@ {
        if sl.created_at is Some {
            None
        } else {
            match rscan(s, k) {
                Some((v, m)) => Some((TxSlots { created_at: Some(v), ..sl }, m)),
                None => None,
            }
        }
    } else if key == "updatedAt"@ {
        if sl.updated_at is Some {
            None
        } else {
            match rscan(s, k) {
                Some((v, m)) => Some((TxSlots { updated_at: Some(v), ..sl }, m)),
                None => None,
            }
        }
    } else {
        match skip_value(s, k) {
            Some(m) => Some((sl, m)),
            None => None,
        }
    }
}

/// The member list of the object, keys in any order, whitespace
/// anywhere, unknown members skipped.
pub open spec fn tx_fields(s: Seq<char>, i: int, sl: TxSlots) -> Option<(TransactionV, int)>
    decreases s.len() - i,
{
    let iw = ws_end(s, i);
    if i < 0 || iw < i || iw >= s.len() {
        None
    } else if s[iw] == '}' {
        tx_finish(sl, iw + 1)
    } else {
        match rscan(s, iw) {
            None => None,
            Some((key, j)) => {
                let jw = ws_end(s, j);
                if j <= iw || jw < j || jw >= s.len() || s[jw] != ':' {
                    None
                } else {
                    match tx_field_value(s, ws_end(s, jw + 1), key, sl) {
                        None => None,
                        Some((sl2, m)) => {
                            let mw = ws_end(s, m);
                            if m <= jw || mw < m || mw >= s.len() {
                                None
                            } else if s[mw] == ',' {
                                tx_fields(s, mw + 1, sl2)
                            } else if s[mw] == '}' {
                                tx_finish(sl2, mw + 1)
                            } else {
                                None
                            }
                        },
                    }
                }
            },
        }
    }
}

/// Reads the member list of the object in any spelling.
fn decode_tx_fields(s: &Vec<char>, start: usize) -> (r: Option<(TransactionsResponse, usize)>)
    requires
        start <= s@.len(),
    ensures
        match r {
            Some(p) => tx_fields(s@, start as int, tx_slots_empty()) == Some((p.0@, p.1 as int))
                && start < p.1 <= s@.len(),
            None => tx_fields(s@, start as int, tx_slots_empty()) is None,
        },
{
    let mut id: Option<String> = None;
    let mut from: Option<Vec<TransactionAddressInfo>> = None;
    let mut to: Option<TransactionAddressInfo> = None;
    let mut from_value: Option<String> = None;
    let mut from_currency: Option<String> = None;
    let mut to_value: Option<String> = None;
    let mut to_currency: Option<String> = None;
    let mut fee: Option<String> = None;
    let mut status: Option<String> = None;
    let mut blockchain_tx_id: Option<Option<String>> = None;
    let mut created_at: Option<String> = None;
    let mut updated_at: Option<String> = None;
    let mut cur: usize = start;
    loop
        invariant
            start <= cur <= s@.len(),
            tx_fields(s@, start as int, tx_slots_empty()) == tx_fields(
                s@,
                cur as int,
                TxSlots {
                    id: opt_view(id),
                    from: opt_addr_list_view(from),
                    to: opt_addr_view(to),
                    from_value: opt_view(from_value),
                    from_currency: opt_view(from_currency),
                    to_value: opt_view(to_value),
                    to_currency: opt_view(to_currency),
                    fee: opt_view(fee),
                    status: opt_view(status),
                    blockchain_tx_id: opt_opt_view(blockchain_tx_id),
                    created_at: opt_view(created_at),
                    updated_at: opt_view(updated_at),
                },
            ),
        decreases s@.len() - cur,
    {
        let ghost sl = TxSlots {
            id: opt_view(id),
            from: opt_addr_list_view(from),
            to: opt_addr_view(to),
            from_value: opt_view(from_value),
            from_currency: opt_view(from_currency),
            to_value: opt_view(to_value),
            to_currency: opt_view(to_currency),
            fee: opt_view(fee),
            status: opt_view(status),
            blockchain_tx_id: opt_opt_view(blockchain_tx_id),
            created_at: opt_view(created_at),
            updated_at: opt_view(updated_at),
        };
        let iw = skip_ws(s, cur);
        if iw >= s.len() {
            return None;
        }
        if s[iw] == '}' {
            assert(tx_fields(s@, cur as int, sl) == tx_finish(sl, iw + 1));
            return match (id, from, to, from_value, from_currency, to_value, to_currency, fee, status, blockchain_tx_id, created_at, updated_at) {
                (Some(id_v), Some(from_v), Some(to_v), Some(from_value_v), Some(from_currency_v), Some(to_value_v), Some(to_currency_v), Some(fee_v), Some(status_v), blockchain_tx_id_o, Some(created_at_v), Some(updated_at_v)) => Some(
                    (
                        TransactionsResponse {
                            id: id_v,
                            from: from_v,
                            to: to_v,
                            from_value: from_value_v,
                            from_currency: from_currency_v,
                            to_value: to_value_v,
                            to_currency: to_currency_v,
                            fee: fee_v,
                            status: status_v,
                            blockchain_tx_id: match blockchain_tx_id_o { Some(v) => v, None => None },
                            created_at: created_at_v,
                            updated_at: updated_at_v,
                        },
                        iw + 1,
                    ),
                ),
                _ => None,
            };
        }
        let (key, j) = match scan_jstr_relaxed(s, iw) {
            Some(p) => p,
            None => {
                return None;
            },
        };
        let jw = skip_ws(s, j);
        if jw >= s.len() || s[jw] != ':' {
            return None;
        }
        let k = skip_ws(s, jw + 1);
        let m: usize;
        if crate::json::str_eq(key.as_str(), "id") {
            if id.is_some() {
                return None;
            }
            let (v, m2) = match scan_jstr_relaxed(s, k) {
                Some(p) => p,
                None => {
                    return None;
                },
            };
            id = Some(v);
            m = m2;
        } else if crate::json::str_eq(key.as_str(), "from") {
            if from.is_some() {
                return None;
            }
            let (v, m2) = match decode_arr_rx(s, k) {
                Some(p) => p,
                None => {
                    return None;
                },
            };
            from = Some(v);
            m = m2;
        } else if crate::json::str_eq(key.as_str(), "to") {
            if to.is_some() {
                return None;
            }
            let (v, m2) = match decode_addr_obj_rx(s, k) {
                Some(p) => p,
                None => {
                    return None;
                },
            };
            to = Some(v);
            m = m2;
        } else if crate::json::str_eq(key.as_str(), "fromValue") {
            if from_value.is_some() {
                return None;
            }
            let (v, m2) = match scan_jstr_relaxed(s, k) {
                Some(p) => p,
                None => {
                    return None;
                },
            };
            from_value = Some(v);
            m = m2;
        } else if crate::json::str_eq(key.as_str(), "fromCurrency") {
            if from_currency.is_some() {
                return None;
            }
            let (v, m2) = match scan_jstr_relaxed(s, k) {
                Some(p) => p,
                None => {
                    return None;
                },
            };
            from_currency = Some(v);
            m = m2;
        } else if crate::json::str_eq(key.as_str(), "toValue") {
            if to_value.is_some() {
                return None;
            }
            let (v, m2) = match scan_jstr_relaxed(s, k) {
                Some(p) => p,
                None => {
                    return None;
                },
            };
            to_value = Some(v);
            m = m2;
        } else if crate::json::str_eq(key.as_str(), "toCurrency") {
            if to_currency.is_some() {
                return None;
            }
            let (v, m2) = match scan_jstr_relaxed(s, k) {
                Some(p) => p,
                None => {
                    return None;
                },
            };
            to_currency = Some(v);
            m = m2;
        } else if crate::json::str_eq(key.as_str(), "fee") {
            if fee.is_some() {
                return None;
            }
            let (v, m2) = match scan_jstr_relaxed(s, k) {
                Some(p) => p,
                None => {
                    return None;
                },
            };
            fee = Some(v);
            m = m2;
        } else if crate::json::str_eq(key.as_str(), "status") {
            if status.is_some() {
                return None;
            }
            let (v, m2) = match scan_jstr_relaxed(s, k) {
                Some(p) => p,
                None => {
                    return None;
                },
            };
            status = Some(v);
            m = m2;
        } else if crate::json::str_eq(key.as_str(), "blockchainTxId") {
            if blockchain_tx_id.is_some() {
                return None;
            }
            let (v, m2) = match scan_opt_relaxed(s, k) {
                Some(p) => p,
                None => {
                    return None;
                },
            };
            blockchain_tx_id = Some(v);
            m = m2;
        } else if crate::json::str_eq(key.as_str(), "createdAt") {
            if created_at.is_some() {
                return None;
            }
            let (v, m2) = match scan_jstr_relaxed(s, k) {
                Some(p) => p,
                None => {
                    return None;
                },
            };
            created_at = Some(v);
            m = m2;
        } else if crate::json::str_eq(key.as_str(), "updatedAt") {
            if updated_at.is_some() {
                return None;
            }
            let (v, m2) = match scan_jstr_relaxed(s, k) {
                Some(p) => p,
                None => {
                    return None;
                },
            };
            updated_at = Some(v);
            m = m2;
        } else {
            m = match skip_value_at(s, k) {
                Some(m2) => m2,
                None => {
                    return None;
                },
            };
        }
        let ghost sl2 = TxSlots {
            id: opt_view(id),
            from: opt_addr_list_view(from),
            to: opt_addr_view(to),
            from_value: opt_view(from_value),
            from_currency: opt_view(from_currency),
            to_value: opt_view(to_value),
            to_currency: opt_view(to_currency),
            fee: opt_view(fee),
            status: opt_view(status),
            blockchain_tx_id: opt_opt_view(blockchain_tx_id),
            created_at: opt_view(created_at),
            updated_at: opt_view(updated_at),
        };
        assert(tx_field_value(s@, k as int, key@, sl) == Some((sl2, m as int)));
        let mw = skip_ws(s, m);
        if mw >= s.len() {
            return None;
        }
        if s[mw] == ',' {
            assert(tx_fields(s@, cur as int, sl) == tx_fields(s@, mw + 1 as int, sl2));
            cur = mw + 1;
        } else if s[mw] == '}' {
            assert(tx_fields(s@, cur as int, sl) == tx_finish(sl2, mw + 1));
            return match (id, from, to, from_value, from_currency, to_value, to_currency, fee, status, blockchain_tx_id, created_at, updated_at) {
                (Some(id_v), Some(from_v), Some(to_v), Some(from_value_v), Some(from_currency_v), Some(to_value_v), Some(to_currency_v), Some(fee_v), Some(status_v), blockchain_tx_id_o, Some(created_at_v), Some(updated_at_v)) => Some(
                    (
                        TransactionsResponse {
                            id: id_v,
                            from: from_v,
                            to: to_v,
                            from_value: from_value_v,
                            from_currency: from_currency_v,
                            to_value: to_value_v,
                            to_currency: to_currency_v,
                            fee: fee_v,
                            status: status_v,
                            blockchain_tx_id: match blockchain_tx_id_o { Some(v) => v, None => None },
                            created_at: created_at_v,
                            updated_at: updated_at_v,
                        },
                        mw + 1,
                    ),
                ),
                _ => None,
            };
        } else {
            return None;
        }
    }
}

/// The fields of the document collected so far.
pub struct PuSlots {
    pub device_id: Option<Seq<char>>,
    pub transaction: Option<TransactionV>,
}

/// No field seen yet.
pub open spec fn pu_slots_empty() -> PuSlots {
    PuSlots { device_id: None, transaction: None }
}

/// A finished object: every required field present exactly once.
pub open spec fn pu_finish(sl: PuSlots, j: int) -> Option<(PushV, int)> {
    if sl.device_id is Some && sl.transaction is Some {
        Some((
            PushV {
                device_id: sl.device_id->0,
                transaction: sl.transaction->0,
            },
            j,
        ))
    } else {
        None
    }
}

/// One field value at `k`: a known key takes its typed value, once;
/// any other key's value is skipped.
pub open spec fn pu_field_value(s: Seq<char>, k: int, key: Seq<char>, sl: PuSlots) -> Option<
    (PuSlots, int),
> {
    if key == "deviceId"@ {
        if sl.device_id is Some {
            None
        } else {
            match rscan(s, k) {
                Some((v, m)) => Some((PuSlots { device_id: Some(v), ..sl }, m)),
                None => None,
            }
        }
    } else if key == "transaction"@ {
        if sl.transaction is Some {
            None
        } else {
            match tx_obj_rx(s, k) {
                Some((v, m)) => Some((PuSlots { transaction: Some(v), ..sl }, m)),
                None => None,
            }
        }
    } else {
        match skip_value(s, k) {
            Some(m) => Some((sl, m)),
            None => None,
        }
    }
}

/// The member list of the object, keys in any order, whitespace
/// anywhere, unknown members skipped.
pub open spec fn pu_fields(s: Seq<char>, i: int, sl: PuSlots) -> Option<(PushV, int)>
    decreases s.len() - i,
{
    let iw = ws_end(s, i);
    if i < 0 || iw < i || iw >= s.len() {
        None
    } else if s[iw] == '}' {
        pu_finish(sl, iw + 1)
    } else {
        match rscan(s, iw) {
            None => None,
            Some((key, j)) => {
                let jw = ws_end(s, j);
                if j <= iw || jw < j || jw >= s.len() || s[jw] != ':' {
                    None
                } else {
                    match pu_field_value(s, ws_end(s, jw + 1), key, sl) {
                        None => None,
                        Some((sl2, m)) => {
                            let mw = ws_end(s, m);
                            if m <= jw || mw < m || mw >= s.len() {
                                None
                            } else if s[mw] == ',' {
                                pu_fields(s, mw + 1, sl2)
                            } else if s[mw] == '}' {
                                pu_finish(sl2, mw + 1)
                            } else {
                                None
                            }
                        },
                    }
                }
            },
        }
    }
}

/// Reads the member list of the object in any spelling.
fn decode_pu_fields(s: &Vec<char>, start: usize) -> (r: Option<(PushNotifications, usize)>)
    requires
        start <= s@.len(),
    ensures
        match r {
            Some(p) => pu_fields(s@, start as int, pu_slots_empty()) == Some((p.0@, p.1 as int))
                && start < p.1 <= s@.len(),
            None => pu_fields(s@, start as int, pu_slots_empty()) is None,
        },
{
    let mut device_id: Option<String> = None;
    let mut transaction: Option<TransactionsResponse> = None;
    let mut cur: usize = start;
    loop
        invariant
            start <= cur <= s@.len(),
            pu_fields(s@, start as int, pu_slots_empty()) == pu_fields(
                s@,
                cur as int,
                PuSlots {
                    device_id: opt_view(device_id),
                    transaction: opt_tx_view(transaction),
                },
            ),
        decreases s@.len() - cur,
    {
        let ghost sl = PuSlots {
            device_id: opt_view(device_id),
            transaction: opt_tx_view(transaction),
        };
        let iw = skip_ws(s, cur);
        if iw >= s.len() {
            return None;
        }
        if s[iw] == '}' {
            assert(pu_fields(s@, cur as int, sl) == pu_finish(sl, iw + 1));
            return match (device_id, transaction) {
                (Some(device_id_v), Some(transaction_v)) => Some(
                    (
                        PushNotifications {
                            device_id: device_id_v,
                            transaction: transaction_v,
                        },
                        iw + 1,
                    ),
                ),
                _ => None,
            };
        }
        let (key, j) = match scan_jstr_relaxed(s, iw) {
            Some(p) => p,
            None => {
                return None;
            },
        };
        let jw = skip_ws(s, j);
        if jw >= s.len() || s[jw] != ':' {
            return None;
        }
        let k = skip_ws(s, jw + 1);
        let m: usize;
        if crate::json::str_eq(key.as_str(), "deviceId") {
            if device_id.is_some() {
                return None;
            }
            let (v, m2) = match scan_jstr_relaxed(s, k) {
                Some(p) => p,
                None => {
                    return None;
                },
            };
            device_id = Some(v);
            m = m2;
        } else if crate::json::str_eq(key.as_str(), "transaction") {
            if transaction.is_some() {
                return None;
            }
            let (v, m2) = match decode_tx_obj_rx(s, k) {
                Some(p) => p,
                None => {
                    return None;
                },
            };
            transaction = Some(v);
            m = m2;
        } else {
            m = match skip_value_at(s, k) {
                Some(m2) => m2,
                None => {
                    return None;
                },
            };
        }
        let ghost sl2 = PuSlots {
            device_id: opt_view(device_id),
            transaction: opt_tx_view(transaction),
        };
        assert(pu_field_value(s@, k as int, key@, sl) == Some((sl2, m as int)));
        let mw = skip_ws(s, m);
        if mw >= s.len() {
            return None;
        }
        if s[mw] == ',' {
            assert(pu_fields(s@, cur as int, sl) == pu_fields(s@, mw + 1 as int, sl2));
            cur = mw + 1;
        } else if s[mw] == '}' {
            assert(pu_fields(s@, cur as int, sl) == pu_finish(sl2, mw + 1));
            return match (device_id, transaction) {
                (Some(device_id_v), Some(transaction_v)) => Some(
                    (
                        PushNotifications {
                            device_id: device_id_v,
                            transaction: transaction_v,
                        },
                        mw + 1,
                    ),
                ),
                _ => None,
            };
        } else {
            return None;
        }
    }
}

/// The general-spelling parser for a whole push document.
pub open spec fn parse_push_relaxed(s: Seq<char>) -> Option<PushV> {
    let i0 = ws_end(s, 0);
    if 0 <= i0 < s.len() && s[i0] == '{' {
        match pu_fields(s, i0 + 1, pu_slots_empty()) {
            Some((v, j)) => if ws_end(s, j) == s.len() {
                Some(v)
            } else {
                None
            },
            None => None,
        }
    } else {
        None
    }
}

/// What a push document means: the canonical spelling reads as itself; any
/// other text reads under the general parser.
pub open spec fn parse_push_text(s: Seq<char>) -> Option<PushV> {
    if parse_push(s) is Some {
        parse_push(s)
    } else {
        parse_push_relaxed(s)
    }
}

/// Reads a whole push document in any spelling.
fn decode_push_relaxed(s: &Vec<char>) -> (r: Option<PushNotifications>)
    ensures
        match r {
            Some(p) => parse_push_relaxed(s@) == Some(p@),
            None => parse_push_relaxed(s@) is None,
        },
{
    let i0 = skip_ws(s, 0);
    if i0 >= s.len() || s[i0] != '{' {
        return None;
    }
    match decode_pu_fields(s, i0 + 1) {
        Some((p, j)) => {
            let jw = skip_ws(s, j);
            if jw == s.len() {
                Some(p)
            } else {
                None
            }
        },
        None => None,
    }
}

/// The push document as wire bytes.
pub fn push_bytes(p: &PushNotifications) -> (r: Vec<u8>)
    ensures
        r@ == vstd::utf8::encode_utf8(enc_push(p@)),
{
    let s = encode_push(p);
    s.as_str().as_bytes_vec()
}

/// Reads a push notification from wire bytes: UTF-8 validation, then a
/// JSON parse of the record — the canonical spelling on its fast path,
/// anything else through the general parser.
pub fn decode_push(data: &Vec<u8>) -> (r: Result<PushNotifications, DecodeError>)
    ensures
        match r {
            Ok(p) => vstd::utf8::valid_utf8(data@)
                && parse_push_text(vstd::utf8::decode_utf8(data@)) == Some(p@),
            Err(e) => (e == DecodeError::Utf8 && !vstd::utf8::valid_utf8(data@))
                || (e == DecodeError::Json && vstd::utf8::valid_utf8(data@)
                    && parse_push_text(vstd::utf8::decode_utf8(data@)) is None),
        },
{
    let s = match utf8_to_string(data) {
        Some(s) => s,
        None => { return Err(DecodeError::Utf8); },
    };
    match decode_push_str(s.as_str()) {
        Some(p) => Ok(p),
        None => {
            let chars = str_to_chars(s.as_str());
            match decode_push_relaxed(&chars) {
                Some(p) => Ok(p),
                None => Err(DecodeError::Json),
            }
        },
    }
}

/// Decoding the wire bytes of an encoded push yields the push back.
pub proof fn lemma_push_wire_round_trip(p: PushV)
    ensures
        vstd::utf8::valid_utf8(vstd::utf8::encode_utf8(enc_push(p))),
        parse_push_text(vstd::utf8::decode_utf8(vstd::utf8::encode_utf8(enc_push(p))))
            == Some(p),
{
    vstd::utf8::encode_utf8_valid_utf8(enc_push(p));
    vstd::utf8::encode_utf8_decode_utf8(enc_push(p));
    lemma_push_round_trip(p);
}

} // verus!
