//! Extraction of the broker address from the configured URL: the first `@`
//! followed by a host run, a colon and a digit run yields the `host:port`
//! capture.

use vstd::prelude::*;
use vstd::string::*;

use crate::errors::{Error, ErrorContext, ErrorKind};
use crate::json::{str_push_char, str_to_chars};

verus! {

/// A character a host name may carry: letters, digits, `-`, `_` and `.`.
pub open spec fn is_host_char(c: char) -> bool {
    ('a' <= c && c <= 'z') || ('A' <= c && c <= 'Z') || ('0' <= c && c <= '9') || c == '-'
        || c == '_' || c == '.'
}

/// A decimal digit.
pub open spec fn is_digit(c: char) -> bool {
    '0' <= c && c <= '9'
}

/// The end of the host-character run starting at `i`.
pub open spec fn host_end(s: Seq<char>, i: int) -> int
    decreases s.len() - i,
{
    if 0 <= i < s.len() && is_host_char(s[i]) {
        host_end(s, i + 1)
    } else {
        i
    }
}

/// The end of the digit run starting at `i`.
pub open spec fn digits_end(s: Seq<char>, i: int) -> int
    decreases s.len() - i,
{
    if 0 <= i < s.len() && is_digit(s[i]) {
        digits_end(s, i + 1)
    } else {
        i
    }
}

/// The `host:port` capture of a match starting at the `@` at position `i`,
/// if the rule matches there.
pub open spec fn match_at(s: Seq<char>, i: int) -> Option<Seq<char>> {
    if 0 <= i < s.len() && s[i] == '@' {
        let he = host_end(s, i + 1);
        if he < s.len() && s[he] == ':' {
            Some(s.subrange(i + 1, digits_end(s, he + 1)))
        } else {
            None
        }
    } else {
        None
    }
}

/// The capture of the leftmost match at or after `i`.
pub open spec fn find_from(s: Seq<char>, i: int) -> Option<Seq<char>>
    decreases s.len() - i,
{
    if i < 0 || i >= s.len() {
        None
    } else if match_at(s, i) is Some {
        match_at(s, i)
    } else {
        find_from(s, i + 1)
    }
}

/// The `host:port` part of a broker URL: the capture of the leftmost match
/// of an `@`, a host run, a colon and a digit run.
pub open spec fn host_port_of(url: Seq<char>) -> Option<Seq<char>> {
    find_from(url, 0)
}

fn host_char(c: char) -> (r: bool)
    ensures
        r == is_host_char(c),
{
    ('a' <= c && c <= 'z') || ('A' <= c && c <= 'Z') || ('0' <= c && c <= '9') || c == '-'
        || c == '_' || c == '.'
}

fn digit_char(c: char) -> (r: bool)
    ensures
        r == is_digit(c),
{
    '0' <= c && c <= '9'
}

/// The end of the host run, walked forward.
fn scan_host_end(s: &Vec<char>, i: usize) -> (r: usize)
    requires
        i <= s@.len(),
    ensures
        r == host_end(s@, i as int),
        i <= r <= s@.len(),
{
    let mut j: usize = i;
    loop
        invariant
            i <= j <= s@.len(),
            host_end(s@, i as int) == host_end(s@, j as int),
        decreases s@.len() - j,
    {
        if j < s.len() && host_char(s[j]) {
            j = j + 1;
        } else {
            return j;
        }
    }
}

/// The end of the digit run, walked forward.
fn scan_digits_end(s: &Vec<char>, i: usize) -> (r: usize)
    requires
        i <= s@.len(),
    ensures
        r == digits_end(s@, i as int),
        i <= r <= s@.len(),
{
    let mut j: usize = i;
    loop
        invariant
            i <= j <= s@.len(),
            digits_end(s@, i as int) == digits_end(s@, j as int),
        decreases s@.len() - j,
    {
        if j < s.len() && digit_char(s[j]) {
            j = j + 1;
        } else {
            return j;
        }
    }
}

/// Extracts the `host:port` part of a broker URL, or reports the URL as
/// unusable.
pub fn extract_host_port(url: &str) -> (r: Result<String, Error>)
    ensures
        match r {
            Ok(h) => host_port_of(url@) == Some(h@),
            Err(e) => host_port_of(url@) is None && e.kind == ErrorKind::Internal
                && e.context@ == seq![ErrorContext::RabbitUrl],
        },
{
    let s = str_to_chars(url);
    let n = s.len();
    let mut i: usize = 0;
    while i < n
        invariant
            i <= n,
            n == s@.len(),
            s@ == url@,
            host_port_of(url@) == find_from(s@, i as int),
        decreases n - i,
    {
        if s[i] == '@' {
            let he = scan_host_end(&s, i + 1);
            if he < n && s[he] == ':' {
                let de = scan_digits_end(&s, he + 1);
                let mut out = String::new();
                let mut k: usize = i + 1;
                while k < de
                    invariant
                        i + 1 <= k <= de,
                        de <= s@.len(),
                        out@ == s@.subrange(i + 1 as int, k as int),
                    decreases de - k,
                {
                    str_push_char(&mut out, s[k]);
                    assert(s@.subrange(i + 1 as int, k + 1 as int) =~= s@.subrange(
                        i + 1 as int,
                        k as int,
                    ).push(s@[k as int]));
                    k = k + 1;
                }
                assert(match_at(s@, i as int) == Some(out@));
                return Ok(out);
            } else {
                assert(match_at(s@, i as int) is None);
            }
        } else {
            assert(match_at(s@, i as int) is None);
        }
        i = i + 1;
    }
    Err(Error::new(ErrorKind::Internal).context(ErrorContext::RabbitUrl))
}

} // verus!
