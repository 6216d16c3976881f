//! Callback signing and outbound request assembly: hex key decoding, the
//! SHA-256 digest, the secp256k1 signature, and the builders that pin each
//! egress request body to the exact encoded payload.

use vstd::prelude::*;
use vstd::string::*;

use crate::codec::{callback_bytes, enc_callback, enc_sendgrid, sendgrid_bytes};
use crate::config::SendGridConf;
use crate::errors::{Error, ErrorKind};
use crate::json::str_to_chars;
use crate::models::{
    sendgrid_of_email, Callback, Email, PushNotifications, SendGridPayload,
};
use crate::push_codec::{enc_push, push_bytes};

verus! {

/// The value of a hexadecimal digit in either case, or -1.
pub open spec fn hex_nibble(c: char) -> int {
    if '0' <= c && c <= '9' {
        c as u32 - '0' as u32
    } else if 'a' <= c && c <= 'f' {
        c as u32 - 'a' as u32 + 10
    } else if 'A' <= c && c <= 'F' {
        c as u32 - 'A' as u32 + 10
    } else {
        -1
    }
}

/// The bytes a hexadecimal string spells, two digits per byte; `None` on an
/// odd length or a stray character.
pub open spec fn hex_from(s: Seq<char>, i: int) -> Option<Seq<u8>>
    decreases s.len() - i,
{
    if i < 0 || i > s.len() {
        None
    } else if i == s.len() {
        Some(Seq::empty())
    } else if i + 1 == s.len() {
        None
    } else if hex_nibble(s[i]) >= 0 && hex_nibble(s[i + 1]) >= 0 {
        match hex_from(s, i + 2) {
            Some(r) => Some(seq![(16 * hex_nibble(s[i]) + hex_nibble(s[i + 1])) as u8] + r),
            None => None,
        }
    } else {
        None
    }
}

/// The bytes a hexadecimal string spells.
pub open spec fn hex_bytes(s: Seq<char>) -> Option<Seq<u8>> {
    hex_from(s, 0)
}

fn nibble(c: char) -> (r: i8)
    ensures
        r == hex_nibble(c),
{
    if '0' <= c && c <= '9' {
        ((c as u32 - '0' as u32) as u8) as i8
    } else if 'a' <= c && c <= 'f' {
        ((c as u32 - 'a' as u32 + 10) as u8) as i8
    } else if 'A' <= c && c <= 'F' {
        ((c as u32 - 'A' as u32 + 10) as u8) as i8
    } else {
        -1
    }
}

/// Decodes a hexadecimal string into bytes.
pub fn decode_hex(s: &str) -> (r: Option<Vec<u8>>)
    ensures
        match r {
            Some(b) => hex_bytes(s@) == Some(b@),
            None => hex_bytes(s@) is None,
        },
{
    let chars = str_to_chars(s);
    let n = chars.len();
    let mut out: Vec<u8> = Vec::new();
    let mut i: usize = 0;
    loop
        invariant
            i <= n,
            n == chars@.len(),
            chars@ == s@,
            hex_bytes(s@) == match hex_from(chars@, i as int) {
                Some(rest) => Some(out@ + rest),
                None => None::<Seq<u8>>,
            },
        decreases n - i,
    {
        if i == n {
            assert(out@ + Seq::<u8>::empty() =~= out@);
            return Some(out);
        }
        if n - i == 1 {
            return None;
        }
        let hi = nibble(chars[i]);
        let lo = nibble(chars[i + 1]);
        if hi < 0 || lo < 0 {
            return None;
        }
        let b: u8 = 16 * (hi as u8) + (lo as u8);
        proof {
            let rest = hex_from(chars@, i + 2 as int);
            match rest {
                Some(t) => {
                    assert(out@ + (seq![b] + t) =~= out@.push(b) + t);
                },
                None => {},
            }
        }
        out.push(b);
        i = i + 2;
    }
}

/// The SHA-256 digest of a byte string; a pure function of the bytes.
pub uninterp spec fn sha256_of(data: Seq<u8>) -> Seq<u8>;

/// Relies on sha2's `Sha256` (through the one-shot `Digest::digest`): the
/// SHA-256 digest is a function of the input bytes alone, and is 32 bytes
/// long.
#[verifier::external_body]
pub fn sha256(data: &Vec<u8>) -> (r: Vec<u8>)
    ensures
        r@ == sha256_of(data@),
        r@.len() == 32,
{
    <sha2::Sha256 as sha2::Digest>::digest(data.as_slice()).to_vec()
}

/// The lower-hex DER serialization of the deterministic ECDSA signature of
/// `digest` under `key`; a pure function of the two.
pub uninterp spec fn secp_sign_der_hex(key: Seq<u8>, digest: Seq<u8>) -> Seq<char>;

/// Whether the bytes are a usable secp256k1 secret key: 32 bytes carrying a
/// nonzero scalar below the curve order; a property of the bytes alone.
pub uninterp spec fn secp_key_ok(key: Seq<u8>) -> bool;

/// Relies on secp256k1: `SecretKey::from_slice` returns `Ok` exactly on a
/// valid 32-byte secret key, a property of the bytes alone (named
/// [`secp_key_ok`]); `Secp256k1::sign_ecdsa` signs deterministically (RFC
/// 6979 nonces) and cannot fail; the `Display` form of `ecdsa::Signature`
/// is its DER serialization in lower hex. The signature is a function of
/// the key and digest alone.
#[verifier::external_body]
fn secp_sign(key: &Vec<u8>, digest: &Vec<u8>) -> (r: Option<String>)
    requires
        digest@.len() == 32,
    ensures
        r is Some <==> secp_key_ok(key@),
        r matches Some(s) ==> s@ == secp_sign_der_hex(key@, digest@),
{
    let sk = match secp256k1::SecretKey::from_slice(key.as_slice()) {
        Ok(k) => k,
        Err(_) => {
            return None;
        },
    };
    let mut d = [0u8; 32];
    d.copy_from_slice(digest.as_slice());
    let secp = secp256k1::Secp256k1::new();
    let msg = secp256k1::Message::from_digest(d);
    Some(secp.sign_ecdsa(&msg, &sk).to_string())
}

/// Signs a request body: the SHA-256 digest of exactly these bytes, signed
/// with the hex-encoded secp256k1 secret key, rendered in the broker-agreed
/// lower-hex DER form.
pub fn create_sign(body: &Vec<u8>, secp_private_key: &str) -> (r: Result<String, Error>)
    ensures
        r is Ok <==> (hex_bytes(secp_private_key@) matches Some(k) && secp_key_ok(k)),
        r matches Ok(s) ==> s@ == secp_sign_der_hex(
            hex_bytes(secp_private_key@)->0,
            sha256_of(body@),
        ),
        r matches Err(e) ==> e.kind == ErrorKind::Internal,
{
    let key = match decode_hex(secp_private_key) {
        Some(k) => k,
        None => {
            return Err(Error::new(ErrorKind::Internal));
        },
    };
    let digest = sha256(body);
    match secp_sign(&key, &digest) {
        Some(s) => Ok(s),
        None => Err(Error::new(ErrorKind::Internal)),
    }
}

/// A signed callback POST, ready to send: the URL from the payload, the
/// exact body bytes, and the `Sign` header value computed over those same
/// bytes.
pub struct CallbackRequest {
    pub url: String,
    pub body: Vec<u8>,
    pub sign: String,
}

/// Builds the signed callback request. The body sent and the body signed
/// are the same bytes: the canonical JSON encoding of the callback.
pub fn build_callback_request(cb: &Callback, secp_private_key: &str) -> (r: Result<
    CallbackRequest,
    Error,
>)
    ensures
        r is Ok <==> (hex_bytes(secp_private_key@) matches Some(k) && secp_key_ok(k)),
        r matches Ok(req) ==> {
            &&& req.url@ == cb.url@
            &&& req.body@ == vstd::utf8::encode_utf8(enc_callback(cb@))
            &&& req.sign@ == secp_sign_der_hex(
                hex_bytes(secp_private_key@)->0,
                sha256_of(req.body@),
            )
        },
        r matches Err(e) ==> e.kind == ErrorKind::Internal,
{
    let body = callback_bytes(cb);
    match create_sign(&body, secp_private_key) {
        Ok(sign) => Ok(
            CallbackRequest { url: String::from_str(cb.url.as_str()), body, sign },
        ),
        Err(e) => Err(e),
    }
}

/// A SendGrid mail POST, ready to send: the endpoint URL, the bearer header
/// value, and the exact body bytes.
pub struct EmailRequest {
    pub url: String,
    pub bearer: String,
    pub body: Vec<u8>,
}

/// Builds the SendGrid mail request for one email. The body is exactly the
/// canonical JSON encoding of the SendGrid payload built from the email.
pub fn build_email_request(email: &Email, conf: &SendGridConf) -> (r: EmailRequest)
    ensures
        r.url@ == conf.api_addr@ + "/"@ + conf.send_mail_path@,
        r.bearer@ == "Bearer "@ + conf.api_key@,
        r.body@ == vstd::utf8::encode_utf8(
            enc_sendgrid(sendgrid_of_email(email@, conf.from_email@)),
        ),
{
    let copy = Email {
        to: String::from_str(email.to.as_str()),
        subject: String::from_str(email.subject.as_str()),
        text: String::from_str(email.text.as_str()),
    };
    let payload = SendGridPayload::from_email(copy, String::from_str(conf.from_email.as_str()));
    let body = sendgrid_bytes(&payload);
    let url = String::from_str(conf.api_addr.as_str()).concat("/").concat(
        conf.send_mail_path.as_str(),
    );
    let bearer = String::from_str("Bearer ").concat(conf.api_key.as_str());
    EmailRequest { url, bearer, body }
}

/// A push POST, ready to send: the configured gateway URL and the exact
/// body bytes.
pub struct PushRequest {
    pub url: String,
    pub body: Vec<u8>,
}

/// Builds the push request. The body is exactly the canonical JSON encoding
/// of the push notification.
pub fn build_push_request(push: &PushNotifications, ios_url: &str) -> (r: PushRequest)
    ensures
        r.url@ == ios_url@,
        r.body@ == vstd::utf8::encode_utf8(enc_push(push@)),
{
    PushRequest { url: String::from_str(ios_url), body: push_bytes(push) }
}

} // verus!
