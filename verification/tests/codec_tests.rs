//! Round trips and exact wire documents for the three payload types.

use payments_notifications::codec::{
    decode_callback, decode_email, encode_callback, encode_email, encode_sendgrid, DecodeError,
};
use payments_notifications::models::{
    Callback, Email, PushNotifications, SendGridPayload, TransactionAddressInfo,
    TransactionsResponse,
};
use payments_notifications::push_codec::{decode_push, encode_push};

fn sample_callback() -> Callback {
    Callback {
        url: "https://h/x".to_string(),
        amount_captured: "100".to_string(),
        currency: "eth".to_string(),
        address: "0xabc".to_string(),
        account_id: "3f9a7bd2-6f1c-4d0a-9d3e-111122223333".to_string(),
    }
}

fn sample_transaction() -> TransactionsResponse {
    TransactionsResponse {
        id: "tx-1".to_string(),
        from: vec![
            TransactionAddressInfo {
                account_id: Some("acc-1".to_string()),
                owner_name: None,
                blockchain_address: "0xfrom".to_string(),
            },
            TransactionAddressInfo {
                account_id: None,
                owner_name: Some("Bob".to_string()),
                blockchain_address: "0xfrom2".to_string(),
            },
        ],
        to: TransactionAddressInfo {
            account_id: None,
            owner_name: None,
            blockchain_address: "0xto".to_string(),
        },
        from_value: "1".to_string(),
        from_currency: "eth".to_string(),
        to_value: "2".to_string(),
        to_currency: "btc".to_string(),
        fee: "0.01".to_string(),
        status: "done".to_string(),
        blockchain_tx_id: Some("0xhash".to_string()),
        created_at: "2018-01-01T00:00:00".to_string(),
        updated_at: "2018-01-02T00:00:00".to_string(),
    }
}

#[test]
fn callback_encodes_to_expected_document() {
    let doc = encode_callback(&sample_callback());
    assert_eq!(
        doc,
        "{\"url\":\"https://h/x\",\"amountCaptured\":\"100\",\"currency\":\"eth\",\
         \"address\":\"0xabc\",\"accountId\":\"3f9a7bd2-6f1c-4d0a-9d3e-111122223333\"}"
    );
}

#[test]
fn callback_round_trips() {
    let cb = sample_callback();
    let bytes = encode_callback(&cb).into_bytes();
    let back = decode_callback(&bytes).expect("canonical document must decode");
    assert_eq!(back, cb);
}

#[test]
fn callback_round_trips_with_escapes() {
    let cb = Callback {
        url: "https://h/\"x\"\\y".to_string(),
        amount_captured: "line\nbreak\ttab\r".to_string(),
        currency: "\u{8}\u{c}".to_string(),
        address: "ctl\u{1f}\u{1}end".to_string(),
        account_id: "ünïcødé 🦀".to_string(),
    };
    let doc = encode_callback(&cb);
    let back = decode_callback(&doc.clone().into_bytes()).expect("escaped document must decode");
    assert_eq!(back, cb);
    assert!(doc.contains("\\\"x\\\"\\\\y"));
    assert!(doc.contains("line\\nbreak\\ttab\\r"));
    assert!(doc.contains("\\b\\f"));
    assert!(doc.contains("ctl\\u001f\\u0001end"));
}

#[test]
fn callback_rejects_invalid_utf8() {
    let bytes = vec![0xff, 0xfe, 0x00];
    assert_eq!(decode_callback(&bytes), Err(DecodeError::Utf8));
}

#[test]
fn callback_rejects_malformed_json() {
    let bytes = b"{\"url\":oops}".to_vec();
    assert_eq!(decode_callback(&bytes), Err(DecodeError::Json));
}

#[test]
fn callback_accepts_trailing_whitespace_only() {
    let mut bytes = encode_callback(&sample_callback()).into_bytes();
    bytes.push(b'\n');
    bytes.push(b' ');
    assert_eq!(decode_callback(&bytes), Ok(sample_callback()));
    bytes.push(b'x');
    assert_eq!(decode_callback(&bytes), Err(DecodeError::Json));
}

#[test]
fn email_encodes_to_expected_document() {
    let email = Email {
        to: "a@b.c".to_string(),
        subject: "hi".to_string(),
        text: "<b>hello</b>".to_string(),
    };
    assert_eq!(
        encode_email(&email),
        "{\"to\":\"a@b.c\",\"subject\":\"hi\",\"text\":\"<b>hello</b>\"}"
    );
}

#[test]
fn email_round_trips() {
    let email = Email {
        to: "a@b.c".to_string(),
        subject: "subject with \"quotes\"".to_string(),
        text: "".to_string(),
    };
    let bytes = encode_email(&email).into_bytes();
    assert_eq!(decode_email(&bytes).expect("must decode"), email);
}

#[test]
fn email_rejects_malformed_json() {
    assert_eq!(
        decode_email(&b"not json at all".to_vec()),
        Err(DecodeError::Json)
    );
}

#[test]
fn push_round_trips() {
    let push = PushNotifications {
        device_id: "dev-1".to_string(),
        transaction: sample_transaction(),
    };
    let bytes = encode_push(&push).into_bytes();
    assert_eq!(decode_push(&bytes).expect("must decode"), push);
}

#[test]
fn push_round_trips_empty_from_and_null_fields() {
    let mut tx = sample_transaction();
    tx.from = Vec::new();
    tx.blockchain_tx_id = None;
    let push = PushNotifications { device_id: "".to_string(), transaction: tx };
    let bytes = encode_push(&push).into_bytes();
    assert_eq!(decode_push(&bytes).expect("must decode"), push);
}

#[test]
fn push_document_shape() {
    let mut tx = sample_transaction();
    tx.from = vec![TransactionAddressInfo {
        account_id: None,
        owner_name: None,
        blockchain_address: "0xa".to_string(),
    }];
    tx.blockchain_tx_id = None;
    let push = PushNotifications { device_id: "d".to_string(), transaction: tx };
    let doc = encode_push(&push);
    assert!(doc.starts_with("{\"deviceId\":\"d\",\"transaction\":{\"id\":\"tx-1\""));
    assert!(doc.contains(
        "\"from\":[{\"account_id\":null,\"owner_name\":null,\"blockchain_address\":\"0xa\"}]"
    ));
    assert!(doc.contains("\"blockchainTxId\":null"));
    assert!(doc.ends_with("}}"));
}

#[test]
fn push_accepts_reordered_keys() {
    let push = PushNotifications { device_id: "dev-1".to_string(), transaction: sample_transaction() };
    let doc = encode_push(&push);
    // Move the deviceId member to the end: still the same record.
    let inner = &doc[1..doc.len() - 1];
    let head = "\"deviceId\":\"dev-1\",";
    assert!(inner.starts_with(head));
    let reordered = format!("{{{},{}}}", &inner[head.len()..], &head[..head.len() - 1]);
    assert_eq!(decode_push(&reordered.into_bytes()), Ok(push));
}

#[test]
fn push_rejects_an_empty_transaction() {
    // Reordering is fine, but required members must still be there.
    let bytes = b"{\"transaction\":{},\"deviceId\":\"d\"}".to_vec();
    assert_eq!(decode_push(&bytes), Err(DecodeError::Json));
}

#[test]
fn sendgrid_payload_from_email_shape() {
    let email = Email {
        to: "rcpt@example.com".to_string(),
        subject: "s".to_string(),
        text: "body".to_string(),
    };
    let payload = SendGridPayload::from_email(email, "noreply@example.com".to_string());
    assert_eq!(payload.personalizations.len(), 1);
    assert_eq!(payload.personalizations[0].to.len(), 1);
    assert_eq!(payload.personalizations[0].to[0].email, "rcpt@example.com");
    assert_eq!(payload.personalizations[0].to[0].name, None);
    assert_eq!(payload.from.email, "noreply@example.com");
    assert_eq!(payload.subject, "s");
    assert_eq!(payload.content.len(), 1);
    assert_eq!(payload.content[0].type_field, "text/html");
    assert_eq!(payload.content[0].value, "body");
}

#[test]
fn sendgrid_encodes_to_expected_document() {
    let email = Email {
        to: "rcpt@example.com".to_string(),
        subject: "s".to_string(),
        text: "body".to_string(),
    };
    let payload = SendGridPayload::from_email(email, "noreply@example.com".to_string());
    assert_eq!(
        encode_sendgrid(&payload),
        "{\"personalizations\":[{\"to\":[{\"email\":\"rcpt@example.com\",\"name\":null}]}],\
         \"from\":{\"email\":\"noreply@example.com\",\"name\":null},\"subject\":\"s\",\
         \"content\":[{\"type\":\"text/html\",\"value\":\"body\"}]}"
    );
}

#[test]
fn decode_accepts_whitespace_anywhere() {
    let bytes = b" {\n  \"to\": \"a@b.c\" ,\t\"subject\" : \"s\", \"text\": \"t\" }\r\n".to_vec();
    let email = decode_email(&bytes).expect("spaced document must decode");
    assert_eq!(email.to, "a@b.c");
    assert_eq!(email.subject, "s");
    assert_eq!(email.text, "t");
}

#[test]
fn decode_accepts_reordered_keys() {
    let bytes = b"{\"text\":\"t\",\"to\":\"a@b.c\",\"subject\":\"s\"}".to_vec();
    let email = decode_email(&bytes).expect("reordered document must decode");
    assert_eq!(email.to, "a@b.c");
    assert_eq!(email.subject, "s");
    assert_eq!(email.text, "t");
}

#[test]
fn decode_accepts_standard_escape_forms() {
    let bytes =
        b"{\"to\":\"\\u0041\\u00e9\",\"subject\":\"a\\/b\",\"text\":\"\\u20AC\"}".to_vec();
    let email = decode_email(&bytes).expect("escaped document must decode");
    assert_eq!(email.to, "A\u{e9}");
    assert_eq!(email.subject, "a/b");
    assert_eq!(email.text, "\u{20ac}");
}

#[test]
fn decode_rejects_escaped_surrogates() {
    let bytes = b"{\"to\":\"\\uD83D\\uDE00\",\"subject\":\"s\",\"text\":\"t\"}".to_vec();
    assert_eq!(decode_email(&bytes), Err(DecodeError::Json));
}

#[test]
fn decode_skips_unknown_members() {
    let bytes = b"{\"to\":\"a\",\"extra\":{\"deep\":[1,2,{\"x\":null}]},\"subject\":\"s\",\"n\":-1.5e3,\"b\":true,\"text\":\"t\"}"
        .to_vec();
    let email = decode_email(&bytes).expect("unknown members are skipped");
    assert_eq!(email.to, "a");
    assert_eq!(email.subject, "s");
    assert_eq!(email.text, "t");
}

#[test]
fn decode_rejects_duplicate_members() {
    let bytes = b"{\"to\":\"a\",\"to\":\"b\",\"subject\":\"s\",\"text\":\"t\"}".to_vec();
    assert_eq!(decode_email(&bytes), Err(DecodeError::Json));
}

#[test]
fn decode_rejects_missing_required_members() {
    let bytes = b"{\"to\":\"a\",\"subject\":\"s\"}".to_vec();
    assert_eq!(decode_email(&bytes), Err(DecodeError::Json));
}

#[test]
fn decode_treats_absent_optional_members_as_null() {
    let mut tx = sample_transaction();
    tx.from = Vec::new();
    tx.blockchain_tx_id = None;
    let push = PushNotifications { device_id: "d".to_string(), transaction: tx };
    let doc = encode_push(&push);
    // Drop the "blockchainTxId":null member entirely: still the same record.
    let without = doc.replace(",\"blockchainTxId\":null", "");
    assert_ne!(without, doc);
    assert_eq!(decode_push(&without.into_bytes()), Ok(push));
}

#[test]
fn decode_accepts_spaced_address_array() {
    let mut tx = sample_transaction();
    tx.from = vec![
        TransactionAddressInfo {
            account_id: None,
            owner_name: None,
            blockchain_address: "0xa".to_string(),
        },
        TransactionAddressInfo {
            account_id: Some("acc".to_string()),
            owner_name: None,
            blockchain_address: "0xb".to_string(),
        },
    ];
    // Keep every colon a member separator, so the blanket respacing below
    // stays inside the document structure.
    tx.created_at = "d1".to_string();
    tx.updated_at = "d2".to_string();
    let push = PushNotifications { device_id: "d".to_string(), transaction: tx };
    let doc = encode_push(&push);
    let spaced = doc
        .replace("[", "[ ")
        .replace("]", " ]")
        .replace(",", " , ")
        .replace(":", " : ");
    assert_eq!(decode_push(&spaced.into_bytes()), Ok(push));
}

#[test]
fn callback_default_values() {
    let cb = Callback::default();
    assert_eq!(cb.url, "");
    assert_eq!(cb.amount_captured, "");
    assert_eq!(cb.currency, "eth");
    assert_eq!(cb.address, "");
    assert_eq!(cb.account_id, "");
}
