use data_encoding::BASE64URL_NOPAD;
use hmac::{Mac, NewMac};
use vivoxrs::tokengen::{claims_payload, decimal_string, sign_claims, verify_signature, TokenGenerator};

fn segments(token: &str) -> Vec<String> {
    token.split('.').map(|s| s.to_string()).collect()
}

fn decode_claims(token: &str) -> serde_json::Value {
    let segs = segments(token);
    let bytes = BASE64URL_NOPAD.decode(segs[1].as_bytes()).unwrap();
    serde_json::from_slice(&bytes).unwrap()
}

fn claims_text(token: &str) -> String {
    let segs = segments(token);
    String::from_utf8(BASE64URL_NOPAD.decode(segs[1].as_bytes()).unwrap()).unwrap()
}

#[test]
fn init_starts_at_zero() {
    let g = TokenGenerator::init();
    assert_eq!(g.req_index, 0);
}

#[test]
fn generate_counter_increments_by_one() {
    let mut g = TokenGenerator::init();
    let mut seen = Vec::new();
    for _ in 0..5 {
        let tok = g.generate("key", "issuer", 1000, "login", "sip:a@b", None).unwrap();
        seen.push(decode_claims(&tok)["vxi"].as_u64().unwrap());
    }
    assert_eq!(seen, vec![0, 1, 2, 3, 4]);
    assert_eq!(g.req_index, 5);
}

#[test]
fn generate_counter_starts_from_current_value() {
    let mut g = TokenGenerator { req_index: 41 };
    let a = g.generate("key", "issuer", 1000, "join", "sip:a@b", None).unwrap();
    let b = g.generate("key", "issuer", 1000, "join", "sip:a@b", None).unwrap();
    assert_eq!(decode_claims(&a)["vxi"].as_u64().unwrap(), 41);
    assert_eq!(decode_claims(&b)["vxi"].as_u64().unwrap(), 42);
    assert_ne!(a, b);
}

#[test]
fn claims_without_target_have_no_t_key() {
    let mut g = TokenGenerator::init();
    let tok = g.generate("key", "iss", 120, "login", "sip:x@y", None).unwrap();
    assert_eq!(claims_text(&tok), "{\"iss\":\"iss\",\"exp\":120,\"vxa\":\"login\",\"vxi\":0,\"f\":\"sip:x@y\"}");
    assert!(decode_claims(&tok).get("t").is_none());
}

#[test]
fn claims_with_target_hold_it_verbatim() {
    let mut g = TokenGenerator::init();
    let uri = "sip:confctl-e-iss.room@domain.com".to_string();
    let tok = g.generate("key", "iss", 7, "join", "sip:x@y", Some(uri.clone())).unwrap();
    assert_eq!(
        claims_text(&tok),
        "{\"iss\":\"iss\",\"exp\":7,\"vxa\":\"join\",\"vxi\":0,\"f\":\"sip:x@y\",\"t\":\"sip:confctl-e-iss.room@domain.com\"}"
    );
    assert_eq!(decode_claims(&tok)["t"].as_str().unwrap(), uri);
}

#[test]
fn claims_escape_quotes() {
    let mut g = TokenGenerator::init();
    let tok = g.generate("key", "a\"b", 1, "login", "f", None).unwrap();
    assert_eq!(claims_text(&tok), "{\"iss\":\"a\\\"b\",\"exp\":1,\"vxa\":\"login\",\"vxi\":0,\"f\":\"f\"}");
    assert_eq!(decode_claims(&tok)["iss"].as_str().unwrap(), "a\"b");
}

#[test]
fn header_segment_encodes_empty_object() {
    let mut g = TokenGenerator::init();
    let tok = g.generate("key", "iss", 1, "login", "f", None).unwrap();
    assert_eq!(segments(&tok).len(), 3);
    assert_eq!(segments(&tok)[0], "e30");
}

#[test]
fn signature_round_trip() {
    let mut g = TokenGenerator::init();
    let tok = g.generate("secret", "iss", 99, "join", "sip:u@d", Some("sip:c.r@d".to_string())).unwrap();
    let segs = segments(&tok);
    let signing = format!("{}.{}", segs[0], segs[1]);
    let mut mac = hmac::Hmac::<sha2::Sha256>::new_varkey(b"secret").unwrap();
    mac.update(signing.as_bytes());
    let tag = mac.finalize().into_bytes().to_vec();
    assert_eq!(BASE64URL_NOPAD.decode(segs[2].as_bytes()).unwrap(), tag);
    assert_eq!(segs[2], BASE64URL_NOPAD.encode(&tag));
    assert!(verify_signature("secret", &tok));
}

#[test]
fn signature_fails_with_another_key() {
    let mut g = TokenGenerator::init();
    let tok = g.generate("secret", "iss", 99, "login", "sip:u@d", None).unwrap();
    assert!(!verify_signature("other", &tok));
}

#[test]
fn signature_fails_on_tampered_claims() {
    let mut g = TokenGenerator::init();
    let tok = g.generate("secret", "iss", 99, "login", "sip:u@d", None).unwrap();
    let segs = segments(&tok);
    let forged_claims = BASE64URL_NOPAD.encode(b"{\"iss\":\"evil\"}");
    let forged = format!("{}.{}.{}", segs[0], forged_claims, segs[2]);
    assert!(!verify_signature("secret", &forged));
}

#[test]
fn signature_needs_exactly_three_segments() {
    assert!(!verify_signature("k", ""));
    assert!(!verify_signature("k", "abc"));
    assert!(!verify_signature("k", "a.b"));
    let mut g = TokenGenerator::init();
    let tok = g.generate("k", "iss", 1, "login", "f", None).unwrap();
    assert!(!verify_signature("k", &format!("{}.x", tok)));
}

#[test]
fn sign_claims_matches_generate() {
    let mut g = TokenGenerator::init();
    let tok = g.generate("k", "iss", 3, "login", "f", None).unwrap();
    let claims = claims_text(&tok);
    assert_eq!(sign_claims("k", &claims).unwrap(), tok);
}

#[test]
fn sign_claims_of_empty_object() {
    let tok = sign_claims("k", "{}").unwrap();
    let segs = segments(&tok);
    assert_eq!(segs[0], "e30");
    assert_eq!(segs[1], "e30");
    assert!(verify_signature("k", &tok));
}

#[test]
fn decimal_string_values() {
    assert_eq!(decimal_string(0), "0");
    assert_eq!(decimal_string(7), "7");
    assert_eq!(decimal_string(120), "120");
    assert_eq!(decimal_string(u64::MAX), "18446744073709551615");
}

#[test]
fn claims_payload_layout() {
    assert_eq!(
        claims_payload("\"i\"", 5, "\"login\"", 9, "\"f\"", None),
        "{\"iss\":\"i\",\"exp\":5,\"vxa\":\"login\",\"vxi\":9,\"f\":\"f\"}"
    );
    assert_eq!(
        claims_payload("\"i\"", 5, "\"join\"", 9, "\"f\"", Some("\"t\"")),
        "{\"iss\":\"i\",\"exp\":5,\"vxa\":\"join\",\"vxi\":9,\"f\":\"f\",\"t\":\"t\"}"
    );
}

#[test]
fn token_segments_are_base64url() {
    let mut g = TokenGenerator::init();
    let tok = g.generate("k", "i\u{1}ss\"", 77, "join", "sip:é@d", Some("sip:c.r@d".to_string())).unwrap();
    let segs = segments(&tok);
    assert_eq!(segs.len(), 3);
    assert_eq!(segs[2].len(), 43);
    for seg in &segs {
        assert!(seg.chars().all(|c| c.is_ascii_alphanumeric() || c == '-' || c == '_'), "{}", seg);
    }
    assert_eq!(decode_claims(&tok)["iss"].as_str().unwrap(), "i\u{1}ss\"");
}

#[test]
fn empty_key_is_accepted() {
    let mut g = TokenGenerator::init();
    let tok = g.generate("", "iss", 1, "login", "f", None).unwrap();
    assert!(verify_signature("", &tok));
    assert_eq!(g.req_index, 1);
}

#[test]
fn same_counter_same_token() {
    let mut a = TokenGenerator { req_index: 9 };
    let mut b = TokenGenerator { req_index: 9 };
    let ta = a.generate("k", "iss", 5, "join", "f", Some("t".to_string()));
    let tb = b.generate("k", "iss", 5, "join", "f", Some("t".to_string()));
    assert_eq!(ta, tb);
}
