use vivoxrs::channel::{is_valid_channel_uri, is_valid_non_alphanumeric, MAX_CHANNEL_URI_LENGTH};

#[test]
fn punctuation_set() {
    for c in "-_.!~*'()&=+$,;?/".chars() {
        assert!(is_valid_non_alphanumeric(&c), "{}", c);
    }
    for c in "#%@:<>\" a1".chars() {
        assert!(!is_valid_non_alphanumeric(&c), "{}", c);
    }
}

#[test]
fn echo_channel_uri_is_valid() {
    assert!(is_valid_channel_uri("sip:confctl-e-gmclvivox-gmvivox-w-dev.echotest@vdx5.vivox.com"));
}

#[test]
fn room_with_forbidden_character_is_invalid() {
    assert!(!is_valid_channel_uri("sip:confctl-e-issuer.room#1@domain.com"));
    assert!(!is_valid_channel_uri("sip:room name@domain.com"));
}

#[test]
fn room_length_limit() {
    let at_limit = format!("sip:{}@d", "a".repeat(MAX_CHANNEL_URI_LENGTH));
    let over_limit = format!("sip:{}@d", "a".repeat(MAX_CHANNEL_URI_LENGTH + 1));
    assert!(is_valid_channel_uri(&at_limit));
    assert!(!is_valid_channel_uri(&over_limit));
}

#[test]
fn room_length_counts_bytes() {
    let room = "é".repeat(100);
    assert!(is_valid_channel_uri(&format!("sip:{}@d", room)));
    let room = "é".repeat(101);
    assert!(!is_valid_channel_uri(&format!("sip:{}@d", room)));
}

#[test]
fn room_is_between_first_colon_and_first_at() {
    assert!(is_valid_channel_uri("sip:abc@d:#"));
    assert!(is_valid_channel_uri("sip:@d"));
    assert!(!is_valid_channel_uri("sip:a:b@d"));
}

#[test]
fn uri_without_colon_or_at_is_invalid() {
    assert!(!is_valid_channel_uri("room@domain"));
    assert!(!is_valid_channel_uri("sip:room"));
    assert!(!is_valid_channel_uri("a@b:c"));
    assert!(!is_valid_channel_uri(""));
}
