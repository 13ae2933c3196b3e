//! Validation of channel URIs such as `sip:confctl-e-issuer.room@domain`.
use vstd::prelude::*;
use vstd::string::*;
use vstd::utf8::{is_ascii_chars, is_ascii_chars_encode_utf8};
use crate::tokengen::utf8;

verus! {

/// Longest room name, in bytes, that a channel URI may carry.
pub const MAX_CHANNEL_URI_LENGTH: usize = 200;

/// Whether a character is alphabetic or numeric in Unicode's sense.
pub uninterp spec fn alphanumeric(c: char) -> bool;

/// ASCII letters and digits.
pub open spec fn ascii_alphanumeric(c: char) -> bool {
    ('a' <= c && c <= 'z') || ('A' <= c && c <= 'Z') || ('0' <= c && c <= '9')
}

/// Relies on `char::is_alphanumeric`: whether the character has the
/// Alphabetic or the Numeric property, which every ASCII letter and digit has.
#[verifier::external_body]
fn is_alphanumeric(c: char) -> (r: bool)
    ensures
        r == alphanumeric(c),
        ascii_alphanumeric(c) ==> r,
{
    c.is_alphanumeric()
}

/// The punctuation allowed in a room name besides letters and digits.
pub open spec fn allowed_punctuation(c: char) -> bool {
    c == '-' || c == '_' || c == '.' || c == '!' || c == '~' || c == '*' || c == '\''
        || c == '(' || c == ')' || c == '&' || c == '=' || c == '+' || c == '$' || c == ','
        || c == ';' || c == '?' || c == '/'
}

/// Whether a character is one of the allowed punctuation marks
/// `-_.!~*'()&=+$,;?/`.
pub fn is_valid_non_alphanumeric(x: &char) -> (r: bool)
    ensures
        r == allowed_punctuation(*x),
{
    let c = *x;
    c == '-' || c == '_' || c == '.' || c == '!' || c == '~' || c == '*' || c == '\''
        || c == '(' || c == ')' || c == '&' || c == '=' || c == '+' || c == '$' || c == ','
        || c == ';' || c == '?' || c == '/'
}

/// `k` is the position of the first occurrence of `c` in `s`.
pub open spec fn is_first_index(s: Seq<char>, c: char, k: int) -> bool {
    0 <= k < s.len() && s[k] == c && forall|j: int| 0 <= j < k ==> s[j] != c
}

/// A room name is made of allowed characters and is short enough.
pub open spec fn valid_room(room: Seq<char>) -> bool {
    &&& forall|i: int| 0 <= i < room.len() ==> alphanumeric(room[i]) || allowed_punctuation(
        room[i],
    )
    &&& utf8(room).len() <= MAX_CHANNEL_URI_LENGTH
}

/// The URI has a `:` and, after the first one, an `@`; the room name between
/// the first `:` and the first `@` is valid.
pub open spec fn channel_uri_valid(uri: Seq<char>) -> bool {
    exists|a: int, b: int|
        #![trigger is_first_index(uri, ':', a), is_first_index(uri, '@', b)]
        is_first_index(uri, ':', a) && is_first_index(uri, '@', b) && a < b && valid_room(
            uri.subrange(a + 1, b),
        )
}

/// A room name of ASCII letters, digits and allowed punctuation, short enough.
pub open spec fn plain_room(room: Seq<char>) -> bool {
    &&& forall|i: int| 0 <= i < room.len() ==> ascii_alphanumeric(room[i]) || allowed_punctuation(
        room[i],
    )
    &&& room.len() <= MAX_CHANNEL_URI_LENGTH
}

/// A channel URI whose room name is plain: such a URI is valid.
pub open spec fn plain_channel_uri(uri: Seq<char>) -> bool {
    exists|a: int, b: int|
        #![trigger is_first_index(uri, ':', a), is_first_index(uri, '@', b)]
        is_first_index(uri, ':', a) && is_first_index(uri, '@', b) && a < b && plain_room(
            uri.subrange(a + 1, b),
        )
}

/// The position of the first occurrence of a character.
fn find_char(s: &str, c: char) -> (r: Option<usize>)
    ensures
        r matches Some(k) ==> is_first_index(s@, c, k as int),
        r is None ==> forall|j: int| 0 <= j < s@.len() ==> s@[j] != c,
{
    let n = s.unicode_len();
    let mut i: usize = 0;
    while i < n
        invariant
            n == s@.len(),
            i <= n,
            forall|j: int| 0 <= j < i ==> s@[j] != c,
        decreases n - i,
    {
        if s.get_char(i) == c {
            return Some(i);
        }
        i = i + 1;
    }
    None
}

/// Whether every character of a room name is alphanumeric or allowed
/// punctuation.
fn room_chars_allowed(room: &str) -> (r: bool)
    ensures
        r == forall|i: int| 0 <= i < room@.len() ==> alphanumeric(room@[i])
            || allowed_punctuation(room@[i]),
        (forall|i: int| 0 <= i < room@.len() ==> ascii_alphanumeric(room@[i])
            || allowed_punctuation(room@[i])) ==> r,
{
    let n = room.unicode_len();
    let mut i: usize = 0;
    while i < n
        invariant
            n == room@.len(),
            i <= n,
            forall|j: int| 0 <= j < i ==> alphanumeric(room@[j]) || allowed_punctuation(room@[j]),
        decreases n - i,
    {
        let c = room.get_char(i);
        if !(is_alphanumeric(c) || is_valid_non_alphanumeric(&c)) {
            return false;
        }
        i = i + 1;
    }
    true
}

/// Checks a channel URI: the room name between its first `:` and its first
/// `@` must hold only alphanumeric characters and allowed punctuation, and be
/// at most `MAX_CHANNEL_URI_LENGTH` bytes long.
pub fn is_valid_channel_uri(uri: &str) -> (r: bool)
    ensures
        r == channel_uri_valid(uri@),
        plain_channel_uri(uri@) ==> r,
{
    let colon = find_char(uri, ':');
    let at = find_char(uri, '@');
    match (colon, at) {
        (Some(a), Some(b)) => {
            if a >= b {
                return false;
            }
            let room = uri.substring_char(a + 1, b);
            let r = room_chars_allowed(room) && room.as_bytes().len() <= MAX_CHANNEL_URI_LENGTH;
            proof {
                if plain_channel_uri(uri@) {
                    let (x, y) = choose|x: int, y: int|
                        is_first_index(uri@, ':', x) && is_first_index(uri@, '@', y) && x < y
                            && plain_room(uri@.subrange(x + 1, y));
                    if x < a as int {
                    } else if a < x {
                    }
                    if y < b as int {
                    } else if b < y {
                    }
                    let rm = room@;
                    assert(is_ascii_chars(rm)) by {
                        assert forall|i: int| 0 <= i < rm.len() implies '\0' <= #[trigger] rm[i]
                            <= '\u{7f}' by {
                            assert(ascii_alphanumeric(rm[i]) || allowed_punctuation(rm[i]));
                        }
                    }
                    is_ascii_chars_encode_utf8(rm);
                }
                if !r {
                    assert forall|x: int, y: int|
                        is_first_index(uri@, ':', x) && is_first_index(uri@, '@', y) implies !(x
                        < y && valid_room(uri@.subrange(x + 1, y))) by {
                        if x < a as int {
                        } else if a < x {
                        }
                        if y < b as int {
                        } else if b < y {
                        }
                    }
                }
            }
            r
        },
        _ => {
            proof {
                assert forall|x: int, y: int|
                    is_first_index(uri@, ':', x) && is_first_index(uri@, '@', y) implies false by {
                    if colon is None {
                        assert(uri@[x] == ':');
                    } else {
                        assert(uri@[y] == '@');
                    }
                }
            }
            false
        },
    }
}

} // verus!
