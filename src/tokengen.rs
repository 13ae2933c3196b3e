//! Signed access tokens: `base64url(header) . base64url(claims) . base64url(HMAC-SHA256)`,
//! each carrying a counter that grows by one per token.
use vstd::prelude::*;
use vstd::string::*;
use vstd::utf8::encode_utf8;
use hmac::{Mac, NewMac};

verus! {

/// The unpadded base64url text of some bytes.
pub uninterp spec fn base64url_of(bytes: Seq<u8>) -> Seq<char>;

/// The HMAC-SHA256 tag of a message under a key.
pub uninterp spec fn hmac_sha256_of(key: Seq<u8>, msg: Seq<u8>) -> Seq<u8>;

/// A text written as a JSON string literal, quotes included.
pub uninterp spec fn json_string_of(s: Seq<char>) -> Seq<char>;

/// The symbols of the unpadded base64url alphabet.
pub open spec fn is_base64url_symbol(c: char) -> bool {
    ('A' <= c && c <= 'Z') || ('a' <= c && c <= 'z') || ('0' <= c && c <= '9') || c == '-'
        || c == '_'
}

/// A text that JSON writes without escapes: no quote, no backslash, no
/// control character.
pub open spec fn json_plain(s: Seq<char>) -> bool {
    forall|i: int| 0 <= i < s.len() ==> s[i] != '"' && s[i] != '\\' && s[i] >= ' '
}

/// Largest input handed to the base64url encoder: within its limit of
/// `usize::MAX / 512` bytes on every pointer width.
pub const MAX_ENCODED_INPUT: usize = 8388607;

/// Relies on `data_encoding::BASE64URL_NOPAD.encode`: the unpadded base64url
/// text of the input, over the symbols `A-Z a-z 0-9 - _`, `ceil(8n / 6)`
/// symbols long for `n` input bytes. Its length computation asserts that the
/// input is at most `usize::MAX / 512` bytes.
#[verifier::external_body]
fn base64url(bytes: &[u8]) -> (r: String)
    requires
        bytes@.len() <= MAX_ENCODED_INPUT,
    ensures
        r@ == base64url_of(bytes@),
        r@.len() == (8 * bytes@.len() + 5) / 6,
        forall|i: int| 0 <= i < r@.len() ==> is_base64url_symbol(#[trigger] r@[i]),
{
    data_encoding::BASE64URL_NOPAD.encode(bytes)
}

/// Relies on `hmac::Hmac<sha2::Sha256>` (`new_varkey`, `update`, `finalize`):
/// the 32-byte tag of the message. `new_varkey` of `Hmac` accepts keys of
/// every length (longer keys are hashed first), so it never fails.
#[verifier::external_body]
fn hmac_sha256(key: &[u8], msg: &[u8]) -> (r: Vec<u8>)
    ensures
        r@ == hmac_sha256_of(key@, msg@),
        r@.len() == 32,
{
    let mut mac = hmac::Hmac::<sha2::Sha256>::new_varkey(key).expect("HMAC takes keys of any length");
    mac.update(msg);
    mac.finalize().into_bytes().to_vec()
}

/// Relies on `serde_json::to_string` on a `str`: the text between quotes, with
/// only quotes, backslashes and control characters escaped, each escape at
/// most six characters (`\u00XX`). Serialising a `str` into the in-memory
/// buffer cannot fail, so the `Err` arm is never taken.
#[verifier::external_body]
fn json_string(s: &str) -> (r: String)
    ensures
        r@ == json_string_of(s@),
        json_plain(s@) ==> r@ == seq!['"'] + s@ + seq!['"'],
        r@.len() <= 6 * s@.len() + 2,
{
    serde_json::to_string(s).expect("a str always serialises")
}

/// The decimal digit of a value below ten.
pub open spec fn digit_char(d: nat) -> char {
    if d == 0 { '0' }
    else if d == 1 { '1' }
    else if d == 2 { '2' }
    else if d == 3 { '3' }
    else if d == 4 { '4' }
    else if d == 5 { '5' }
    else if d == 6 { '6' }
    else if d == 7 { '7' }
    else if d == 8 { '8' }
    else { '9' }
}

/// The decimal text of a number, without leading zeros.
pub open spec fn decimal(n: nat) -> Seq<char>
    decreases n,
{
    if n < 10 {
        seq![digit_char(n)]
    } else {
        decimal(n / 10).push(digit_char(n % 10))
    }
}

fn digit_str(d: u64) -> (r: &'static str)
    requires
        d < 10,
    ensures
        r@ == seq![digit_char(d as nat)],
{
    proof {
        reveal_strlit("0");
        reveal_strlit("1");
        reveal_strlit("2");
        reveal_strlit("3");
        reveal_strlit("4");
        reveal_strlit("5");
        reveal_strlit("6");
        reveal_strlit("7");
        reveal_strlit("8");
        reveal_strlit("9");
    }
    if d == 0 { "0" }
    else if d == 1 { "1" }
    else if d == 2 { "2" }
    else if d == 3 { "3" }
    else if d == 4 { "4" }
    else if d == 5 { "5" }
    else if d == 6 { "6" }
    else if d == 7 { "7" }
    else if d == 8 { "8" }
    else { "9" }
}

/// Writes a number in decimal, as JSON writes an unsigned integer.
pub fn decimal_string(n: u64) -> (r: String)
    ensures
        r@ == decimal(n as nat),
    decreases n,
{
    if n < 10 {
        String::from_str(digit_str(n))
    } else {
        let mut s = decimal_string(n / 10);
        s.append(digit_str(n % 10));
        s
    }
}

/// The view of an optional text.
pub open spec fn opt_view(o: Option<&str>) -> Option<Seq<char>> {
    match o {
        Some(s) => Some(s@),
        None => None,
    }
}

/// The claims object up to and including its `f` member.
pub open spec fn claims_head(
    iss_json: Seq<char>,
    exp: u64,
    vxa_json: Seq<char>,
    vxi: u64,
    f_json: Seq<char>,
) -> Seq<char> {
    "{\"iss\":"@ + iss_json + ",\"exp\":"@ + decimal(exp as nat) + ",\"vxa\":"@ + vxa_json
        + ",\"vxi\":"@ + decimal(vxi as nat) + ",\"f\":"@ + f_json
}

/// The claims object, from its string members already written as JSON
/// strings. The members come in the order `iss, exp, vxa, vxi, f, t`, and `t`
/// is left out altogether when absent.
pub open spec fn claims_json(
    iss_json: Seq<char>,
    exp: u64,
    vxa_json: Seq<char>,
    vxi: u64,
    f_json: Seq<char>,
    t_json: Option<Seq<char>>,
) -> Seq<char> {
    claims_head(iss_json, exp, vxa_json, vxi, f_json) + match t_json {
        Some(t) => ",\"t\":"@ + t,
        None => Seq::<char>::empty(),
    } + "}"@
}

/// Without a target the claims close right after the `f` member: there is no
/// `t` key at all, not even one set to null. With a target the claims end
/// with a `t` member holding exactly the target's JSON string.
pub proof fn lemma_target_member(
    iss_json: Seq<char>,
    exp: u64,
    vxa_json: Seq<char>,
    vxi: u64,
    f_json: Seq<char>,
    t_json: Seq<char>,
)
    ensures
        claims_json(iss_json, exp, vxa_json, vxi, f_json, None) == claims_head(
            iss_json,
            exp,
            vxa_json,
            vxi,
            f_json,
        ) + "}"@,
        claims_json(iss_json, exp, vxa_json, vxi, f_json, Some(t_json)) == claims_head(
            iss_json,
            exp,
            vxa_json,
            vxi,
            f_json,
        ) + ",\"t\":"@ + t_json + "}"@,
{
    assert(claims_head(iss_json, exp, vxa_json, vxi, f_json) + Seq::<char>::empty()
        =~= claims_head(iss_json, exp, vxa_json, vxi, f_json));
    assert(claims_head(iss_json, exp, vxa_json, vxi, f_json) + (",\"t\":"@ + t_json)
        =~= claims_head(iss_json, exp, vxa_json, vxi, f_json) + ",\"t\":"@ + t_json);
}

/// Lays out the claims object from its members (see `claims_json`).
pub fn claims_payload(
    iss_json: &str,
    exp: u64,
    vxa_json: &str,
    vxi: u64,
    f_json: &str,
    t_json: Option<&str>,
) -> (r: String)
    ensures
        r@ == claims_json(iss_json@, exp, vxa_json@, vxi, f_json@, opt_view(t_json)),
{
    let mut s = String::from_str("{\"iss\":");
    s.append(iss_json);
    s.append(",\"exp\":");
    let e = decimal_string(exp);
    s.append(e.as_str());
    s.append(",\"vxa\":");
    s.append(vxa_json);
    s.append(",\"vxi\":");
    let v = decimal_string(vxi);
    s.append(v.as_str());
    s.append(",\"f\":");
    s.append(f_json);
    match t_json {
        Some(t) => {
            s.append(",\"t\":");
            s.append(t);
        },
        None => {},
    }
    s.append("}");
    assert(s@ =~= claims_head(iss_json@, exp, vxa_json@, vxi, f_json@) + match opt_view(t_json) {
        Some(t) => ",\"t\":"@ + t,
        None => Seq::<char>::empty(),
    } + "}"@);
    assert(s@ =~= claims_json(iss_json@, exp, vxa_json@, vxi, f_json@, opt_view(t_json)));
    s
}

/// The bytes of a text in UTF-8.
pub open spec fn utf8(s: Seq<char>) -> Seq<u8> {
    encode_utf8(s)
}

/// The first two segments of a token: the encoded header `{}` and the
/// encoded claims.
pub open spec fn signing_input(claims: Seq<char>) -> Seq<char> {
    base64url_of(utf8("{}"@)) + seq!['.'] + base64url_of(utf8(claims))
}

/// The third segment: the encoded HMAC-SHA256 tag of the first two.
pub open spec fn signature_of(key: Seq<char>, input: Seq<char>) -> Seq<char> {
    base64url_of(hmac_sha256_of(utf8(key), utf8(input)))
}

/// The complete token for some claims.
pub open spec fn signed_token(key: Seq<char>, claims: Seq<char>) -> Seq<char> {
    signing_input(claims) + seq!['.'] + signature_of(key, signing_input(claims))
}

/// The claims of a token, from its plain values.
pub open spec fn token_claims(
    iss: Seq<char>,
    exp: u64,
    vxa: Seq<char>,
    vxi: u64,
    f: Seq<char>,
    t: Option<Seq<char>>,
) -> Seq<char> {
    claims_json(
        json_string_of(iss),
        exp,
        json_string_of(vxa),
        vxi,
        json_string_of(f),
        match t {
            Some(x) => Some(json_string_of(x)),
            None => None,
        },
    )
}

/// The text holds no dot.
pub open spec fn no_dot(s: Seq<char>) -> bool {
    forall|k: int| 0 <= k < s.len() ==> s[k] != '.'
}

/// The token splits at positions `i` and `j` into three segments free of
/// dots, and its third segment is the signature of the first two.
pub open spec fn splits_signed(key: Seq<char>, token: Seq<char>, i: int, j: int) -> bool {
    &&& 0 <= i < j < token.len()
    &&& token[i] == '.'
    &&& token[j] == '.'
    &&& no_dot(token.subrange(0, i))
    &&& no_dot(token.subrange(i + 1, j))
    &&& no_dot(token.subrange(j + 1, token.len() as int))
    &&& token.subrange(j + 1, token.len() as int) == signature_of(key, token.subrange(0, j))
}

/// The token has three segments, and recomputing the signature of the first
/// two with the key gives the third.
pub open spec fn signature_matches(key: Seq<char>, token: Seq<char>) -> bool {
    exists|i: int, j: int| splits_signed(key, token, i, j)
}

/// The token is three base64url segments joined by dots, the last one the
/// 43 symbols of a 32-byte tag.
pub open spec fn token_shape(t: Seq<char>) -> bool {
    exists|i: int, j: int| shaped_at(t, i, j)
}

/// The token's dots stand at `i` and `j`, every other character is a
/// base64url symbol, and 43 symbols follow the second dot.
pub open spec fn shaped_at(t: Seq<char>, i: int, j: int) -> bool {
    &&& 0 <= i < j < t.len()
    &&& t[i] == '.'
    &&& t[j] == '.'
    &&& forall|k: int| 0 <= k < t.len() && k != i && k != j ==> is_base64url_symbol(#[trigger] t[k])
    &&& t.len() - j - 1 == 43
}

/// Why a token could not be produced.
#[derive(Clone, Copy, Debug, PartialEq, Eq, Structural)]
pub enum TokenError {
    /// The claims are too long to be encoded.
    PayloadTooLarge,
}

/// Encodes some claims and signs them with the key. Fails exactly when the
/// claims are too long for the encoder.
pub fn sign_claims(key: &str, claims: &str) -> (r: Result<String, TokenError>)
    ensures
        r matches Ok(tok) ==> tok@ == signed_token(key@, claims@) && signature_matches(
            key@,
            tok@,
        ) && token_shape(tok@),
        r is Err <==> utf8(claims@).len() > MAX_ENCODED_INPUT,
        r matches Err(e) ==> e == TokenError::PayloadTooLarge,
{
    let claim_bytes = claims.as_bytes();
    if claim_bytes.len() > MAX_ENCODED_INPUT {
        return Err(TokenError::PayloadTooLarge);
    }
    let header_bytes = "{}".as_bytes();
    proof {
        reveal_strlit("{}");
        reveal_with_fuel(encode_utf8, 3);
        assert(header_bytes@.len() == 2);
    }
    let header = base64url(header_bytes);
    let payload = base64url(claim_bytes);
    let mut to_sign = header;
    to_sign.append(".");
    to_sign.append(payload.as_str());
    let tag = hmac_sha256(key.as_bytes(), to_sign.as_str().as_bytes());
    let sig = base64url(tag.as_slice());
    let mut token = to_sign;
    token.append(".");
    token.append(sig.as_str());
    proof {
        reveal_strlit(".");
        let h = header@;
        let p = payload@;
        let g = sig@;
        let t = token@;
        let i = h.len() as int;
        let j = i + 1 + p.len();
        assert(t =~= h + seq!['.'] + p + seq!['.'] + g);
        assert(t.subrange(0, i) =~= h);
        assert(t.subrange(i + 1, j) =~= p);
        assert(t.subrange(j + 1, t.len() as int) =~= g);
        assert(t.subrange(0, j) =~= to_sign@);
        assert(splits_signed(key@, t, i, j));
        assert forall|k: int| 0 <= k < t.len() && k != i && k != j implies is_base64url_symbol(
            #[trigger] t[k],
        ) by {
            if k < i {
                assert(t[k] == h[k]);
            } else if k < j {
                assert(t[k] == p[k - i - 1]);
            } else {
                assert(t[k] == g[k - j - 1]);
            }
        }
        assert(shaped_at(t, i, j));
        assert(h == base64url_of(utf8("{}"@)));
        assert(p == base64url_of(utf8(claims@)));
        assert(to_sign@ =~= signing_input(claims@));
        assert(tag@ == hmac_sha256_of(utf8(key@), utf8(to_sign@)));
        assert(t =~= signed_token(key@, claims@));
    }
    Ok(token)
}

/// A position inside a dot-free stretch of `s` holds no dot.
proof fn lemma_dot_outside(s: Seq<char>, a: int, b: int, k: int)
    requires
        0 <= a <= b <= s.len(),
        no_dot(s.subrange(a, b)),
        a <= k < b,
    ensures
        s[k] != '.',
{
    assert(s.subrange(a, b)[k - a] == s[k]);
}

/// Two splits of a text at its first two dots are the same split.
proof fn lemma_split_unique(t: Seq<char>, a: int, b: int, i: int, j: int)
    requires
        0 <= a < b < t.len(),
        t[a] == '.',
        t[b] == '.',
        no_dot(t.subrange(0, a)),
        no_dot(t.subrange(a + 1, b)),
        0 <= i < j < t.len(),
        t[i] == '.',
        t[j] == '.',
        no_dot(t.subrange(0, i)),
        no_dot(t.subrange(i + 1, j)),
    ensures
        i == a,
        j == b,
{
    if i < a {
        lemma_dot_outside(t, 0, a, i);
    } else if a < i {
        lemma_dot_outside(t, 0, i, a);
    }
    if j < b {
        lemma_dot_outside(t, a + 1, b, j);
    } else if b < j {
        lemma_dot_outside(t, i + 1, j, b);
    }
}

/// Checks that a token has three segments and that its third is the
/// signature of the first two under the key.
pub fn verify_signature(key: &str, token: &str) -> (r: bool)
    ensures
        r == signature_matches(key@, token@),
{
    let n = token.unicode_len();
    let ghost t = token@;
    let mut first: Option<usize> = None;
    let mut second: Option<usize> = None;
    let mut third: Option<usize> = None;
    let mut i: usize = 0;
    while i < n
        invariant
            n == t.len(),
            t == token@,
            i <= n,
            first is None ==> no_dot(t.subrange(0, i as int)),
            first matches Some(a) ==> {
                &&& a < i
                &&& t[a as int] == '.'
                &&& no_dot(t.subrange(0, a as int))
                &&& (second is None ==> no_dot(t.subrange(a + 1, i as int)))
            },
            second matches Some(b) ==> {
                &&& first matches Some(a) && a < b && no_dot(t.subrange(a + 1, b as int))
                &&& b < i
                &&& t[b as int] == '.'
                &&& (third is None ==> no_dot(t.subrange(b + 1, i as int)))
            },
            third matches Some(c) ==> second matches Some(b) && b < c < i && t[c as int] == '.',
        decreases n - i,
    {
        let c = token.get_char(i);
        let ghost old_first = first;
        let ghost old_second = second;
        let ghost old_third = third;
        if c == '.' {
            if first.is_none() {
                first = Some(i);
            } else if second.is_none() {
                second = Some(i);
            } else if third.is_none() {
                third = Some(i);
            }
        }
        i = i + 1;
        proof {
            if first is None {
                assert forall|k: int| 0 <= k < i implies #[trigger] t.subrange(0, i as int)[k] != '.' by {
                    if k < i - 1 {
                        assert(t.subrange(0, i - 1)[k] == t[k]);
                    }
                }
            }
            if let Some(a) = first {
                if second is None {
                    assert forall|k: int| 0 <= k < i - a - 1 implies #[trigger] t.subrange(
                        a + 1,
                        i as int,
                    )[k] != '.' by {
                        if a + 1 + k < i - 1 {
                            assert(t.subrange(a + 1, i - 1)[k] == t[a + 1 + k]);
                        }
                    }
                }
                if old_first is None {
                    assert(t.subrange(0, a as int) =~= t.subrange(0, i - 1));
                }
            }
            if let Some(b) = second {
                let a = first->0;
                if old_second is None {
                    assert(t.subrange(a + 1, b as int) =~= t.subrange(a + 1, i - 1));
                }
                if third is None {
                    assert forall|k: int| 0 <= k < i - b - 1 implies #[trigger] t.subrange(
                        b + 1,
                        i as int,
                    )[k] != '.' by {
                        if b + 1 + k < i - 1 {
                            assert(t.subrange(b + 1, i - 1)[k] == t[b + 1 + k]);
                        }
                    }
                }
            }
        }
    }
    match (first, second, third) {
        (Some(a), Some(b), None) => {
            let signing = token.substring_char(0, b);
            let sig = token.substring_char(b + 1, n);
            let tag = hmac_sha256(key.as_bytes(), signing.as_bytes());
            let expected = base64url(tag.as_slice());
            let found = String::from_str(sig);
            let r = expected == found;
            proof {
                if r {
                    assert(splits_signed(key@, t, a as int, b as int));
                } else {
                    assert forall|x: int, y: int| !splits_signed(key@, t, x, y) by {
                        if splits_signed(key@, t, x, y) {
                            lemma_split_unique(t, a as int, b as int, x, y);
                        }
                    }
                }
            }
            r
        },
        _ => {
            proof {
                assert forall|x: int, y: int| !splits_signed(key@, t, x, y) by {
                    if splits_signed(key@, t, x, y) {
                        if let Some(a) = first {
                            if x < a {
                                lemma_dot_outside(t, 0, a as int, x);
                            } else if a < x {
                                lemma_dot_outside(t, 0, x, a as int);
                            }
                            if let Some(b) = second {
                                lemma_split_unique(t, a as int, b as int, x, y);
                                let c = third->0;
                                lemma_dot_outside(t, y + 1, n as int, c as int);
                            } else {
                                lemma_dot_outside(t, a + 1, n as int, y);
                            }
                        } else {
                            lemma_dot_outside(t, 0, n as int, x);
                        }
                    }
                }
            }
            false
        },
    }
}

/// The view of an optional owned text.
pub open spec fn opt_string_view(t: Option<String>) -> Option<Seq<char>> {
    match t {
        Some(x) => Some(x@),
        None => None,
    }
}

/// Length of an optional text, 0 when absent.
pub open spec fn opt_len(t: Option<Seq<char>>) -> nat {
    match t {
        Some(x) => x.len(),
        None => 0,
    }
}

/// Claims with texts this short always fit the encoder: a JSON string takes
/// at most six characters per character plus its quotes, a number at most
/// twenty digits, the fixed layout 39 characters, and a character at most four
/// UTF-8 bytes.
pub open spec fn claims_fit(
    iss: Seq<char>,
    vxa: Seq<char>,
    f: Seq<char>,
    t: Option<Seq<char>>,
) -> bool {
    24 * (iss.len() + vxa.len() + f.len() + opt_len(t)) + 348 <= MAX_ENCODED_INPUT
}

/// A character takes at most four bytes in UTF-8.
proof fn lemma_utf8_len(s: Seq<char>)
    ensures
        utf8(s).len() <= 4 * s.len(),
    decreases s.len(),
{
    if s.len() > 0 {
        lemma_utf8_len(s.drop_first());
    }
}

/// Ten to the power `k`.
pub open spec fn pow10(k: nat) -> nat
    decreases k,
{
    if k == 0 {
        1
    } else {
        10 * pow10((k - 1) as nat)
    }
}

/// A number below `10^k` has at most `k` digits.
proof fn lemma_decimal_len(n: nat, k: nat)
    requires
        k >= 1,
        n < pow10(k),
    ensures
        decimal(n).len() <= k,
    decreases k,
{
    if n >= 10 {
        assert(k >= 2) by {
            if k == 1 {
                reveal_with_fuel(pow10, 2);
            }
        }
        assert(n / 10 < pow10((k - 1) as nat)) by (nonlinear_arith)
            requires
                n < pow10(k),
                pow10(k) == 10 * pow10((k - 1) as nat),
        ;
        lemma_decimal_len(n / 10, (k - 1) as nat);
    }
}

/// A 64-bit number has at most twenty digits.
proof fn lemma_u64_decimal_len(n: u64)
    ensures
        decimal(n as nat).len() <= 20,
{
    reveal_with_fuel(pow10, 21);
    assert(pow10(20) == 100000000000000000000nat);
    lemma_decimal_len(n as nat, 20);
}

/// The claims take at most 39 characters of layout and twenty digits per number
/// besides their JSON strings.
proof fn lemma_claims_len(
    iss_json: Seq<char>,
    exp: u64,
    vxa_json: Seq<char>,
    vxi: u64,
    f_json: Seq<char>,
    t_json: Option<Seq<char>>,
)
    ensures
        claims_json(iss_json, exp, vxa_json, vxi, f_json, t_json).len() <= 79 + iss_json.len()
            + vxa_json.len() + f_json.len() + opt_len(t_json),
{
    reveal_strlit("{\"iss\":");
    reveal_strlit(",\"exp\":");
    reveal_strlit(",\"vxa\":");
    reveal_strlit(",\"vxi\":");
    reveal_strlit(",\"f\":");
    reveal_strlit(",\"t\":");
    reveal_strlit("}");
    lemma_u64_decimal_len(exp);
    lemma_u64_decimal_len(vxi);
}

/// Issues signed access tokens with a counter that grows by one per token.
#[derive(Clone, Copy, Debug)]
pub struct TokenGenerator {
    pub req_index: u64,
}

impl TokenGenerator {
    /// A generator whose first token carries the counter 0.
    pub fn init() -> (r: TokenGenerator)
        ensures
            r.req_index == 0,
    {
        TokenGenerator { req_index: 0 }
    }

    /// Produces a token with the claims `iss = issuer`, `exp`, `vxa`,
    /// `vxi` = the current counter, `f`, and `t` only when present; then the
    /// counter grows by one. It fails only when the claims are too long to be
    /// encoded, which short texts never are (`claims_fit`); on failure the
    /// counter is left as it was. Any key, the empty one included, is accepted.
    pub fn generate(
        &mut self,
        key: &str,
        issuer: &str,
        exp: u64,
        vxa: &str,
        f: &str,
        t: Option<String>,
    ) -> (r: Result<String, TokenError>)
        requires
            old(self).req_index < u64::MAX,
        ensures
            r is Ok <==> utf8(
                token_claims(issuer@, exp, vxa@, old(self).req_index, f@, opt_string_view(t)),
            ).len() <= MAX_ENCODED_INPUT,
            claims_fit(issuer@, vxa@, f@, opt_string_view(t)) ==> r is Ok,
            r matches Ok(tok) ==> {
                &&& tok@ == signed_token(
                    key@,
                    token_claims(issuer@, exp, vxa@, old(self).req_index, f@, opt_string_view(t)),
                )
                &&& signature_matches(key@, tok@)
                &&& token_shape(tok@)
                &&& final(self).req_index == old(self).req_index + 1
            },
            r matches Err(e) ==> e == TokenError::PayloadTooLarge && *final(self) == *old(self),
            json_plain(issuer@) ==> json_string_of(issuer@) == seq!['"'] + issuer@ + seq!['"'],
            json_plain(vxa@) ==> json_string_of(vxa@) == seq!['"'] + vxa@ + seq!['"'],
            json_plain(f@) ==> json_string_of(f@) == seq!['"'] + f@ + seq!['"'],
            t matches Some(x) ==> (json_plain(x@) ==> json_string_of(x@) == seq!['"'] + x@
                + seq!['"']),
    {
        let iss_json = json_string(issuer);
        let vxa_json = json_string(vxa);
        let f_json = json_string(f);
        let t_json: Option<String> = match &t {
            Some(x) => Some(json_string(x.as_str())),
            None => None,
        };
        let claims = match &t_json {
            Some(j) => claims_payload(
                iss_json.as_str(),
                exp,
                vxa_json.as_str(),
                self.req_index,
                f_json.as_str(),
                Some(j.as_str()),
            ),
            None => claims_payload(
                iss_json.as_str(),
                exp,
                vxa_json.as_str(),
                self.req_index,
                f_json.as_str(),
                None,
            ),
        };
        proof {
            let tl: nat = match t_json {
                Some(j) => j@.len(),
                None => 0,
            };
            lemma_claims_len(iss_json@, exp, vxa_json@, self.req_index, f_json@, opt_string_view(t_json));
            lemma_utf8_len(claims@);
            assert(claims@.len() <= 87 + iss_json@.len() - 2 + vxa_json@.len() - 2 + f_json@.len() - 2 + tl);
        }
        let token = match sign_claims(key, claims.as_str()) {
            Ok(tok) => tok,
            Err(e) => return Err(e),
        };
        self.req_index = self.req_index + 1;
        Ok(token)
    }
}

/// Over a run of calls to `generate`, each starting from the counter that the
/// previous call left, the counters embedded in the successive tokens are
/// consecutive: the k-th carries the first plus k, so each is exactly one
/// more than the one before.
pub proof fn lemma_counter_run(embedded: Seq<u64>, left: Seq<u64>)
    requires
        embedded.len() == left.len(),
        forall|k: int| 0 <= k < left.len() ==> left[k] == embedded[k] + 1,
        forall|k: int| 0 <= k < embedded.len() - 1 ==> embedded[k + 1] == left[k],
    ensures
        forall|k: int| 0 <= k < embedded.len() ==> #[trigger] embedded[k] == embedded[0] + k,
        forall|k: int| 0 <= k < embedded.len() - 1 ==> embedded[k + 1] == #[trigger] embedded[k] + 1,
    decreases embedded.len(),
{
    if embedded.len() > 1 {
        let n = embedded.len() - 1;
        lemma_counter_run(embedded.take(n as int), left.take(n as int));
        assert(embedded.take(n as int)[0] == embedded[0]);
        assert forall|k: int| 0 <= k < embedded.len() implies #[trigger] embedded[k] == embedded[0] + k by {
            if k < n {
                assert(embedded.take(n as int)[k] == embedded[k]);
            } else if k > 0 {
                assert(embedded.take(n as int)[k - 1] == embedded[k - 1]);
                assert(left[k - 1] == embedded[k - 1] + 1);
                assert(embedded[k] == left[k - 1]);
            }
        }
    }
}

} // verus!
