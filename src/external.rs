//! Calls into hashing, encoding, time and randomness, each behind a small
//! trusted item whose contract restates what the called crate documents,
//! and the exact text formats (hex, base64, decimal) those contracts use.
use vstd::prelude::*;
use vstd::utf8::*;
use vstd::string::StringExecFns;
use base64::Engine;
use rand::distributions::DistString;

verus! {

/// Largest message or key, in bytes, that HMAC-SHA256 is asked to process.
/// ring refuses (and panics on) inputs whose bit length overflows 64 bits.
pub const HMAC_INPUT_LIMIT: u64 = 0x1000_0000_0000_0000;

/// The HMAC-SHA256 tag of `msg` under `key`.
pub uninterp spec fn hmac_sha256_of(key: Seq<u8>, msg: Seq<u8>) -> Seq<u8>;

/// The character of a 6-bit value in the URL-safe base64 alphabet.
pub open spec fn base64_url_char(v: int) -> char {
    if v < 26 {
        (('A' as u8) + (v as u8)) as char
    } else if v < 52 {
        (('a' as u8) + ((v - 26) as u8)) as char
    } else if v < 62 {
        (('0' as u8) + ((v - 52) as u8)) as char
    } else if v == 62 {
        '-'
    } else {
        '_'
    }
}

/// The padded, URL-safe base64 text of `b`: each group of three bytes gives
/// four characters; a final group of one or two bytes is padded with `=`.
pub open spec fn base64_url_of(b: Seq<u8>) -> Seq<char>
    decreases b.len(),
{
    if b.len() == 0 {
        Seq::empty()
    } else {
        let x0 = b[0] as int;
        let x1 = if b.len() > 1 { b[1] as int } else { 0 };
        let x2 = if b.len() > 2 { b[2] as int } else { 0 };
        let c0 = base64_url_char(x0 / 4);
        let c1 = base64_url_char((x0 % 4) * 16 + x1 / 16);
        let c2 = base64_url_char((x1 % 16) * 4 + x2 / 64);
        let c3 = base64_url_char(x2 % 64);
        if b.len() == 1 {
            seq![c0, c1, '=', '=']
        } else if b.len() == 2 {
            seq![c0, c1, c2, '=']
        } else {
            seq![c0, c1, c2, c3] + base64_url_of(b.subrange(3, b.len() as int))
        }
    }
}

/// Whether serde_json reads `text` as one JSON value.
pub uninterp spec fn json_valid(text: Seq<char>) -> bool;

/// A lowercase hexadecimal digit.
pub open spec fn hex_digit(d: u8) -> char {
    if d < 10 {
        (('0' as u8) + d) as char
    } else {
        (('a' as u8) + (d - 10)) as char
    }
}

/// Two lowercase hexadecimal digits per byte, high nibble first.
pub open spec fn hex_of(b: Seq<u8>) -> Seq<char>
    decreases b.len(),
{
    if b.len() == 0 {
        Seq::empty()
    } else {
        seq![hex_digit(b[0] / 16), hex_digit(b[0] % 16)] + hex_of(b.drop_first())
    }
}

/// A lowercase hexadecimal digit character.
pub open spec fn is_lower_hex(c: char) -> bool {
    ('0' <= c && c <= '9') || ('a' <= c && c <= 'f')
}

/// Hex text is twice as long as its bytes and made of lowercase digits.
pub proof fn lemma_hex_of_shape(b: Seq<u8>)
    ensures
        hex_of(b).len() == 2 * b.len(),
        forall|i: int| 0 <= i < hex_of(b).len() ==> is_lower_hex(#[trigger] hex_of(b)[i]),
    decreases b.len(),
{
    if b.len() > 0 {
        lemma_hex_of_shape(b.drop_first());
        let h = hex_of(b);
        let t = hex_of(b.drop_first());
        assert forall|i: int| 0 <= i < h.len() implies is_lower_hex(#[trigger] h[i]) by {
            if i >= 2 {
                assert(h[i] == t[i - 2]);
            } else {
                let d: u8 = if i == 0 { b[0] / 16 } else { b[0] % 16 };
                assert(d < 16);
                assert(h[i] == hex_digit(d));
            }
        }
    }
}

/// Decimal digits of a natural number, most significant first, no leading zero.
pub open spec fn nat_digits(n: nat) -> Seq<char>
    decreases n,
{
    if n < 10 {
        seq![(('0' as u8) + (n as u8)) as char]
    } else {
        nat_digits(n / 10) + seq![(('0' as u8) + ((n % 10) as u8)) as char]
    }
}

/// An integer written in decimal, with a leading `-` when negative.
pub open spec fn decimal_of(i: int) -> Seq<char> {
    if i < 0 {
        seq!['-'] + nat_digits((-i) as nat)
    } else {
        nat_digits(i as nat)
    }
}

/// An ASCII letter or digit.
pub open spec fn is_alphanumeric(c: char) -> bool {
    ('a' <= c && c <= 'z') || ('A' <= c && c <= 'Z') || ('0' <= c && c <= '9')
}

/// Relies on ring::hmac::sign with HMAC_SHA256: the tag depends on key and
/// message alone and is as long as a SHA-256 digest.
#[verifier::external_body]
pub(crate) fn hmac_sha256(key: &[u8], msg: &[u8]) -> (r: Vec<u8>)
    requires
        (key@.len() as int) < HMAC_INPUT_LIMIT as int,
        (msg@.len() as int) < HMAC_INPUT_LIMIT as int,
    ensures
        r@ == hmac_sha256_of(key@, msg@),
        r@.len() == 32,
{
    let key = ring::hmac::Key::new(ring::hmac::HMAC_SHA256, key);
    ring::hmac::sign(&key, msg).as_ref().to_vec()
}

/// Relies on hex::encode: two lowercase digits for each byte.
#[verifier::external_body]
pub(crate) fn hex_encode(b: &[u8]) -> (r: String)
    ensures
        r@ == hex_of(b@),
{
    hex::encode(b)
}

/// Relies on base64's URL_SAFE engine encoding with padding.
#[verifier::external_body]
pub(crate) fn base64_url_encode(b: &[u8]) -> (r: String)
    ensures
        r@ == base64_url_of(b@),
{
    base64::engine::general_purpose::URL_SAFE.encode(b)
}

/// Relies on base64's URL_SAFE engine decoding, which requires canonical
/// padding and no trailing bits: it accepts exactly the encodings of byte
/// strings and gives back the bytes that were encoded.
#[verifier::external_body]
pub(crate) fn base64_url_decode(s: &str) -> (r: Option<Vec<u8>>)
    ensures
        r matches Some(b) ==> base64_url_of(b@) == s@,
        r is None ==> forall|b: Seq<u8>| #[trigger] base64_url_of(b) != s@,
        r matches Some(d) ==> forall|b: Seq<u8>| #[trigger] base64_url_of(b) == s@ ==> b == d@,
{
    base64::engine::general_purpose::URL_SAFE.decode(s.as_bytes()).ok()
}

/// Relies on String::from_utf8: accepts exactly valid UTF-8 and decodes it.
#[verifier::external_body]
pub(crate) fn utf8_to_string(b: &[u8]) -> (r: Option<String>)
    ensures
        r is Some <==> valid_utf8(b@),
        r matches Some(s) ==> s@ == decode_utf8(b@),
{
    String::from_utf8(b.to_vec()).ok()
}

/// The decimal digit `d` as text.
fn digit_text(d: u64) -> (r: &'static str)
    requires
        d < 10,
    ensures
        r@ == seq![(('0' as u8) + (d as u8)) as char],
{
    proof {
        reveal_strlit("0");
        reveal_strlit("1");
        reveal_strlit("2");
        reveal_strlit("3");
        reveal_strlit("4");
        reveal_strlit("5");
        reveal_strlit("6");
        reveal_strlit("7");
        reveal_strlit("8");
        reveal_strlit("9");
    }
    match d {
        0 => "0",
        1 => "1",
        2 => "2",
        3 => "3",
        4 => "4",
        5 => "5",
        6 => "6",
        7 => "7",
        8 => "8",
        _ => "9",
    }
}

/// A natural number written in decimal.
pub fn u64_to_string(n: u64) -> (r: String)
    ensures
        r@ == nat_digits(n as nat),
    decreases n,
{
    if n < 10 {
        digit_text(n).to_owned()
    } else {
        let mut s = u64_to_string(n / 10);
        s.append(digit_text(n % 10));
        s
    }
}

/// An integer written in decimal, with a leading `-` when negative.
pub fn i64_to_string(i: i64) -> (r: String)
    ensures
        r@ == decimal_of(i as int),
{
    if i < 0 {
        let magnitude: u64 = if i == i64::MIN {
            0x8000_0000_0000_0000
        } else {
            (-i) as u64
        };
        let mut s = "-".to_owned();
        s.append(u64_to_string(magnitude).as_str());
        proof {
            reveal_strlit("-");
        }
        s
    } else {
        u64_to_string(i as u64)
    }
}

/// Relies on serde_json::from_str into a serde_json::Value: whether it
/// succeeds depends on the text alone.
#[verifier::external_body]
pub(crate) fn is_json(text: &str) -> (r: bool)
    ensures
        r == json_valid(text@),
{
    serde_json::from_str::<serde_json::Value>(text).is_ok()
}

/// Relies on rand's Alphanumeric string sampling with the thread-local
/// generator: `len` characters, each an ASCII letter or digit.
#[verifier::external_body]
pub(crate) fn random_alphanumeric(len: usize) -> (r: String)
    ensures
        r@.len() == len,
        forall|i: int| 0 <= i < r@.len() ==> is_alphanumeric(#[trigger] r@[i]),
{
    rand::distributions::Alphanumeric.sample_string(&mut rand::thread_rng(), len)
}

/// Relies on std::time::SystemTime: whole seconds since the Unix epoch, or
/// `None` when the clock stands before it.
#[verifier::external_body]
pub(crate) fn seconds_since_epoch() -> (r: Option<u64>) {
    std::time::SystemTime::now().duration_since(std::time::UNIX_EPOCH).ok().map(|d| d.as_secs())
}

} // verus!
