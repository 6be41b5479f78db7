//! The request-signing scheme: HMAC-SHA256 over a fixed concatenation,
//! written as hex and then as URL-safe base64.
use vstd::prelude::*;
use vstd::utf8::*;
use vstd::string::StringExecFns;
use crate::external::{is_lower_hex, lemma_hex_of_shape, base64_url_encode, base64_url_of, decimal_of, hex_encode, hex_of, hmac_sha256, hmac_sha256_of, i64_to_string, HMAC_INPUT_LIMIT};
use crate::secret::Secret;

verus! {

/// The access and secret keys of a Rapyd account.
pub struct RapydAuthType {
    pub access_key: Secret,
    pub secret_key: Secret,
}

impl RapydAuthType {
    pub fn new(access_key: String, secret_key: String) -> (r: RapydAuthType)
        ensures
            r.access_key@ == access_key@,
            r.secret_key@ == secret_key@,
    {
        RapydAuthType { access_key: Secret::new(access_key), secret_key: Secret::new(secret_key) }
    }
}

/// The connector. It holds no state: every operation is a pure step from its
/// inputs, apart from the fresh salt and timestamp that outbound requests draw.
pub struct Rapyd;

/// Character budget of the signed text and of the secret key, so that their
/// UTF-8 encodings stay within what HMAC-SHA256 accepts.
pub open spec fn sign_input_limit() -> int {
    HMAC_INPUT_LIMIT as int / 4
}

/// The text that is signed: method, path, salt, timestamp, access key, secret
/// key and body, joined with no separator.
pub open spec fn string_to_sign(
    method: Seq<char>,
    path: Seq<char>,
    salt: Seq<char>,
    timestamp: Seq<char>,
    access_key: Seq<char>,
    secret_key: Seq<char>,
    body: Seq<char>,
) -> Seq<char> {
    method + path + salt + timestamp + access_key + secret_key + body
}

/// The HMAC-SHA256 of `text` under `secret_key`, in lowercase hex.
pub open spec fn hex_tag(secret_key: Seq<char>, text: Seq<char>) -> Seq<char> {
    hex_of(hmac_sha256_of(encode_utf8(secret_key), encode_utf8(text)))
}

/// The shape of an HMAC-SHA256 tag in hex: 64 lowercase hex digits.
pub open spec fn is_hex_tag(h: Seq<char>) -> bool {
    &&& h.len() == 64
    &&& forall|i: int| 0 <= i < h.len() ==> is_lower_hex(#[trigger] h[i])
}

/// The signature of an outbound request.
pub open spec fn signature_of(
    access_key: Seq<char>,
    secret_key: Seq<char>,
    method: Seq<char>,
    path: Seq<char>,
    body: Seq<char>,
    timestamp: int,
    salt: Seq<char>,
) -> Seq<char> {
    let text = string_to_sign(method, path, salt, decimal_of(timestamp), access_key, secret_key, body);
    base64_url_of(encode_utf8(hex_tag(secret_key, text)))
}

/// What a signed operation needs of its inputs: the signed text and the key
/// fit what HMAC-SHA256 accepts.
pub open spec fn signable(
    access_key: Seq<char>,
    secret_key: Seq<char>,
    method: Seq<char>,
    path: Seq<char>,
    body: Seq<char>,
    timestamp: int,
    salt: Seq<char>,
) -> bool {
    &&& string_to_sign(method, path, salt, decimal_of(timestamp), access_key, secret_key, body).len()
        < sign_input_limit()
    &&& secret_key.len() < sign_input_limit()
}

/// UTF-8 spends at most four bytes on a character.
pub proof fn lemma_utf8_len_bound(s: Seq<char>)
    ensures
        encode_utf8(s).len() <= 4 * s.len(),
    decreases s.len(),
{
    if s.len() > 0 {
        lemma_utf8_len_bound(s.drop_first());
    }
}

/// HMAC-SHA256 of `text` under `key`, as lowercase hex.
pub fn hmac_hex(key: &str, text: &str) -> (r: String)
    requires
        encode_utf8(key@).len() < HMAC_INPUT_LIMIT as int,
        encode_utf8(text@).len() < HMAC_INPUT_LIMIT as int,
    ensures
        r@ == hex_tag(key@, text@),
        is_hex_tag(r@),
{
    let tag = hmac_sha256(key.as_bytes(), text.as_bytes());
    proof {
        lemma_hex_of_shape(tag@);
    }
    hex_encode(tag.as_slice())
}

impl Rapyd {
    pub fn new() -> (r: Rapyd) {
        Rapyd
    }

    /// Signs an outbound request: HMAC-SHA256 keyed by the secret key over
    /// the string to sign, as 64 lowercase hex digits, then as URL-safe
    /// base64 (88 characters, ending in `==`). Identical inputs give the
    /// identical signature.
    pub fn generate_signature(
        &self,
        auth: &RapydAuthType,
        http_method: &str,
        url_path: &str,
        body: &str,
        timestamp: &i64,
        salt: &str,
    ) -> (r: Result<String, crate::types::ConnectorError>)
        requires
            signable(auth.access_key@, auth.secret_key@, http_method@, url_path@, body@, *timestamp as int, salt@),
        ensures
            r matches Ok(s) && s@ == signature_of(
                auth.access_key@,
                auth.secret_key@,
                http_method@,
                url_path@,
                body@,
                *timestamp as int,
                salt@,
            ),
            r matches Ok(s) && s@.len() == 88 && s@[86] == '=' && s@[87] == '=',
            is_hex_tag(
                hex_tag(
                    auth.secret_key@,
                    string_to_sign(
                        http_method@,
                        url_path@,
                        salt@,
                        decimal_of(*timestamp as int),
                        auth.access_key@,
                        auth.secret_key@,
                        body@,
                    ),
                ),
            ),
    {
        let ts = i64_to_string(*timestamp);
        let mut to_sign = http_method.to_owned();
        to_sign.append(url_path);
        to_sign.append(salt);
        to_sign.append(ts.as_str());
        to_sign.append(auth.access_key.peek());
        to_sign.append(auth.secret_key.peek());
        to_sign.append(body);
        proof {
            lemma_utf8_len_bound(auth.secret_key@);
            lemma_utf8_len_bound(to_sign@);
        }
        let hex = hmac_hex(auth.secret_key.peek(), to_sign.as_str());
        proof {
            crate::laws::lemma_signature_shape(hex@);
        }
        Ok(base64_url_encode(hex.as_str().as_bytes()))
    }
}

} // verus!
