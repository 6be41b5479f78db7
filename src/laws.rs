//! Properties that relate several operations of the connector.
use vstd::prelude::*;
use vstd::utf8::*;
use crate::external::{base64_url_char, base64_url_of, decimal_of, is_lower_hex, nat_digits, HMAC_INPUT_LIMIT};
use crate::signing::{hex_tag, is_hex_tag, signature_of, string_to_sign};
use crate::webhooks::{decodable, header_value, verification_outcome, webhook_message, webhook_url};

verus! {

/// Equal surroundings cancel: `a + x + b == a + y + b` only when `x == y`.
pub proof fn lemma_concat_cancel(a: Seq<char>, x: Seq<char>, y: Seq<char>, b: Seq<char>)
    requires
        a + x + b == a + y + b,
    ensures
        x == y,
{
    assert((a + x + b).len() == a.len() + x.len() + b.len());
    assert((a + y + b).len() == a.len() + y.len() + b.len());
    assert(x.len() == y.len());
    assert forall|i: int| 0 <= i < x.len() implies x[i] == y[i] by {
        assert(x[i] == (a + x + b)[a.len() + i]);
        assert(y[i] == (a + y + b)[a.len() + i]);
    }
    assert(x =~= y);
}

proof fn lemma_nat_digits_shape(n: nat)
    ensures
        nat_digits(n).len() >= 1,
        n < 10 <==> nat_digits(n).len() == 1,
        forall|i: int| 0 <= i < nat_digits(n).len() ==> '0' <= #[trigger] nat_digits(n)[i] <= '9',
    decreases n,
{
    if n >= 10 {
        lemma_nat_digits_shape(n / 10);
        let p = nat_digits(n / 10);
        assert forall|i: int| 0 <= i < nat_digits(n).len() implies '0' <= #[trigger] nat_digits(n)[i] <= '9' by {
            if i < p.len() {
                assert(nat_digits(n)[i] == p[i]);
            }
        }
    }
}

/// Distinct natural numbers have distinct decimal digits.
pub proof fn lemma_nat_digits_injective(n: nat, m: nat)
    requires
        nat_digits(n) == nat_digits(m),
    ensures
        n == m,
    decreases n,
{
    lemma_nat_digits_shape(n);
    lemma_nat_digits_shape(m);
    if n >= 10 && m >= 10 {
        let dn = nat_digits(n);
        let last = dn.len() - 1;
        assert(dn[last] == (('0' as u8) + ((n % 10) as u8)) as char);
        assert(nat_digits(m)[last] == (('0' as u8) + ((m % 10) as u8)) as char);
        assert(n % 10 == m % 10);
        assert(nat_digits(n / 10) =~= dn.subrange(0, last));
        assert(nat_digits(m / 10) =~= nat_digits(m).subrange(0, last));
        lemma_nat_digits_injective(n / 10, m / 10);
        assert(n == 10 * (n / 10) + n % 10);
        assert(m == 10 * (m / 10) + m % 10);
    } else if n < 10 && m < 10 {
        let cn = (('0' as u8) + (n as u8)) as char;
        let cm = (('0' as u8) + (m as u8)) as char;
        assert(nat_digits(n)[0] == cn);
        assert(nat_digits(m)[0] == cm);
        assert(cn as u32 == 48 + n);
        assert(cm as u32 == 48 + m);
    }
}

/// Distinct integers have distinct decimal texts.
pub proof fn lemma_decimal_injective(i: int, j: int)
    requires
        decimal_of(i) == decimal_of(j),
    ensures
        i == j,
{
    lemma_nat_digits_shape((-i) as nat);
    lemma_nat_digits_shape((-j) as nat);
    lemma_nat_digits_shape(i as nat);
    lemma_nat_digits_shape(j as nat);
    if i < 0 && j < 0 {
        assert(nat_digits((-i) as nat) =~= decimal_of(i).drop_first());
        assert(nat_digits((-j) as nat) =~= decimal_of(j).drop_first());
        lemma_nat_digits_injective((-i) as nat, (-j) as nat);
    } else if i >= 0 && j >= 0 {
        lemma_nat_digits_injective(i as nat, j as nat);
    } else if i < 0 {
        assert(decimal_of(i)[0] == '-');
        assert('0' <= decimal_of(j)[0] <= '9');
    } else {
        assert(decimal_of(j)[0] == '-');
        assert('0' <= decimal_of(i)[0] <= '9');
    }
}

pub open spec fn differs(a: Seq<char>, b: Seq<char>) -> int {
    if a == b {
        0
    } else {
        1
    }
}

/// Changing exactly one component of a signed request (method, path, salt,
/// timestamp, access key, secret key or body) changes the text that is
/// signed. That the HMAC of distinct texts differs is a property of the hash
/// that no proof here reaches.
pub proof fn lemma_one_change_alters_signed_text(
    method: Seq<char>,
    path: Seq<char>,
    salt: Seq<char>,
    timestamp: int,
    access_key: Seq<char>,
    secret_key: Seq<char>,
    body: Seq<char>,
    method2: Seq<char>,
    path2: Seq<char>,
    salt2: Seq<char>,
    timestamp2: int,
    access_key2: Seq<char>,
    secret_key2: Seq<char>,
    body2: Seq<char>,
)
    requires
        differs(method, method2) + differs(path, path2) + differs(salt, salt2) + (if timestamp == timestamp2 {
            0int
        } else {
            1int
        }) + differs(access_key, access_key2) + differs(secret_key, secret_key2) + differs(body, body2) == 1,
    ensures
        string_to_sign(method, path, salt, decimal_of(timestamp), access_key, secret_key, body) != string_to_sign(
            method2,
            path2,
            salt2,
            decimal_of(timestamp2),
            access_key2,
            secret_key2,
            body2,
        ),
{
    let t = decimal_of(timestamp);
    let t2 = decimal_of(timestamp2);
    let s1 = string_to_sign(method, path, salt, t, access_key, secret_key, body);
    let s2 = string_to_sign(method2, path2, salt2, t2, access_key2, secret_key2, body2);
    if s1 == s2 {
        let e = Seq::<char>::empty();
        if method != method2 {
            assert(s1 =~= e + method + (path + salt + t + access_key + secret_key + body));
            assert(s2 =~= e + method2 + (path + salt + t + access_key + secret_key + body));
            lemma_concat_cancel(e, method, method2, path + salt + t + access_key + secret_key + body);
        } else if path != path2 {
            assert(s1 =~= method + path + (salt + t + access_key + secret_key + body));
            assert(s2 =~= method + path2 + (salt + t + access_key + secret_key + body));
            lemma_concat_cancel(method, path, path2, salt + t + access_key + secret_key + body);
        } else if salt != salt2 {
            assert(s1 =~= (method + path) + salt + (t + access_key + secret_key + body));
            assert(s2 =~= (method + path) + salt2 + (t + access_key + secret_key + body));
            lemma_concat_cancel(method + path, salt, salt2, t + access_key + secret_key + body);
        } else if timestamp != timestamp2 {
            assert(s1 =~= (method + path + salt) + t + (access_key + secret_key + body));
            assert(s2 =~= (method + path + salt) + t2 + (access_key + secret_key + body));
            lemma_concat_cancel(method + path + salt, t, t2, access_key + secret_key + body);
            lemma_decimal_injective(timestamp, timestamp2);
        } else if access_key != access_key2 {
            assert(s1 =~= (method + path + salt + t) + access_key + (secret_key + body));
            assert(s2 =~= (method + path + salt + t) + access_key2 + (secret_key + body));
            lemma_concat_cancel(method + path + salt + t, access_key, access_key2, secret_key + body);
        } else if secret_key != secret_key2 {
            assert(s1 =~= (method + path + salt + t + access_key) + secret_key + body);
            assert(s2 =~= (method + path + salt + t + access_key) + secret_key2 + body);
            lemma_concat_cancel(method + path + salt + t + access_key, secret_key, secret_key2, body);
        } else {
            assert(s1 =~= (method + path + salt + t + access_key + secret_key) + body + e);
            assert(s2 =~= (method + path + salt + t + access_key + secret_key) + body2 + e);
            lemma_concat_cancel(method + path + salt + t + access_key + secret_key, body, body2, e);
        }
    }
}

/// The text the signing scheme signs for a webhook address, with no method
/// in front, is the text webhook verification rebuilds.
pub proof fn lemma_webhook_text_is_signed_text(
    host: Seq<char>,
    merchant_id: Seq<char>,
    salt: Seq<char>,
    timestamp: int,
    access_key: Seq<char>,
    secret_key: Seq<char>,
    body: Seq<char>,
)
    ensures
        string_to_sign(
            Seq::empty(),
            webhook_url(host, merchant_id),
            salt,
            decimal_of(timestamp),
            access_key,
            secret_key,
            body,
        ) == webhook_message(host, merchant_id, salt, decimal_of(timestamp), access_key, secret_key, body),
{
    assert(string_to_sign(
        Seq::empty(),
        webhook_url(host, merchant_id),
        salt,
        decimal_of(timestamp),
        access_key,
        secret_key,
        body,
    ) =~= webhook_message(host, merchant_id, salt, decimal_of(timestamp), access_key, secret_key, body));
}

/// Webhook round trip. A webhook whose `signature` header is what the
/// signing scheme gives for the webhook address, salt, timestamp, keys and
/// body, and whose `host`, `salt` and `timestamp` headers carry the same
/// values, passes verification with those keys. With any other text in the
/// `signature` header, and the rest unchanged, it does not pass.
pub proof fn lemma_webhook_round_trip(
    headers: Seq<(Seq<char>, Seq<char>)>,
    tampered: Seq<(Seq<char>, Seq<char>)>,
    host: Seq<char>,
    merchant_id: Seq<char>,
    salt: Seq<char>,
    timestamp: int,
    access_key: Seq<char>,
    secret_key: Seq<char>,
    body: Seq<char>,
    other_signature: Seq<char>,
)
    requires
        header_value(headers, "host"@) == Some(host),
        header_value(headers, "salt"@) == Some(salt),
        header_value(headers, "timestamp"@) == Some(decimal_of(timestamp)),
        header_value(headers, "signature"@) == Some(
            signature_of(access_key, secret_key, Seq::empty(), webhook_url(host, merchant_id), body, timestamp, salt),
        ),
        header_value(tampered, "host"@) == Some(host),
        header_value(tampered, "salt"@) == Some(salt),
        header_value(tampered, "timestamp"@) == Some(decimal_of(timestamp)),
        header_value(tampered, "signature"@) == Some(other_signature),
        other_signature != signature_of(
            access_key,
            secret_key,
            Seq::empty(),
            webhook_url(host, merchant_id),
            body,
            timestamp,
            salt,
        ),
        encode_utf8(webhook_message(host, merchant_id, salt, decimal_of(timestamp), access_key, secret_key, body)).len()
            < HMAC_INPUT_LIMIT as int,
        encode_utf8(secret_key).len() < HMAC_INPUT_LIMIT as int,
    ensures
        verification_outcome(headers, encode_utf8(body), merchant_id, access_key, secret_key) == Some(true),
        verification_outcome(tampered, encode_utf8(body), merchant_id, access_key, secret_key) != Some(true),
{
    lemma_webhook_text_is_signed_text(host, merchant_id, salt, timestamp, access_key, secret_key, body);
    encode_utf8_decode_utf8(body);
    encode_utf8_valid_utf8(body);
    let message = webhook_message(host, merchant_id, salt, decimal_of(timestamp), access_key, secret_key, body);
    let expected = encode_utf8(hex_tag(secret_key, message));
    assert(base64_url_of(expected) == signature_of(
        access_key,
        secret_key,
        Seq::empty(),
        webhook_url(host, merchant_id),
        body,
        timestamp,
        salt,
    ));
}

/// No character of the base64 alphabet is the padding character.
pub proof fn lemma_base64_char_not_pad(v: int)
    requires
        0 <= v < 64,
    ensures
        base64_url_char(v) != '=',
{
}

/// Base64 text has four characters for each started group of three bytes.
pub proof fn lemma_base64_len(b: Seq<u8>)
    ensures
        base64_url_of(b).len() == 4 * ((b.len() + 2) / 3),
    decreases b.len(),
{
    if b.len() > 2 {
        lemma_base64_len(b.subrange(3, b.len() as int));
    }
}

/// The padding at the end of base64 text: two `=` after a final group of
/// one byte, one after a group of two, none after a full group.
pub proof fn lemma_base64_tail(b: Seq<u8>)
    requires
        b.len() > 0,
    ensures
        ({
            let e = base64_url_of(b);
            let n = e.len() as int;
            &&& n >= 4
            &&& b.len() % 3 == 1 ==> e[n - 1] == '=' && e[n - 2] == '='
            &&& b.len() % 3 == 2 ==> e[n - 1] == '=' && e[n - 2] != '='
            &&& b.len() % 3 == 0 ==> e[n - 1] != '=' && e[n - 2] != '='
        }),
    decreases b.len(),
{
    let x0 = b[0] as int;
    let x1 = if b.len() > 1 { b[1] as int } else { 0 };
    let x2 = if b.len() > 2 { b[2] as int } else { 0 };
    lemma_base64_char_not_pad((x1 % 16) * 4 + x2 / 64);
    lemma_base64_char_not_pad(x2 % 64);
    if b.len() > 3 {
        let rest = b.subrange(3, b.len() as int);
        lemma_base64_tail(rest);
        let e = base64_url_of(b);
        let t = base64_url_of(rest);
        assert(e.len() == 4 + t.len());
        assert(e[e.len() - 1] == t[t.len() - 1]);
        assert(e[e.len() - 2] == t[t.len() - 2]);
    }
}

/// Base64 text of a byte string whose length leaves one over a multiple of
/// three, with its final `=` replaced by any other character, is the base64
/// text of no byte string.
pub proof fn lemma_changed_padding_does_not_decode(b: Seq<u8>, changed: Seq<char>)
    requires
        b.len() % 3 == 1,
        changed.len() == base64_url_of(b).len(),
        changed.subrange(0, changed.len() - 1) == base64_url_of(b).subrange(0, changed.len() - 1),
        changed[changed.len() - 1] != base64_url_of(b)[changed.len() - 1],
    ensures
        !decodable(changed),
{
    lemma_base64_tail(b);
    let e = base64_url_of(b);
    let n = e.len() as int;
    assert(changed[n - 2] == changed.subrange(0, n - 1)[n - 2]);
    assert(changed[n - 2] == '=');
    assert(changed[n - 1] != '=');
    if decodable(changed) {
        let b2 = choose|b2: Seq<u8>| base64_url_of(b2) == changed;
        assert(base64_url_of(b2) == changed);
        if b2.len() == 0 {
            assert(base64_url_of(b2).len() == 0);
        } else {
            lemma_base64_tail(b2);
        }
    }
}

/// A webhook signature is 88 characters of base64 ending in `==`: the
/// base64 of 64 hex digits.
pub proof fn lemma_signature_shape(h: Seq<char>)
    requires
        is_hex_tag(h),
    ensures
        encode_utf8(h).len() == 64,
        base64_url_of(encode_utf8(h)).len() == 88,
        base64_url_of(encode_utf8(h))[86] == '=',
        base64_url_of(encode_utf8(h))[87] == '=',
{
    assert(is_ascii_chars(h)) by {
        assert forall|i: int| 0 <= i < h.len() implies '\0' <= #[trigger] h[i] <= '\u{7f}' by {
            assert(is_lower_hex(h[i]));
        }
    }
    is_ascii_chars_encode_utf8(h);
    lemma_base64_len(encode_utf8(h));
    lemma_base64_tail(encode_utf8(h));
}

/// A webhook whose `signature` header is the one the signing scheme gives,
/// but with its last character replaced, fails verification outright: the
/// changed text is no base64, so no verdict is reached.
pub proof fn lemma_tampered_padding_rejected(
    tampered: Seq<(Seq<char>, Seq<char>)>,
    host: Seq<char>,
    merchant_id: Seq<char>,
    salt: Seq<char>,
    timestamp: int,
    access_key: Seq<char>,
    secret_key: Seq<char>,
    body: Seq<char>,
    other_signature: Seq<char>,
)
    requires
        is_hex_tag(
            hex_tag(secret_key, webhook_message(host, merchant_id, salt, decimal_of(timestamp), access_key, secret_key, body)),
        ),
        header_value(tampered, "signature"@) == Some(other_signature),
        ({
            let sig = signature_of(access_key, secret_key, Seq::empty(), webhook_url(host, merchant_id), body, timestamp, salt);
            &&& other_signature.len() == sig.len()
            &&& other_signature.subrange(0, sig.len() - 1) == sig.subrange(0, sig.len() - 1)
            &&& other_signature[sig.len() - 1] != sig[sig.len() - 1]
        }),
    ensures
        verification_outcome(tampered, encode_utf8(body), merchant_id, access_key, secret_key) is None,
{
    lemma_webhook_text_is_signed_text(host, merchant_id, salt, timestamp, access_key, secret_key, body);
    let h = hex_tag(secret_key, webhook_message(host, merchant_id, salt, decimal_of(timestamp), access_key, secret_key, body));
    lemma_signature_shape(h);
    lemma_changed_padding_does_not_decode(encode_utf8(h), other_signature);
}

} // verus!
