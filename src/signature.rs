//! Authentication of the bodies that the tracking provider posts to the
//! webhook: the provider signs each body with SHA-256 over the body, a slash
//! and the shared secret, and sends the lowercase hex digest in a header.
#![allow(non_camel_case_types)]
use vstd::prelude::*;
use vstd::utf8::*;
use sha2::Digest;

verus! {

broadcast use {encode_utf8_valid_utf8, encode_utf8_decode_utf8, decode_utf8_encode_utf8};

/// Why a webhook request was turned away.
#[derive(Debug, Clone, Copy, PartialEq, Eq, Structural)]
pub enum webhook_error {
    /// The request carries no signature header.
    MissingHeaderSign,
    /// The signature header is not UTF-8 text.
    InvalidHeaderSign,
    /// The signature does not match the body and the secret.
    SignFailedNoMatch,
    /// The body is not UTF-8 text.
    FailedToGetRawBody,
}

/// The SHA-256 digest of `data`.
pub uninterp spec fn sha256_of(data: Seq<u8>) -> Seq<u8>;

/// Relies on sha2's `Sha256::digest`: the SHA-256 digest of the bytes, which
/// is 32 bytes long.
#[verifier::external_body]
fn sha256_digest(data: &[u8]) -> (r: Vec<u8>)
    ensures
        r@ == sha256_of(data@),
        r@.len() == 32,
{
    sha2::Sha256::digest(data).to_vec()
}

/// The lowercase hex digit of a value below 16.
pub open spec fn hex_digit(n: u8) -> char {
    if n < 10 {
        ((n + 48) as u8) as char
    } else {
        ((n + 87) as u8) as char
    }
}

/// Lowercase hex text of `b`: two digits per byte, the high half first.
pub open spec fn hex_of(b: Seq<u8>) -> Seq<char>
    decreases b.len(),
{
    if b.len() == 0 {
        Seq::empty()
    } else {
        seq![hex_digit((b[0] / 16) as u8), hex_digit((b[0] % 16) as u8)] + hex_of(b.drop_first())
    }
}

/// Relies on hex's `encode`: lowercase hex text, two digits per byte, the
/// high half first. The text must fit in a `String`, which the bound
/// ensures.
#[verifier::external_body]
fn hex_encode(b: &[u8]) -> (r: String)
    requires
        b@.len() <= usize::MAX / 4,
    ensures
        r@ == hex_of(b@),
{
    hex::encode(b)
}

/// Relies on std's `str::from_utf8`: it accepts exactly the valid UTF-8
/// sequences and gives the text that they encode.
#[verifier::external_body]
pub(crate) fn utf8_text(bytes: &[u8]) -> (r: Option<String>)
    ensures
        r is Some <==> valid_utf8(bytes@),
        r matches Some(s) ==> s@ == decode_utf8(bytes@),
{
    match std::str::from_utf8(bytes) {
        Ok(s) => Some(s.to_string()),
        Err(_) => None,
    }
}

/// The bytes that the provider signs: the body, a slash, the secret.
pub open spec fn signed_bytes(body: Seq<u8>, secret: Seq<u8>) -> Seq<u8> {
    body + seq![47u8] + secret
}

/// The header value that authenticates `body` under `secret`.
pub open spec fn expected_signature(body: Seq<u8>, secret: Seq<u8>) -> Seq<u8> {
    encode_utf8(hex_of(sha256_of(signed_bytes(body, secret))))
}

/// What checking a request with `body` and signature header `header`
/// (absent: `None`) under `secret` gives: the body as text, or the reason
/// for turning the request away.
pub open spec fn authentication(body: Seq<u8>, header: Option<Seq<u8>>, secret: Seq<u8>) -> Result<Seq<char>, webhook_error> {
    match header {
        None => Err(webhook_error::MissingHeaderSign),
        Some(h) => if !valid_utf8(h) {
            Err(webhook_error::InvalidHeaderSign)
        } else if !valid_utf8(body) {
            Err(webhook_error::FailedToGetRawBody)
        } else if h != expected_signature(body, secret) {
            Err(webhook_error::SignFailedNoMatch)
        } else {
            Ok(decode_utf8(body))
        },
    }
}

pub open spec fn header_bytes(header: Option<&[u8]>) -> Option<Seq<u8>> {
    match header {
        Some(h) => Some(h@),
        None => None,
    }
}

/// Whether `a` and `b` hold the same bytes. The time taken depends on the
/// lengths alone, not on where the first difference lies.
pub fn constant_time_eq(a: &[u8], b: &[u8]) -> (r: bool)
    ensures
        r == (a@ == b@),
{
    if a.len() != b.len() {
        return false;
    }
    let mut diff: u8 = 0;
    let n = a.len();
    for i in 0..n
        invariant
            n == a@.len(),
            n == b@.len(),
            (diff == 0) == (forall|j: int| 0 <= j < i ==> a@[j] == b@[j]),
    {
        let x = a[i];
        let y = b[i];
        let d = diff;
        assert((d | (x ^ y)) == 0 <==> (d == 0 && x == y)) by (bit_vector);
        diff = d | (x ^ y);
    }
    assert((diff == 0) == (a@ =~= b@));
    diff == 0
}

/// Whether the signature header `sign` is the hex text of `digest`.
pub fn signature_matches(sign: &[u8], digest: &[u8]) -> (r: bool)
    requires
        digest@.len() <= usize::MAX / 4,
    ensures
        r == (sign@ == encode_utf8(hex_of(digest@))),
{
    let expected = hex_encode(digest);
    constant_time_eq(sign, expected.as_str().as_bytes())
}

/// Appends the bytes of `b` to `v`.
fn append_bytes(v: &mut Vec<u8>, b: &[u8])
    ensures
        final(v)@ == old(v)@ + b@,
{
    let n = b.len();
    for i in 0..n
        invariant
            n == b@.len(),
            v@ == old(v)@ + b@.subrange(0, i as int),
    {
        v.push(b[i]);
        assert(b@.subrange(0, i + 1) == b@.subrange(0, i as int).push(b@[i as int]));
    }
    assert(b@.subrange(0, n as int) == b@);
}

/// The lowercase hex text of the SHA-256 digest of `data`.
pub fn hex_sha256(data: &[u8]) -> (r: String)
    ensures
        r@ == hex_of(sha256_of(data@)),
{
    let digest = sha256_digest(data);
    hex_encode(digest.as_slice())
}

/// The bytes that the provider signs for `body` under `secret`.
pub fn signed_message(body: &[u8], secret: &str) -> (r: Vec<u8>)
    ensures
        r@ == signed_bytes(body@, encode_utf8(secret@)),
{
    let mut m: Vec<u8> = Vec::new();
    append_bytes(&mut m, body);
    m.push(47u8);
    append_bytes(&mut m, secret.as_bytes());
    m
}

/// Checks that a webhook request comes from the provider: `sign_header` must
/// be present, be UTF-8 text, and equal the lowercase hex SHA-256 digest of
/// the body, a slash and `secret`; the body must be UTF-8 text, which is
/// returned.
pub fn verify_origin_body(body: &[u8], sign_header: Option<&[u8]>, secret: &str) -> (r: Result<String, webhook_error>)
    ensures
        match r {
            Ok(text) => authentication(body@, header_bytes(sign_header), encode_utf8(secret@)) == Ok::<Seq<char>, webhook_error>(text@),
            Err(e) => authentication(body@, header_bytes(sign_header), encode_utf8(secret@)) == Err::<Seq<char>, webhook_error>(e),
        },
{
    let sign = match sign_header {
        Some(h) => h,
        None => return Err(webhook_error::MissingHeaderSign),
    };
    if utf8_text(sign).is_none() {
        return Err(webhook_error::InvalidHeaderSign);
    }
    let text = match utf8_text(body) {
        Some(t) => t,
        None => return Err(webhook_error::FailedToGetRawBody),
    };
    let digest = sha256_digest(signed_message(body, secret).as_slice());
    if !signature_matches(sign, digest.as_slice()) {
        return Err(webhook_error::SignFailedNoMatch);
    }
    Ok(text)
}

/// A body signed with the secret is accepted, whatever the body's text, and
/// the text comes back.
pub proof fn lemma_signed_body_accepted(body: Seq<u8>, secret: Seq<u8>)
    requires
        valid_utf8(body),
    ensures
        authentication(body, Some(expected_signature(body, secret)), secret) == Ok::<Seq<char>, webhook_error>(decode_utf8(body)),
{
}

/// Any signature header other than the expected one is turned away.
pub proof fn lemma_other_signature_rejected(body: Seq<u8>, header: Seq<u8>, secret: Seq<u8>)
    requires
        header != expected_signature(body, secret),
    ensures
        authentication(body, Some(header), secret) is Err,
{
}

proof fn lemma_hex_len(b: Seq<u8>)
    ensures
        hex_of(b).len() == 2 * b.len(),
    decreases b.len(),
{
    if b.len() > 0 {
        lemma_hex_len(b.drop_first());
    }
}

proof fn lemma_hex_digit_injective(x: u8, y: u8)
    requires
        x < 16,
        y < 16,
        hex_digit(x) == hex_digit(y),
    ensures
        x == y,
{
    let cx = hex_digit(x) as u32;
    let cy = hex_digit(y) as u32;
    assert(cx == cy);
}

/// Different bytes never have the same hex text.
pub proof fn lemma_hex_injective(x: Seq<u8>, y: Seq<u8>)
    requires
        hex_of(x) == hex_of(y),
    ensures
        x == y,
    decreases x.len(),
{
    lemma_hex_len(x);
    lemma_hex_len(y);
    if x.len() > 0 {
        let hx = hex_of(x);
        let hy = hex_of(y);
        assert(hx[0] == hy[0] && hx[1] == hy[1]);
        let (a, b) = (x[0], y[0]);
        lemma_hex_digit_injective((a / 16) as u8, (b / 16) as u8);
        lemma_hex_digit_injective((a % 16) as u8, (b % 16) as u8);
        assert(a == b) by (nonlinear_arith)
            requires
                a / 16 == b / 16,
                a % 16 == b % 16,
        {}
        assert(hx.skip(2) == hex_of(x.drop_first()));
        assert(hy.skip(2) == hex_of(y.drop_first()));
        lemma_hex_injective(x.drop_first(), y.drop_first());
        assert(x == seq![a] + x.drop_first());
        assert(y == seq![b] + y.drop_first());
    } else {
        assert(x =~= y);
    }
}

/// A header that authenticates one body authenticates another only where
/// the two signed messages have the same SHA-256 digest: changing a body
/// without a digest collision makes its signature fail.
pub proof fn lemma_changed_body_needs_collision(body: Seq<u8>, other: Seq<u8>, secret: Seq<u8>)
    requires
        authentication(other, Some(expected_signature(body, secret)), secret) is Ok,
    ensures
        sha256_of(signed_bytes(other, secret)) == sha256_of(signed_bytes(body, secret)),
{
    let h1 = hex_of(sha256_of(signed_bytes(body, secret)));
    let h2 = hex_of(sha256_of(signed_bytes(other, secret)));
    assert(decode_utf8(encode_utf8(h1)) == h1);
    assert(decode_utf8(encode_utf8(h2)) == h2);
    lemma_hex_injective(sha256_of(signed_bytes(other, secret)), sha256_of(signed_bytes(body, secret)));
}

} // verus!
