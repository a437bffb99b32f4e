//! The WebSocket opening handshake as the HTTP client performs it: the random
//! `Sec-WebSocket-Key`, and the `Sec-WebSocket-Accept` value a server must
//! answer with (RFC 6455, section 4.2.2).
use vstd::prelude::*;
use vstd::utf8::encode_utf8;

verus! {

/// The SHA-1 digest of a byte string, as `sha1::Sha1` computes it.
pub uninterp spec fn sha1_digest(data: Seq<u8>) -> Seq<u8>;

/// The character of the standard Base64 alphabet (RFC 4648, table 1) for a
/// six-bit value.
pub open spec fn base64_digit(v: int) -> char {
    if v < 26 {
        ('A' as int + v) as char
    } else if v < 52 {
        ('a' as int + (v - 26)) as char
    } else if v < 62 {
        ('0' as int + (v - 52)) as char
    } else if v == 62 {
        '+'
    } else {
        '/'
    }
}

/// The standard, padded Base64 encoding of a byte string (RFC 4648, section
/// 4): each group of three bytes gives four digits of six bits each; a last
/// group of one or two bytes is padded with zero bits and then with `=` to
/// four characters.
pub open spec fn base64_text(data: Seq<u8>) -> Seq<char>
    decreases data.len(),
{
    if data.len() == 0 {
        seq![]
    } else if data.len() == 1 {
        let a = data[0] as int;
        seq![base64_digit(a / 4), base64_digit((a % 4) * 16), '=', '=']
    } else if data.len() == 2 {
        let (a, b) = (data[0] as int, data[1] as int);
        seq![base64_digit(a / 4), base64_digit((a % 4) * 16 + b / 16), base64_digit((b % 16) * 4), '=']
    } else {
        let (a, b, c) = (data[0] as int, data[1] as int, data[2] as int);
        seq![
            base64_digit(a / 4),
            base64_digit((a % 4) * 16 + b / 16),
            base64_digit((b % 16) * 4 + c / 64),
            base64_digit(c % 64),
        ] + base64_text(data.subrange(3, data.len() as int))
    }
}

/// Hashes `data` with `sha1::Sha1` (one `update`, then `finalize`). The
/// contract names the digest and states its length of 20 bytes.
#[verifier::external_body]
pub(crate) fn sha1_of(data: &[u8]) -> (r: Vec<u8>)
    ensures
        r@ == sha1_digest(data@),
        r@.len() == 20,
{
    let mut hasher = <sha1::Sha1 as core::default::Default>::default();
    sha1::Digest::update(&mut hasher, data);
    sha1::Digest::finalize(hasher).as_slice().to_vec()
}

/// A character of the standard Base64 alphabet, or the padding `=`.
pub open spec fn base64_alphabet(c: char) -> bool {
    ('A' <= c <= 'Z') || ('a' <= c <= 'z') || ('0' <= c <= '9') || c == '+' || c == '/' || c == '='
}

/// Every six-bit value has a digit of the alphabet.
proof fn lemma_base64_digit(v: int)
    requires
        0 <= v < 64,
    ensures
        base64_alphabet(base64_digit(v)),
{
}

/// The encoding has four characters per started group of three bytes, all
/// from the alphabet or the padding; a last group of two bytes ends in one
/// `=`, a last group of one byte in two.
pub proof fn lemma_base64_shape(data: Seq<u8>)
    ensures
        base64_text(data).len() == (data.len() + 2) / 3 * 4,
        forall|i: int| 0 <= i < base64_text(data).len() ==> base64_alphabet(#[trigger] base64_text(data)[i]),
        data.len() % 3 != 0 ==> base64_text(data).last() == '=',
        data.len() % 3 == 1 ==> base64_text(data)[base64_text(data).len() - 2] == '=',
    decreases data.len(),
{
    if data.len() == 0 {
    } else if data.len() == 1 {
        let a = data[0] as int;
        lemma_base64_digit(a / 4);
        lemma_base64_digit((a % 4) * 16);
    } else if data.len() == 2 {
        let (a, b) = (data[0] as int, data[1] as int);
        lemma_base64_digit(a / 4);
        lemma_base64_digit((a % 4) * 16 + b / 16);
        lemma_base64_digit((b % 16) * 4);
    } else {
        let (a, b, c) = (data[0] as int, data[1] as int, data[2] as int);
        let rest = data.subrange(3, data.len() as int);
        lemma_base64_shape(rest);
        lemma_base64_digit(a / 4);
        lemma_base64_digit((a % 4) * 16 + b / 16);
        lemma_base64_digit((b % 16) * 4 + c / 64);
        lemma_base64_digit(c % 64);
        let head = seq![
            base64_digit(a / 4),
            base64_digit((a % 4) * 16 + b / 16),
            base64_digit((b % 16) * 4 + c / 64),
            base64_digit(c % 64),
        ];
        assert(base64_text(data) == head + base64_text(rest));
        assert forall|i: int| 0 <= i < base64_text(data).len() implies base64_alphabet(
            #[trigger] base64_text(data)[i],
        ) by {
            if i >= 4 {
                assert(base64_text(data)[i] == base64_text(rest)[i - 4]);
            }
        }
        let n = base64_text(data).len() as int;
        if data.len() % 3 != 0 {
            assert(base64_text(data)[n - 1] == base64_text(rest)[n - 5]);
            assert(base64_text(data)[n - 2] == base64_text(rest)[n - 6]);
        }
    }
}

/// Encodes `data` with `base64::encode`, which uses the `STANDARD`
/// configuration: the RFC 4648 alphabet, with padding. That function panics
/// when the encoded length overflows `usize`, which the precondition rules
/// out. The contract states that the result is the standard padded encoding.
#[verifier::external_body]
pub(crate) fn base64_encode(data: &[u8]) -> (r: String)
    requires
        (data@.len() + 2) / 3 * 4 <= usize::MAX,
    ensures
        r@ == base64_text(data@),
{
    base64::encode(data)
}

/// Draws 16 random bytes with `rand::random`. Nothing is stated of them; the
/// call panics only if the thread-local generator cannot be seeded by the OS.
#[verifier::external_body]
pub(crate) fn random_key() -> (r: [u8; 16]) {
    rand::random()
}

/// The GUID that RFC 6455 appends to the key before hashing.
pub open spec fn ws_guid() -> Seq<char> {
    "258EAFA5-E914-47DA-95CA-C5AB0DC85B11"@
}

/// The `Sec-WebSocket-Accept` value for the bytes of a `Sec-WebSocket-Key`
/// header: Base64 of the SHA-1 of the key followed by the GUID.
pub open spec fn accept_key(request_key: Seq<u8>) -> Seq<char> {
    base64_text(sha1_digest(request_key + encode_utf8(ws_guid())))
}

/// Derives the `Sec-WebSocket-Accept` response header from a `Sec-WebSocket-Key` request header.
pub fn derive_accept_key(request_key: &[u8]) -> (r: String)
    ensures
        r@ == accept_key(request_key@),
        r@.len() == 28,
        r@[27] == '=',
        forall|i: int| 0 <= i < r@.len() ==> base64_alphabet(#[trigger] r@[i]),
{
    let guid = "258EAFA5-E914-47DA-95CA-C5AB0DC85B11";
    let guid_bytes = guid.as_bytes();
    let mut data: Vec<u8> = Vec::new();
    let mut i: usize = 0;
    while i < request_key.len()
        invariant
            i <= request_key@.len(),
            data@ == request_key@.take(i as int),
        decreases request_key@.len() - i,
    {
        data.push(request_key[i]);
        i += 1;
        assert(data@ =~= request_key@.take(i as int));
    }
    let mut j: usize = 0;
    while j < guid_bytes.len()
        invariant
            j <= guid_bytes@.len(),
            data@ == request_key@ + guid_bytes@.take(j as int),
        decreases guid_bytes@.len() - j,
    {
        data.push(guid_bytes[j]);
        j += 1;
        assert(data@ =~= request_key@ + guid_bytes@.take(j as int));
    }
    assert(request_key@.take(request_key@.len() as int) =~= request_key@);
    assert(guid_bytes@.take(guid_bytes@.len() as int) =~= guid_bytes@);
    let digest = sha1_of(data.as_slice());
    proof {
        lemma_base64_shape(digest@);
    }
    base64_encode(digest.as_slice())
}

/// The text of the `Sec-WebSocket-Key` header for a 16-byte key.
pub fn key_header_value(key: &[u8; 16]) -> (r: String)
    ensures
        r@ == base64_text(key@),
        r@.len() == 24,
        r@[22] == '=' && r@[23] == '=',
        forall|i: int| 0 <= i < r@.len() ==> base64_alphabet(#[trigger] r@[i]),
{
    proof {
        lemma_base64_shape(key@);
    }
    base64_encode(key.as_slice())
}

} // verus!
