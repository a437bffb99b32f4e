//! Which byte strings `hyper` accepts as an HTTP method, a header name and a
//! header value, and ASCII case-insensitive comparison.
use vstd::prelude::*;

verus! {

/// A byte that may appear in a method name (the `METHOD_CHARS` table of `http`).
pub open spec fn method_char(b: u8) -> bool {
    b == 33 || b == 42 || b == 43 || b == 45 || b == 46 || (48 <= b <= 57) || (65 <= b <= 90) || b == 94
        || b == 95 || b == 96 || (97 <= b <= 122) || b == 124 || b == 126
}

/// `hyper::Method::from_bytes` succeeds exactly on non-empty strings of method characters.
pub open spec fn method_accepts(bytes: Seq<u8>) -> bool {
    bytes.len() > 0 && forall|i: int| 0 <= i < bytes.len() ==> method_char(#[trigger] bytes[i])
}

/// A byte that may appear in a header name (the `HEADER_CHARS` table of `http`,
/// where upper-case letters are accepted and lowered).
pub open spec fn header_name_char(b: u8) -> bool {
    (33 <= b <= 39) || b == 42 || b == 43 || b == 45 || b == 46 || (48 <= b <= 57) || (65 <= b <= 90)
        || (94 <= b <= 122) || b == 124 || b == 126
}

/// `hyper::header::HeaderName::from_bytes` succeeds exactly on names of
/// 1 to 65535 header-name characters.
pub open spec fn header_name_accepts(bytes: Seq<u8>) -> bool {
    0 < bytes.len() <= 65535 && forall|i: int| 0 <= i < bytes.len() ==> header_name_char(#[trigger] bytes[i])
}

/// A byte that may appear in a header value: visible ASCII, obs-text and tab.
pub open spec fn header_value_byte(b: u8) -> bool {
    (b >= 32 && b != 127) || b == 9
}

/// `hyper::header::HeaderValue::from_bytes` succeeds exactly when every byte may appear in a value.
pub open spec fn header_value_accepts(bytes: Seq<u8>) -> bool {
    forall|i: int| 0 <= i < bytes.len() ==> header_value_byte(#[trigger] bytes[i])
}

/// Calls `hyper::Method::from_bytes` (that is, `http::Method::from_bytes`) and
/// reports whether it succeeded. The contract restates its source: empty input
/// is refused, and every byte must map to non-zero in `METHOD_CHARS`.
#[verifier::external_body]
pub(crate) fn method_from_bytes_ok(bytes: &[u8]) -> (r: bool)
    ensures
        r == method_accepts(bytes@),
{
    hyper::Method::from_bytes(bytes).is_ok()
}

/// Calls `hyper::header::HeaderName::from_bytes` and reports whether it
/// succeeded. The contract restates its source (`parse_hdr` and the
/// `HEADER_CHARS` table): the length must be 1 to `MAX_HEADER_NAME_LEN`
/// (65535) and every byte must map to non-zero.
#[verifier::external_body]
pub(crate) fn header_name_from_bytes_ok(bytes: &[u8]) -> (r: bool)
    ensures
        r == header_name_accepts(bytes@),
{
    hyper::header::HeaderName::from_bytes(bytes).is_ok()
}

/// Calls `hyper::header::HeaderValue::from_bytes` and reports whether it
/// succeeded. The contract restates its source (`is_valid`): every byte is at
/// least 32 and not 127, or is a tab.
#[verifier::external_body]
pub(crate) fn header_value_from_bytes_ok(bytes: &[u8]) -> (r: bool)
    ensures
        r == header_value_accepts(bytes@),
{
    hyper::header::HeaderValue::from_bytes(bytes).is_ok()
}

/// The bytes of a string of printable ASCII characters form a valid header value.
pub proof fn lemma_printable_value(s: Seq<char>)
    requires
        forall|i: int| 0 <= i < s.len() ==> ' ' <= #[trigger] s[i] <= '~',
    ensures
        header_value_accepts(vstd::utf8::encode_utf8(s)),
{
    assert(vstd::utf8::is_ascii_chars(s));
    vstd::utf8::is_ascii_chars_encode_utf8(s);
    assert forall|i: int| 0 <= i < vstd::utf8::encode_utf8(s).len() implies header_value_byte(
        #[trigger] vstd::utf8::encode_utf8(s)[i],
    ) by {
        assert(s[i] as u8 == vstd::utf8::encode_utf8(s)[i]);
    }
}

/// The bytes of a non-empty string of lower-case letters and dashes form a valid header name.
pub proof fn lemma_token_name(s: Seq<char>)
    requires
        0 < s.len() <= 65535,
        forall|i: int| 0 <= i < s.len() ==> ('a' <= #[trigger] s[i] <= 'z' || s[i] == '-'),
    ensures
        header_name_accepts(vstd::utf8::encode_utf8(s)),
{
    assert(vstd::utf8::is_ascii_chars(s));
    vstd::utf8::is_ascii_chars_encode_utf8(s);
    assert forall|i: int| 0 <= i < vstd::utf8::encode_utf8(s).len() implies header_name_char(
        #[trigger] vstd::utf8::encode_utf8(s)[i],
    ) by {
        assert(s[i] as u8 == vstd::utf8::encode_utf8(s)[i]);
    }
}

/// The ASCII lower-case form of a byte; other bytes stay as they are.
pub open spec fn ascii_lower(b: u8) -> u8 {
    if 65 <= b <= 90 {
        (b + 32) as u8
    } else {
        b
    }
}

/// Equal up to ASCII case, as `<[u8]>::eq_ignore_ascii_case` compares.
pub open spec fn eq_ignore_ascii_case(a: Seq<u8>, b: Seq<u8>) -> bool {
    a.len() == b.len() && forall|i: int| 0 <= i < a.len() ==> ascii_lower(#[trigger] a[i]) == ascii_lower(b[i])
}

/// Compares two byte strings up to ASCII case.
pub fn bytes_eq_ignore_ascii_case(a: &[u8], b: &[u8]) -> (r: bool)
    ensures
        r == eq_ignore_ascii_case(a@, b@),
{
    if a.len() != b.len() {
        return false;
    }
    let mut i: usize = 0;
    while i < a.len()
        invariant
            a@.len() == b@.len(),
            i <= a@.len(),
            forall|k: int| 0 <= k < i ==> ascii_lower(#[trigger] a@[k]) == ascii_lower(b@[k]),
        decreases a@.len() - i,
    {
        let x = a[i];
        let y = b[i];
        let lx: u8 = if 65 <= x && x <= 90 { x + 32 } else { x };
        let ly: u8 = if 65 <= y && y <= 90 { y + 32 } else { y };
        if lx != ly {
            assert(ascii_lower(a@[i as int]) != ascii_lower(b@[i as int]));
            return false;
        }
        i += 1;
    }
    true
}

/// Compares two byte strings exactly.
pub fn bytes_eq(a: &[u8], b: &[u8]) -> (r: bool)
    ensures
        r == (a@ == b@),
{
    if a.len() != b.len() {
        return false;
    }
    let mut i: usize = 0;
    while i < a.len()
        invariant
            a@.len() == b@.len(),
            i <= a@.len(),
            forall|k: int| 0 <= k < i ==> #[trigger] a@[k] == b@[k],
        decreases a@.len() - i,
    {
        if a[i] != b[i] {
            return false;
        }
        i += 1;
    }
    assert(a@ =~= b@);
    true
}

} // verus!
