//! Text helpers shared by the code generators: literal rendering, string
//! comparison and substring search, all over the `Seq<char>` views of strings.
use vstd::prelude::*;

verus! {

/// The decimal digit character for a value below ten.
pub open spec fn digit_char(d: nat) -> char {
    if d == 0 { '0' }
    else if d == 1 { '1' }
    else if d == 2 { '2' }
    else if d == 3 { '3' }
    else if d == 4 { '4' }
    else if d == 5 { '5' }
    else if d == 6 { '6' }
    else if d == 7 { '7' }
    else if d == 8 { '8' }
    else { '9' }
}

/// Decimal notation of a natural number, most significant digit first, no leading zeros.
pub open spec fn decimal(n: nat) -> Seq<char>
    decreases n,
{
    if n < 10 {
        seq![digit_char(n)]
    } else {
        decimal(n / 10) + seq![digit_char(n % 10)]
    }
}

/// Rust source text of an `i64` literal with an explicit `i64` suffix, as `quote!` writes it.
pub open spec fn i64_literal(x: i64) -> Seq<char> {
    if x < 0 {
        seq!['-'] + decimal((-x) as nat) + seq!['i', '6', '4']
    } else {
        decimal(x as nat) + seq!['i', '6', '4']
    }
}

/// Rust source text of a `usize` literal with an explicit `usize` suffix.
pub open spec fn usize_literal(x: usize) -> Seq<char> {
    decimal(x as nat) + seq!['u', 's', 'i', 'z', 'e']
}

/// `pat` occurs as a contiguous piece of `s`.
pub open spec fn contains_sub(s: Seq<char>, pat: Seq<char>) -> bool {
    exists|i: int| 0 <= i && i + pat.len() <= s.len() && #[trigger] s.subrange(i, i + pat.len()) == pat
}

/// What `str::to_lowercase` gives for a string (Unicode lowercase mapping).
pub uninterp spec fn lowercase(s: Seq<char>) -> Seq<char>;

/// What `format!("{:?}", s)` gives for a string: a double-quoted Rust string
/// literal whose value is `s`.
pub uninterp spec fn debug_str_literal(s: Seq<char>) -> Seq<char>;

/// The lowercase of an ASCII character: `A` to `Z` become `a` to `z`, the
/// others stay.
pub open spec fn ascii_lower(c: char) -> char {
    if 'A' <= c <= 'Z' {
        (c as int + 32) as char
    } else {
        c
    }
}

/// Calls `str::to_lowercase`. The contract names the result, a function of
/// the input's characters, and states it for ASCII text, where the Unicode
/// lowercase mapping maps each of `A` to `Z` to its small letter and leaves
/// the other characters as they are; the case tables beyond ASCII are not
/// stated.
#[verifier::external_body]
pub(crate) fn to_lowercase(s: &str) -> (r: String)
    ensures
        r@ == lowercase(s@),
        (forall|i: int| 0 <= i < s@.len() ==> (#[trigger] s@[i] as int) < 128) ==> r@ == s@.map_values(
            |c: char| ascii_lower(c),
        ),
{
    s.to_lowercase()
}

/// Renders `s` with `<str as Debug>::fmt`, which produces a quoted, escaped
/// Rust string literal. The contract only names the result; the escaping
/// rules of `char::escape_debug` are not stated.
#[verifier::external_body]
pub(crate) fn str_literal(s: &str) -> (r: String)
    ensures
        r@ == debug_str_literal(s@),
{
    format!("{:?}", s)
}

fn digit_str(d: u64) -> (r: &'static str)
    requires
        d < 10,
    ensures
        r@ == seq![digit_char(d as nat)],
{
    proof {
        reveal_strlit("0");
        reveal_strlit("1");
        reveal_strlit("2");
        reveal_strlit("3");
        reveal_strlit("4");
        reveal_strlit("5");
        reveal_strlit("6");
        reveal_strlit("7");
        reveal_strlit("8");
        reveal_strlit("9");
    }
    if d == 0 { "0" }
    else if d == 1 { "1" }
    else if d == 2 { "2" }
    else if d == 3 { "3" }
    else if d == 4 { "4" }
    else if d == 5 { "5" }
    else if d == 6 { "6" }
    else if d == 7 { "7" }
    else if d == 8 { "8" }
    else {
        assert(seq!['9'] =~= "9"@);
        "9"
    }
}

/// Appends the decimal notation of `n`.
pub fn push_decimal(out: &mut String, n: u64)
    ensures
        final(out)@ == old(out)@ + decimal(n as nat),
    decreases n,
{
    if n >= 10 {
        push_decimal(out, n / 10);
        out.append(digit_str(n % 10));
        assert(old(out)@ + decimal(n as nat) =~= old(out)@ + decimal((n / 10) as nat) + seq![digit_char((n % 10) as nat)]);
    } else {
        out.append(digit_str(n));
    }
}

/// Appends the text of an `i64`-suffixed literal for `x`.
pub fn push_i64_literal(out: &mut String, x: i64)
    ensures
        final(out)@ == old(out)@ + i64_literal(x),
{
    proof {
        reveal_strlit("-");
        reveal_strlit("i64");
    }
    if x < 0 {
        out.append("-");
        let wide: i128 = x as i128;
        let mag: u64 = (0i128 - wide) as u64;
        push_decimal(out, mag);
    } else {
        push_decimal(out, x as u64);
    }
    out.append("i64");
    assert(final(out)@ =~= old(out)@ + i64_literal(x)) by {
        assert("i64"@ =~= seq!['i', '6', '4']);
    }
}

/// Appends the text of a `usize`-suffixed literal for `x`.
pub fn push_usize_literal(out: &mut String, x: usize)
    ensures
        final(out)@ == old(out)@ + usize_literal(x),
{
    proof {
        reveal_strlit("usize");
    }
    push_decimal(out, x as u64);
    out.append("usize");
    assert(final(out)@ =~= old(out)@ + usize_literal(x)) by {
        assert("usize"@ =~= seq!['u', 's', 'i', 'z', 'e']);
    }
}

/// String equality on character sequences.
pub fn str_eq(a: &str, b: &str) -> (r: bool)
    ensures
        r == (a@ == b@),
{
    let x = a.to_owned();
    let y = b.to_owned();
    x == y
}

/// The characters of a string, one per element.
pub fn chars_of(s: &str) -> (r: Vec<char>)
    ensures
        r@ == s@,
{
    let n = s.unicode_len();
    let mut r: Vec<char> = Vec::new();
    let mut i: usize = 0;
    while i < n
        invariant
            n == s@.len(),
            i <= n,
            r@ == s@.subrange(0, i as int),
        decreases n - i,
    {
        r.push(s.get_char(i));
        i += 1;
        assert(r@ =~= s@.subrange(0, i as int));
    }
    assert(r@ =~= s@);
    r
}

/// Whether `pat` occurs in `s`.
pub fn contains_str(s: &str, pat: &str) -> (r: bool)
    ensures
        r == contains_sub(s@, pat@),
{
    let sc = chars_of(s);
    let pc = chars_of(pat);
    let n = sc.len();
    let m = pc.len();
    if m > n {
        return false;
    }
    let mut i: usize = 0;
    while i <= n - m
        invariant
            sc@ == s@,
            pc@ == pat@,
            n == s@.len(),
            m == pat@.len(),
            m <= n,
            i <= n - m + 1,
            forall|k: int| 0 <= k < i ==> #[trigger] s@.subrange(k, k + m) != pat@,
        decreases n - m + 1 - i,
    {
        let mut j: usize = 0;
        let mut same = true;
        while j < m
            invariant
                sc@ == s@,
                pc@ == pat@,
                n == s@.len(),
                m == pat@.len(),
                i + m <= n,
                j <= m,
                same == (forall|t: int| 0 <= t < j ==> s@[i + t] == pat@[t]),
            decreases m - j,
        {
            if sc[i + j] != pc[j] {
                same = false;
            }
            j += 1;
        }
        if same {
            assert(s@.subrange(i as int, i + m) =~= pat@);
            return true;
        }
        assert(s@.subrange(i as int, i + m) != pat@) by {
            let t = choose|t: int| 0 <= t < m && s@[i + t] != pat@[t];
            assert(s@.subrange(i as int, i + m)[t] == s@[i + t]);
        }
        i += 1;
    }
    proof {
        if contains_sub(s@, pat@) {
            let k = choose|k: int| 0 <= k && k + pat@.len() <= s@.len() && #[trigger] s@.subrange(k, k + pat@.len()) == pat@;
            assert(s@.subrange(k, k + m) == pat@);
        }
    }
    false
}

} // verus!
