use vstd::prelude::*;
use vstd::string::*;

verus! {

/// `c` is an upper-case ASCII letter.
pub open spec fn is_ascii_upper(c: char) -> bool {
    'A' <= c && c <= 'Z'
}

/// Two characters are equal once ASCII upper-case letters are lowered.
pub open spec fn char_eq_ignore_ascii_case(a: char, b: char) -> bool {
    a == b || (is_ascii_upper(a) && a as u32 + 32 == b as u32) || (is_ascii_upper(b) && b as u32
        + 32 == a as u32)
}

/// Two texts are equal once ASCII upper-case letters are lowered.
pub open spec fn eq_ignore_ascii_case(a: Seq<char>, b: Seq<char>) -> bool {
    a.len() == b.len() && forall|i: int|
        0 <= i < a.len() ==> #[trigger] char_eq_ignore_ascii_case(a[i], b[i])
}

/// `p` is a prefix of `s`.
pub open spec fn has_prefix(s: Seq<char>, p: Seq<char>) -> bool {
    p.len() <= s.len() && s.subrange(0, p.len() as int) == p
}

/// Compares two characters ignoring ASCII case.
pub fn chars_eq_ignore_ascii_case(a: char, b: char) -> (r: bool)
    ensures
        r == char_eq_ignore_ascii_case(a, b),
{
    let x = a as u32;
    let y = b as u32;
    x == y || ('A' <= a && a <= 'Z' && x + 32 == y) || ('A' <= b && b <= 'Z' && y + 32 == x)
}

/// Compares two texts ignoring ASCII case, as `str::eq_ignore_ascii_case` does.
pub fn str_eq_ignore_ascii_case(a: &str, b: &str) -> (r: bool)
    ensures
        r == eq_ignore_ascii_case(a@, b@),
{
    let n = a.unicode_len();
    if n != b.unicode_len() {
        return false;
    }
    let mut i: usize = 0;
    while i < n
        invariant
            n == a@.len(),
            n == b@.len(),
            i <= n,
            forall|k: int| 0 <= k < i ==> #[trigger] char_eq_ignore_ascii_case(a@[k], b@[k]),
        decreases n - i,
    {
        if !chars_eq_ignore_ascii_case(a.get_char(i), b.get_char(i)) {
            return false;
        }
        i = i + 1;
    }
    true
}

/// Tells whether `s` begins with `p`.
pub fn starts_with(s: &str, p: &str) -> (r: bool)
    ensures
        r == has_prefix(s@, p@),
{
    let n = p.unicode_len();
    if n > s.unicode_len() {
        return false;
    }
    let mut i: usize = 0;
    while i < n
        invariant
            n == p@.len(),
            n <= s@.len(),
            i <= n,
            forall|k: int| 0 <= k < i ==> s@[k] == p@[k],
        decreases n - i,
    {
        if s.get_char(i) != p.get_char(i) {
            assert(s@.subrange(0, n as int)[i as int] != p@[i as int]);
            return false;
        }
        i = i + 1;
    }
    assert(s@.subrange(0, n as int) =~= p@);
    true
}


/// The character of a decimal digit.
pub open spec fn digit_char(d: nat) -> char {
    seq!['0', '1', '2', '3', '4', '5', '6', '7', '8', '9'][d as int]
}

/// The decimal notation of `n`, without sign or leading zeros.
pub open spec fn decimal(n: nat) -> Seq<char>
    decreases n,
{
    if n < 10 {
        seq![digit_char(n)]
    } else {
        decimal(n / 10).push(digit_char(n % 10))
    }
}

/// Relies on `u64`'s `Display`: its decimal notation.
#[verifier::external_body]
pub(crate) fn decimal_of(n: u64) -> (r: String)
    ensures
        r@ == decimal(n as nat),
{
    format!("{}", n)
}

/// `c` has the Unicode property White_Space.
pub open spec fn is_white_space(c: char) -> bool {
    let u = c as u32;
    (0x9 <= u && u <= 0xd) || u == 0x20 || u == 0x85 || u == 0xa0 || u == 0x1680 || (0x2000 <= u
        && u <= 0x200a) || u == 0x2028 || u == 0x2029 || u == 0x202f || u == 0x205f || u == 0x3000
}

/// `s` without its leading white space.
pub open spec fn trimmed_start(s: Seq<char>) -> Seq<char>
    decreases s.len(),
{
    if s.len() > 0 && is_white_space(s[0]) {
        trimmed_start(s.drop_first())
    } else {
        s
    }
}

/// `s` without its trailing white space.
pub open spec fn trimmed_end(s: Seq<char>) -> Seq<char>
    decreases s.len(),
{
    if s.len() > 0 && is_white_space(s.last()) {
        trimmed_end(s.drop_last())
    } else {
        s
    }
}

/// `s` without leading and trailing white space.
pub open spec fn trimmed(s: Seq<char>) -> Seq<char> {
    trimmed_end(trimmed_start(s))
}

/// Relies on `str::trim`: `s` without leading and trailing white space, as
/// the Unicode property White_Space defines it.
#[verifier::external_body]
pub(crate) fn trim_of(s: &str) -> (r: String)
    ensures
        r@ == trimmed(s@),
{
    s.trim().to_string()
}

} // verus!
