//! What the validation rules ask of strings: equality, prefixes, blankness,
//! length in bytes, and the decimal numerals that error messages cite.

use vstd::prelude::*;
use vstd::string::StringExecFns;

verus! {

/// Whether a character is white space: whether it has the Unicode property
/// `White_Space`. These code points have it, and no others.
pub open spec fn white_space(c: char) -> bool {
    let u = c as u32;
    ||| 0x0009 <= u <= 0x000D
    ||| u == 0x0020
    ||| u == 0x0085
    ||| u == 0x00A0
    ||| u == 0x1680
    ||| 0x2000 <= u <= 0x200A
    ||| u == 0x2028
    ||| u == 0x2029
    ||| u == 0x202F
    ||| u == 0x205F
    ||| u == 0x3000
}

/// `char::is_whitespace`: whether the character has the Unicode property
/// `White_Space`.
#[verifier::external_body]
fn char_is_whitespace(c: char) -> (r: bool)
    ensures
        r == white_space(c),
{
    c.is_whitespace()
}

/// `PartialEq::eq` on string slices: whether they hold the same characters.
#[verifier::external_body]
pub(crate) fn str_eq(a: &str, b: &str) -> (r: bool)
    ensures
        r == (a@ == b@),
{
    a == b
}

/// `str::starts_with` with a string pattern: whether the pattern is a prefix
/// of the string.
#[verifier::external_body]
pub(crate) fn str_starts_with(s: &str, prefix: &str) -> (r: bool)
    ensures
        r == prefix@.is_prefix_of(s@),
{
    s.starts_with(prefix)
}

/// The length of a text in bytes of UTF-8, as `str::len` gives it.
pub open spec fn byte_len(s: Seq<char>) -> usize {
    vstd::utf8::encode_utf8(s).len() as usize
}

/// A text is blank when it holds nothing but white space: nothing is left of
/// it once white space is trimmed from both ends.
pub open spec fn blank(s: Seq<char>) -> bool {
    forall|i: int| 0 <= i < s.len() ==> white_space(#[trigger] s[i])
}

proof fn lemma_blank_push(s: Seq<char>, c: char)
    ensures
        blank(s.push(c)) == (blank(s) && white_space(c)),
{
    let t = s.push(c);
    if blank(s) && white_space(c) {
        assert forall|i: int| 0 <= i < t.len() implies white_space(#[trigger] t[i]) by {
            if i < s.len() {
                assert(t[i] == s[i]);
            }
        }
    }
    if blank(t) {
        assert(t[s.len() as int] == c);
        assert forall|i: int| 0 <= i < s.len() implies white_space(#[trigger] s[i]) by {
            assert(t[i] == s[i]);
        }
    }
}

/// Whether a text is blank.
pub fn is_blank(s: &str) -> (r: bool)
    ensures
        r == blank(s@),
{
    let mut all = true;
    for c in it: s.chars()
        invariant
            it.seq() == s@,
            all == blank(s@.take(it.index() as int)),
    {
        proof {
            let k = it.index() as int;
            assert(s@.take(k + 1) =~= s@.take(k).push(c));
            lemma_blank_push(s@.take(k), c);
        }
        if !char_is_whitespace(c) {
            all = false;
        }
    }
    proof {
        assert(s@.take(s@.len() as int) =~= s@);
    }
    all
}

/// The numeral of one decimal digit.
pub open spec fn digit(d: nat) -> Seq<char> {
    if d == 0 {
        "0"@
    } else if d == 1 {
        "1"@
    } else if d == 2 {
        "2"@
    } else if d == 3 {
        "3"@
    } else if d == 4 {
        "4"@
    } else if d == 5 {
        "5"@
    } else if d == 6 {
        "6"@
    } else if d == 7 {
        "7"@
    } else if d == 8 {
        "8"@
    } else {
        "9"@
    }
}

/// The decimal numeral of a number, without leading zeros.
pub open spec fn decimal(n: nat) -> Seq<char>
    decreases n,
{
    if n < 10 {
        digit(n)
    } else {
        decimal(n / 10) + digit(n % 10)
    }
}

fn digit_str(d: usize) -> (s: &'static str)
    requires
        d < 10,
    ensures
        s@ == digit(d as nat),
{
    if d == 0 {
        "0"
    } else if d == 1 {
        "1"
    } else if d == 2 {
        "2"
    } else if d == 3 {
        "3"
    } else if d == 4 {
        "4"
    } else if d == 5 {
        "5"
    } else if d == 6 {
        "6"
    } else if d == 7 {
        "7"
    } else if d == 8 {
        "8"
    } else {
        "9"
    }
}

/// Writes a number as its decimal numeral.
pub fn to_decimal(n: usize) -> (s: String)
    ensures
        s@ == decimal(n as nat),
    decreases n,
{
    if n < 10 {
        String::from_str(digit_str(n))
    } else {
        to_decimal(n / 10).concat(digit_str(n % 10))
    }
}

/// A text that cites a number: what comes before it, its decimal numeral,
/// and what comes after.
pub open spec fn citing(before: Seq<char>, n: nat, after: Seq<char>) -> Seq<char> {
    before + decimal(n) + after
}

/// Writes a text that cites a number.
pub fn with_number(before: &str, n: usize, after: &str) -> (s: String)
    ensures
        s@ == citing(before@, n as nat, after@),
{
    String::from_str(before).concat(to_decimal(n).as_str()).concat(after)
}

/// The numerals of the limits that the platform sets.
pub proof fn lemma_numerals()
    ensures
        decimal(5) == "5"@,
        decimal(10) == "10"@,
        decimal(20) == "20"@,
        decimal(25) == "25"@,
        decimal(100) == "100"@,
        decimal(150) == "150"@,
        decimal(200) == "200"@,
        decimal(2000) == "2000"@,
{
    reveal_with_fuel(decimal, 4);
    reveal_strlit("0");
    reveal_strlit("1");
    reveal_strlit("2");
    reveal_strlit("5");
    reveal_strlit("10");
    reveal_strlit("20");
    reveal_strlit("25");
    reveal_strlit("100");
    reveal_strlit("150");
    reveal_strlit("200");
    reveal_strlit("2000");
    assert(decimal(10) =~= "10"@);
    assert(decimal(20) =~= "20"@);
    assert(decimal(25) =~= "25"@);
    assert(decimal(100) =~= "100"@);
    assert(decimal(150) =~= "150"@);
    assert(decimal(200) =~= "200"@);
    assert(decimal(2000) =~= "2000"@);
}

} // verus!
