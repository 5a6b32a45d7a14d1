//! Character-level text helpers: decimal rendering of counters for ids and
//! audit attributes, whitespace classification for blank-field validation,
//! comma counting for transaction-proof lists, and fixed-length content
//! normalization (truncate or right-pad with spaces).

use vstd::prelude::*;
use vstd::string::StrSliceExecFns;
use vstd::string::StringExecFns;

verus! {

/// The decimal digit character for a value in 0..10.
pub open spec fn digit_char(d: int) -> char {
    if d == 0 {
        '0'
    } else if d == 1 {
        '1'
    } else if d == 2 {
        '2'
    } else if d == 3 {
        '3'
    } else if d == 4 {
        '4'
    } else if d == 5 {
        '5'
    } else if d == 6 {
        '6'
    } else if d == 7 {
        '7'
    } else if d == 8 {
        '8'
    } else {
        '9'
    }
}

/// The usual decimal rendering of a non-negative integer, most significant
/// digit first, with no leading zeros (except for the value 0 itself).
pub open spec fn dec_digits(n: int) -> Seq<char>
    decreases n,
{
    if n < 10 {
        seq![digit_char(n)]
    } else {
        dec_digits(n / 10).push(digit_char(n % 10))
    }
}

/// A one-character string slice for a single decimal digit.
fn digit_str(d: u128) -> (r: &'static str)
    requires
        d < 10,
    ensures
        r@ =~= seq![digit_char(d as int)],
{
    proof {
        reveal_strlit("0");
        reveal_strlit("1");
        reveal_strlit("2");
        reveal_strlit("3");
        reveal_strlit("4");
        reveal_strlit("5");
        reveal_strlit("6");
        reveal_strlit("7");
        reveal_strlit("8");
        reveal_strlit("9");
    }
    match d {
        0 => "0",
        1 => "1",
        2 => "2",
        3 => "3",
        4 => "4",
        5 => "5",
        6 => "6",
        7 => "7",
        8 => "8",
        _ => "9",
    }
}

/// Renders a counter as its decimal string.
pub fn render_u128(n: u128) -> (r: String)
    ensures
        r@ == dec_digits(n as int),
    decreases n,
{
    if n < 10 {
        digit_str(n).to_owned()
    } else {
        let mut r = render_u128(n / 10);
        r.append(digit_str(n % 10));
        proof {
            assert(r@ =~= dec_digits((n / 10) as int).push(digit_char((n % 10) as int)));
        }
        r
    }
}

/// Renders a 64-bit counter as its decimal string.
pub fn render_u64(n: u64) -> (r: String)
    ensures
        r@ == dec_digits(n as int),
{
    render_u128(n as u128)
}

/// Whether a character has the Unicode `White_Space` property.
pub open spec fn is_space_char(c: char) -> bool {
    ||| c == '\u{0009}'
    ||| c == '\u{000A}'
    ||| c == '\u{000B}'
    ||| c == '\u{000C}'
    ||| c == '\u{000D}'
    ||| c == '\u{0020}'
    ||| c == '\u{0085}'
    ||| c == '\u{00A0}'
    ||| c == '\u{1680}'
    ||| ('\u{2000}' <= c && c <= '\u{200A}')
    ||| c == '\u{2028}'
    ||| c == '\u{2029}'
    ||| c == '\u{202F}'
    ||| c == '\u{205F}'
    ||| c == '\u{3000}'
}

fn space_char(c: char) -> (r: bool)
    ensures
        r == is_space_char(c),
{
    c == '\u{0009}' || c == '\u{000A}' || c == '\u{000B}' || c == '\u{000C}' || c == '\u{000D}'
        || c == '\u{0020}' || c == '\u{0085}' || c == '\u{00A0}' || c == '\u{1680}' || ('\u{2000}'
        <= c && c <= '\u{200A}') || c == '\u{2028}' || c == '\u{2029}' || c == '\u{202F}' || c
        == '\u{205F}' || c == '\u{3000}'
}

/// Whether a string is empty or consists of whitespace only, i.e. trims down
/// to the empty string.
pub open spec fn is_blank(s: Seq<char>) -> bool {
    forall|i: int| 0 <= i < s.len() ==> is_space_char(s[i])
}

/// Decides whether a field trims down to the empty string.
pub fn check_blank(s: &str) -> (r: bool)
    ensures
        r == is_blank(s@),
{
    let n: usize = s.unicode_len();
    let mut i: usize = 0;
    while i < n
        invariant
            n == s@.len(),
            0 <= i <= n,
            forall|j: int| 0 <= j < i ==> is_space_char(s@[j]),
        decreases n - i,
    {
        if !space_char(s.get_char(i)) {
            return false;
        }
        i += 1;
    }
    true
}

/// The number of comma characters in a string.
pub open spec fn comma_count(s: Seq<char>) -> int
    decreases s.len(),
{
    if s.len() == 0 {
        0
    } else {
        comma_count(s.drop_last()) + if s.last() == ',' { 1int } else { 0int }
    }
}

pub proof fn lemma_comma_count_bounds(s: Seq<char>)
    ensures
        0 <= comma_count(s) <= s.len(),
    decreases s.len(),
{
    if s.len() > 0 {
        lemma_comma_count_bounds(s.drop_last());
    }
}

/// Counts the commas of a string; one more than this is the number of entries
/// of a comma-joined list.
pub fn count_commas(s: &str) -> (r: usize)
    ensures
        r == comma_count(s@),
{
    let n: usize = s.unicode_len();
    let mut i: usize = 0;
    let mut r: usize = 0;
    while i < n
        invariant
            n == s@.len(),
            0 <= i <= n,
            r == comma_count(s@.take(i as int)),
            r <= i,
        decreases n - i,
    {
        proof {
            lemma_comma_count_bounds(s@.take(i as int));
            assert(s@.take(i + 1).drop_last() =~= s@.take(i as int));
        }
        if s.get_char(i) == ',' {
            r += 1;
        }
        i += 1;
    }
    proof {
        assert(s@.take(n as int) =~= s@);
    }
    r
}

/// A run of space characters.
pub open spec fn spaces(n: int) -> Seq<char> {
    Seq::new(n as nat, |i: int| ' ')
}

/// Content normalized to exactly `target` characters: a left-anchored
/// truncation when the input is longer, the input right-padded with spaces
/// when it is shorter or equal.
pub open spec fn fixed_content(s: Seq<char>, target: int) -> Seq<char> {
    if s.len() > target {
        s.take(target)
    } else {
        s + spaces(target - s.len())
    }
}

pub proof fn lemma_fixed_content_len(s: Seq<char>, target: int)
    requires
        target >= 0,
    ensures
        fixed_content(s, target).len() == target,
{
}

/// Normalizes content to exactly `target` characters, truncating or padding
/// with spaces.
pub fn normalize_content(s: &str, target: usize) -> (r: String)
    ensures
        r@ == fixed_content(s@, target as int),
{
    let n: usize = s.unicode_len();
    if n > target {
        s.substring_char(0, target).to_owned()
    } else {
        let mut r = s.to_owned();
        let mut i: usize = n;
        proof {
            reveal_strlit(" ");
            assert(r@ =~= s@ + spaces(0));
        }
        while i < target
            invariant
                n == s@.len(),
                n <= i <= target,
                r@ == s@ + spaces(i - n),
            decreases target - i,
        {
            r.append(" ");
            i += 1;
            proof {
                reveal_strlit(" ");
                assert(r@ =~= s@ + spaces(i - n));
            }
        }
        r
    }
}

} // verus!
