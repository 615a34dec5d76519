//! Text helpers shared by the search and protocol modules.
//!
//! Strings are modelled by their sequence of characters (`s@`).  Case folding
//! and trimming follow the Unicode tables of the standard library, so their
//! results are named rather than spelled out; substring search and decimal
//! formatting are stated in full and proved.

use vstd::prelude::*;
use vstd::string::{StrSliceExecFns, StringExecFns};

verus! {

/// The lowercase form of a string, as `str::to_lowercase` computes it.
pub uninterp spec fn lowercase(s: Seq<char>) -> Seq<char>;

/// A string without its leading and trailing whitespace, as `str::trim`
/// computes it.
pub uninterp spec fn trimmed(s: Seq<char>) -> Seq<char>;

/// `needle` occurs in `hay` as a contiguous run of characters.
pub open spec fn has_substring(hay: Seq<char>, needle: Seq<char>) -> bool {
    exists|i: int|
        0 <= i && i + needle.len() <= hay.len() && #[trigger] hay.subrange(i, i + needle.len())
            == needle
}

/// `needle` occurs in `hay` when case is ignored on both sides.
pub open spec fn contains_ignore_case(hay: Seq<char>, needle: Seq<char>) -> bool {
    has_substring(lowercase(hay), lowercase(needle))
}

/// The character that stands for a decimal digit.
pub open spec fn digit_char(d: int) -> char {
    if d == 0 {
        '0'
    } else if d == 1 {
        '1'
    } else if d == 2 {
        '2'
    } else if d == 3 {
        '3'
    } else if d == 4 {
        '4'
    } else if d == 5 {
        '5'
    } else if d == 6 {
        '6'
    } else if d == 7 {
        '7'
    } else if d == 8 {
        '8'
    } else {
        '9'
    }
}

/// The decimal digits of a natural number, most significant first, without
/// leading zeros.
pub open spec fn decimal_digits(n: nat) -> Seq<char>
    decreases n,
{
    if n < 10 {
        seq![digit_char(n as int)]
    } else {
        decimal_digits(n / 10).push(digit_char((n % 10) as int))
    }
}

/// The decimal form of an integer: a minus sign for negative numbers, then
/// the digits of the magnitude.
pub open spec fn decimal(n: int) -> Seq<char> {
    if n < 0 {
        seq!['-'] + decimal_digits((-n) as nat)
    } else {
        decimal_digits(n as nat)
    }
}

/// Wraps `str::to_lowercase` of the standard library.  The contract names the
/// result `lowercase` of the input's characters; nothing more is claimed of it.
#[verifier::external_body]
pub(crate) fn to_lowercase(s: &str) -> (r: String)
    ensures
        r@ == lowercase(s@),
{
    s.to_lowercase()
}

/// Whether `needle` occurs in `hay` as a contiguous run of characters.  The
/// empty needle occurs in every text.
pub fn contains(hay: &str, needle: &str) -> (r: bool)
    ensures
        r == has_substring(hay@, needle@),
{
    let chars = chars_of(hay);
    let wanted = chars_of(needle);
    if wanted.len() > chars.len() {
        return false;
    }
    let last: usize = chars.len() - wanted.len();
    let mut start: usize = 0;
    loop
        invariant
            chars@ == hay@,
            wanted@ == needle@,
            last + wanted.len() == chars.len(),
            start <= last,
            forall|at: int| 0 <= at < start ==> !occurs_at(hay@, needle@, at),
        decreases last - start,
    {
        if matches_at(&chars, &wanted, start) {
            assert(hay@.subrange(start as int, start + needle@.len()) == needle@);
            return true;
        }
        if start == last {
            assert forall|at: int|
                0 <= at && at + needle@.len() <= hay@.len() implies #[trigger] hay@.subrange(
                at,
                at + needle@.len(),
            ) != needle@ by {
                assert(!occurs_at(hay@, needle@, at));
            }
            return false;
        }
        start += 1;
    }
}

/// Wraps `str::trim` of the standard library.  The contract names the result
/// `trimmed` of the input's characters; nothing more is claimed of it.
#[verifier::external_body]
pub(crate) fn trim(s: &str) -> (r: &str)
    ensures
        r@ == trimmed(s@),
{
    s.trim()
}

/// Whether two string slices hold the same characters.
pub fn str_equal(a: &str, b: &str) -> (r: bool)
    ensures
        r == (a@ == b@),
{
    a.to_owned() == b.to_owned()
}

/// Whether `hay` contains `needle` when case is ignored on both sides.
pub fn contains_lowercase(hay: &str, needle_lower: &str) -> (r: bool)
    ensures
        r == has_substring(lowercase(hay@), needle_lower@),
{
    let lowered = to_lowercase(hay);
    contains(lowered.as_str(), needle_lower)
}

fn digit_str(d: u64) -> (r: &'static str)
    requires
        d < 10,
    ensures
        r@ == seq![digit_char(d as int)],
{
    proof {
        reveal_strlit("0");
        reveal_strlit("1");
        reveal_strlit("2");
        reveal_strlit("3");
        reveal_strlit("4");
        reveal_strlit("5");
        reveal_strlit("6");
        reveal_strlit("7");
        reveal_strlit("8");
        reveal_strlit("9");
    }
    let r = if d == 0 {
        "0"
    } else if d == 1 {
        "1"
    } else if d == 2 {
        "2"
    } else if d == 3 {
        "3"
    } else if d == 4 {
        "4"
    } else if d == 5 {
        "5"
    } else if d == 6 {
        "6"
    } else if d == 7 {
        "7"
    } else if d == 8 {
        "8"
    } else {
        "9"
    };
    r
}

/// Formats an unsigned number in decimal.
pub fn u64_to_string(n: u64) -> (r: String)
    ensures
        r@ == decimal_digits(n as nat),
    decreases n,
{
    if n < 10 {
        String::from_str(digit_str(n))
    } else {
        let mut s = u64_to_string(n / 10);
        s.append(digit_str(n % 10));
        s
    }
}

/// Formats a signed number in decimal.
pub fn i64_to_string(n: i64) -> (r: String)
    ensures
        r@ == decimal(n as int),
{
    if n < 0 {
        let magnitude: u64 = ((-(n + 1)) as u64) + 1;
        let mut s = String::from_str("-");
        let digits = u64_to_string(magnitude);
        s.append(digits.as_str());
        proof {
            reveal_strlit("-");
        }
        s
    } else {
        u64_to_string(n as u64)
    }
}

/// `pattern` stands in `text` at position `at`.
pub open spec fn occurs_at(text: Seq<char>, pattern: Seq<char>, at: int) -> bool {
    0 <= at && at + pattern.len() <= text.len() && text.subrange(at, at + pattern.len())
        == pattern
}

/// The last position not after `start` at which `pattern` stands in `text`.
pub open spec fn last_occurrence_from(text: Seq<char>, pattern: Seq<char>, start: int) -> Option<
    int,
>
    decreases start + 1,
{
    if start < 0 {
        None
    } else if occurs_at(text, pattern, start) {
        Some(start)
    } else {
        last_occurrence_from(text, pattern, start - 1)
    }
}

/// The last position at which `pattern` stands in `text`.
pub open spec fn last_occurrence(text: Seq<char>, pattern: Seq<char>) -> Option<int> {
    last_occurrence_from(text, pattern, text.len() - pattern.len())
}

/// The first position from `start` on at which `c` stands in `text`.
pub open spec fn first_index_from(text: Seq<char>, c: char, start: int) -> Option<int>
    decreases text.len() - start,
{
    if start < 0 || start >= text.len() {
        None
    } else if text[start] == c {
        Some(start)
    } else {
        first_index_from(text, c, start + 1)
    }
}

/// The first position at which `c` stands in `text`.
pub open spec fn first_index(text: Seq<char>, c: char) -> Option<int> {
    first_index_from(text, c, 0)
}

/// The last occurrence is an occurrence, and no occurrence comes after it;
/// where there is none, the pattern stands nowhere in the text.
pub proof fn lemma_last_occurrence(text: Seq<char>, pattern: Seq<char>, start: int)
    ensures
        match last_occurrence_from(text, pattern, start) {
            Some(at) => at <= start && occurs_at(text, pattern, at) && forall|later: int|
                at < later <= start ==> !occurs_at(text, pattern, later),
            None => forall|at: int| at <= start ==> !occurs_at(text, pattern, at),
        },
    decreases start + 1,
{
    if start >= 0 && !occurs_at(text, pattern, start) {
        lemma_last_occurrence(text, pattern, start - 1);
    }
}

/// The first index of a character holds that character, and no index
/// before it does; where there is none, the character is nowhere in the
/// text.
pub proof fn lemma_first_index(text: Seq<char>, c: char, start: int)
    requires
        0 <= start,
    ensures
        match first_index_from(text, c, start) {
            Some(at) => start <= at < text.len() && text[at] == c && forall|earlier: int|
                start <= earlier < at ==> text[earlier] != c,
            None => forall|at: int| start <= at < text.len() ==> text[at] != c,
        },
    decreases text.len() - start,
{
    if start < text.len() && text[start] != c {
        lemma_first_index(text, c, start + 1);
    }
}

/// The characters of a text, one by one.
pub fn chars_of(text: &str) -> (r: Vec<char>)
    ensures
        r@ == text@,
{
    let mut out: Vec<char> = Vec::new();
    for c in it: text.chars()
        invariant
            it.seq() == text@,
            out@ == it.seq().take(it.index() as int),
    {
        out.push(c);
    }
    assert(out@ =~= text@);
    out
}

fn matches_at(text: &Vec<char>, pattern: &Vec<char>, at: usize) -> (r: bool)
    requires
        at + pattern.len() <= text.len(),
    ensures
        r == occurs_at(text@, pattern@, at as int),
{
    let length = pattern.len();
    let mut k: usize = 0;
    while k < length
        invariant
            k <= length,
            length == pattern.len(),
            at + length <= text.len(),
            forall|t: int| 0 <= t < k ==> text@[at + t] == pattern@[t],
        decreases length - k,
    {
        if text[at + k] != pattern[k] {
            assert(text@.subrange(at as int, at + length)[k as int] == text@[at + k]);
            return false;
        }
        k += 1;
    }
    assert(text@.subrange(at as int, at + length) =~= pattern@);
    true
}

/// The last position at which `pattern` stands in `text`, counted in
/// characters.
pub fn find_last(text: &str, pattern: &str) -> (r: Option<usize>)
    ensures
        match last_occurrence(text@, pattern@) {
            Some(at) => r == Some(at as usize) && at + pattern@.len() <= text@.len() <= usize::MAX,
            None => r is None,
        },
{
    let chars = chars_of(text);
    let wanted = chars_of(pattern);
    let length = chars.len();
    let needed = wanted.len();
    if needed > length {
        proof {
            lemma_last_occurrence(text@, pattern@, length - needed);
        }
        return None;
    }
    let mut start: usize = length - needed;
    loop
        invariant
            chars@ == text@,
            wanted@ == pattern@,
            length == chars.len(),
            needed == wanted.len(),
            start + needed <= length,
            last_occurrence(text@, pattern@) == last_occurrence_from(
                text@,
                pattern@,
                start as int,
            ),
        decreases start,
    {
        if matches_at(&chars, &wanted, start) {
            return Some(start);
        }
        if start == 0 {
            assert(last_occurrence_from(text@, pattern@, -1) is None);
            return None;
        }
        start -= 1;
    }
}

/// The first position at which the character `c` stands in `text`, counted
/// in characters.
pub fn find_first(text: &str, c: char) -> (r: Option<usize>)
    ensures
        match first_index(text@, c) {
            Some(at) => r == Some(at as usize) && at < text@.len() <= usize::MAX,
            None => r is None,
        },
{
    let chars = chars_of(text);
    let length = chars.len();
    let mut i: usize = 0;
    while i < length
        invariant
            i <= length,
            chars@ == text@,
            length == chars.len(),
            first_index(text@, c) == first_index_from(text@, c, i as int),
        decreases length - i,
    {
        if chars[i] == c {
            return Some(i);
        }
        i += 1;
    }
    None
}

} // verus!
