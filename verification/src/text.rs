//! The operations on text that the library takes from the standard
//! library. None of them is verified here: each states what the standard
//! library documents.

use vstd::prelude::*;
use vstd::string::{StrSliceExecFns, StringExecFns};

verus! {

/// What `str::trim` leaves of a text: the text without the white space at
/// its start and at its end.
pub uninterp spec fn trimmed(text: Seq<char>) -> Seq<char>;

/// What `str::to_lowercase` makes of a text: each character replaced by
/// its lower-case form.
pub uninterp spec fn lowercased(text: Seq<char>) -> Seq<char>;

/// The number that a run of decimal digits spells; `None` for an empty
/// text and for one that holds anything but the digits `0` to `9`.
pub open spec fn digits_value(digits: Seq<char>) -> Option<nat>
    decreases digits.len(),
{
    if digits.len() == 0 {
        None
    } else if !('0' <= digits.last() && digits.last() <= '9') {
        None
    } else if digits.len() == 1 {
        Some((digits.last() as u32 - '0' as u32) as nat)
    } else {
        match digits_value(digits.drop_last()) {
            Some(v) => Some(v * 10 + (digits.last() as u32 - '0' as u32) as nat),
            None => None,
        }
    }
}

/// What `str::parse::<usize>` reads from a text: the number that its
/// decimal digits spell, with or without one plus sign before them; `None`
/// where the text is anything else or the number does not fit.
pub open spec fn parsed_usize(text: Seq<char>) -> Option<usize> {
    let digits = if text.len() > 0 && text[0] == '+' {
        text.subrange(1, text.len() as int)
    } else {
        text
    };
    match digits_value(digits) {
        Some(v) => if v <= usize::MAX {
            Some(v as usize)
        } else {
            None
        },
        None => None,
    }
}

/// The place of the first `c` at or after `from`, or the length of the
/// text where there is none.
pub open spec fn char_from(s: Seq<char>, c: char, from: int) -> int
    decreases s.len() - from,
{
    if from < 0 || from >= s.len() {
        s.len() as int
    } else if s[from] == c {
        from
    } else {
        char_from(s, c, from + 1)
    }
}

/// What `str::lines` yields for a text: its lines, without their line
/// ends.
pub uninterp spec fn text_lines(text: Seq<char>) -> Seq<Seq<char>>;

/// The texts of a list of strings.
pub open spec fn texts(items: Seq<String>) -> Seq<Seq<char>> {
    Seq::new(items.len(), |i: int| items[i]@)
}

/// The first `n` of the lines, with a line feed between each two.
pub open spec fn joined(lines: Seq<Seq<char>>, n: nat) -> Seq<char>
    decreases n,
{
    if n == 0 || n > lines.len() {
        Seq::empty()
    } else if n == 1 {
        lines[0]
    } else {
        joined(lines, (n - 1) as nat) + "\n"@ + lines[n - 1]
    }
}

/// The text of a digit.
pub open spec fn digit_text(d: nat) -> Seq<char> {
    if d == 0 {
        "0"@
    } else if d == 1 {
        "1"@
    } else if d == 2 {
        "2"@
    } else if d == 3 {
        "3"@
    } else if d == 4 {
        "4"@
    } else if d == 5 {
        "5"@
    } else if d == 6 {
        "6"@
    } else if d == 7 {
        "7"@
    } else if d == 8 {
        "8"@
    } else {
        "9"@
    }
}

/// A number in decimal digits, without leading zeros.
pub open spec fn decimal_text(n: nat) -> Seq<char>
    decreases n,
{
    if n < 10 {
        digit_text(n)
    } else {
        decimal_text(n / 10) + digit_text(n % 10)
    }
}

/// The text of a digit is that one digit.
pub proof fn lemma_digit_text(d: nat)
    requires
        d < 10,
    ensures
        digit_text(d).len() == 1,
        '0' <= digit_text(d)[0] && digit_text(d)[0] <= '9',
        digit_text(d)[0] as u32 - '0' as u32 == d,
        digits_value(digit_text(d)) == Some(d),
{
    reveal_strlit("0");
    reveal_strlit("1");
    reveal_strlit("2");
    reveal_strlit("3");
    reveal_strlit("4");
    reveal_strlit("5");
    reveal_strlit("6");
    reveal_strlit("7");
    reveal_strlit("8");
    reveal_strlit("9");
}

/// A number written in decimal digits is read back as that number.
pub proof fn lemma_decimal_is_read_back(n: nat)
    ensures
        decimal_text(n).len() >= 1,
        decimal_text(n)[0] != '+',
        digits_value(decimal_text(n)) == Some(n),
        n <= usize::MAX ==> parsed_usize(decimal_text(n)) == Some(n as usize),
    decreases n,
{
    if n < 10 {
        lemma_digit_text(n);
    } else {
        lemma_decimal_is_read_back(n / 10);
        lemma_digit_text(n % 10);
        let head = decimal_text(n / 10);
        let text = decimal_text(n);
        assert(text == head + digit_text(n % 10));
        assert(text.len() == head.len() + 1);
        assert(text.last() == digit_text(n % 10)[0]);
        assert(text.drop_last() =~= head);
        assert(text[0] == head[0]);
    }
}

/// Whether `needle` stands somewhere in `haystack`.
pub open spec fn contains_text(haystack: Seq<char>, needle: Seq<char>) -> bool {
    exists|i: int|
        0 <= i && i + needle.len() <= haystack.len() && #[trigger] haystack.subrange(
            i,
            i + needle.len(),
        ) == needle
}

/// The text of a digit.
fn digit(d: u64) -> (r: &'static str)
    requires
        d < 10,
    ensures
        r@ == digit_text(d as nat),
{
    if d == 0 {
        "0"
    } else if d == 1 {
        "1"
    } else if d == 2 {
        "2"
    } else if d == 3 {
        "3"
    } else if d == 4 {
        "4"
    } else if d == 5 {
        "5"
    } else if d == 6 {
        "6"
    } else if d == 7 {
        "7"
    } else if d == 8 {
        "8"
    } else {
        "9"
    }
}

/// A number in decimal digits.
pub fn decimal(n: u64) -> (r: String)
    ensures
        r@ == decimal_text(n as nat),
    decreases n,
{
    if n < 10 {
        digit(n).to_string()
    } else {
        let mut text = decimal(n / 10);
        text.append(digit(n % 10));
        text
    }
}

/// The place of the first `c` at or after `from`, or the length of the
/// text where there is none.
pub fn find_char(text: &str, c: char, from: usize) -> (i: usize)
    requires
        from <= text@.len(),
    ensures
        i == char_from(text@, c, from as int),
        from <= i <= text@.len(),
{
    let len = text.unicode_len();
    let mut i: usize = from;
    while i < len
        invariant
            from <= i <= len,
            len == text@.len(),
            char_from(text@, c, from as int) == char_from(text@, c, i as int),
        decreases len - i,
    {
        if text.get_char(i) == c {
            return i;
        }
        i += 1;
    }
    i
}

/// The lines with a line feed between each two.
pub fn join_lines(lines: &Vec<String>) -> (r: String)
    ensures
        r@ == joined(texts(lines@), lines@.len()),
{
    let mut text = String::new();
    let mut i: usize = 0;
    assert(text@ =~= joined(texts(lines@), 0));
    while i < lines.len()
        invariant
            i <= lines.len(),
            text@ == joined(texts(lines@), i as nat),
        decreases lines.len() - i,
    {
        if i > 0 {
            text.append("\n");
        }
        text.append(lines[i].as_str());
        i += 1;
        assert(text@ =~= joined(texts(lines@), i as nat));
    }
    text
}

/// `str::lines`, gathered: the lines of the text.
#[verifier::external_body]
pub(crate) fn split_lines(text: &str) -> (r: Vec<String>)
    ensures
        texts(r@) == text_lines(text@),
{
    text.lines().map(|line| line.to_string()).collect()
}

/// `str`'s `==`: whether two texts hold the same characters.
#[verifier::external_body]
pub(crate) fn same_text(a: &str, b: &str) -> (r: bool)
    ensures
        r == (a@ == b@),
{
    a == b
}

/// `str::trim`: the text without leading and trailing white space.
#[verifier::external_body]
pub(crate) fn trim(text: &str) -> (r: &str)
    ensures
        r@ == trimmed(text@),
{
    text.trim()
}

/// `str::to_lowercase`: the text in lower case.
#[verifier::external_body]
pub(crate) fn to_lowercase(text: &str) -> (r: String)
    ensures
        r@ == lowercased(text@),
{
    text.to_lowercase()
}

/// `str::contains` with a text as the pattern: whether the pattern matches
/// a part of the text.
#[verifier::external_body]
pub(crate) fn contains(haystack: &str, needle: &str) -> (r: bool)
    ensures
        r == contains_text(haystack@, needle@),
{
    haystack.contains(needle)
}

/// `str::starts_with` with a text as the pattern: whether the text begins
/// with the pattern.
#[verifier::external_body]
pub(crate) fn starts_with(text: &str, prefix: &str) -> (r: bool)
    ensures
        r == prefix@.is_prefix_of(text@),
{
    text.starts_with(prefix)
}

/// `str::parse` at `usize`: the number that the text spells. The text may
/// hold an optional `+` and then only decimal digits; anything else, and a
/// number that does not fit, is an error.
#[verifier::external_body]
pub(crate) fn parse_usize(text: &str) -> (r: Option<usize>)
    ensures
        r == parsed_usize(text@),
{
    text.parse::<usize>().ok()
}

/// `std::path::Path::file_name`, for a path that is a text: its final
/// component, if it has one. What counts as a component goes by the
/// machine's rules for paths, so nothing is stated of the result.
#[verifier::external_body]
pub(crate) fn file_name(path: &str) -> Option<String> {
    std::path::Path::new(path).file_name().and_then(|n| n.to_str()).map(|n| n.to_string())
}

} // verus!
