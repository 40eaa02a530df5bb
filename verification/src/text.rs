//! Text helpers that the rest of the library builds on: comparing and
//! searching strings by their characters, and writing an integer in decimal.

use vstd::prelude::*;

verus! {

/// The characters of a string slice, in order.
pub fn chars_of(text: &str) -> (chars: Vec<char>)
    ensures
        chars@ == text@,
{
    let mut chars: Vec<char> = Vec::new();
    for c in it: text.chars()
        invariant
            chars@ == it.seq().take(it.index() as int),
            it.seq() == text@,
    {
        chars.push(c);
    }
    chars
}

/// Whether two string slices hold the same characters.
pub fn same_text(left: &str, right: &str) -> (same: bool)
    ensures
        same == (left@ == right@),
{
    let left_chars = chars_of(left);
    let right_chars = chars_of(right);
    if left_chars.len() != right_chars.len() {
        return false;
    }
    let mut at: usize = 0;
    while at < left_chars.len()
        invariant
            at <= left_chars.len(),
            left_chars.len() == right_chars.len(),
            left_chars@ == left@,
            right_chars@ == right@,
            forall|k: int| 0 <= k < at ==> left_chars@[k] == right_chars@[k],
        decreases left_chars.len() - at,
    {
        if left_chars[at] != right_chars[at] {
            return false;
        }
        at += 1;
    }
    assert(left_chars@ =~= right_chars@);
    true
}

/// Whether `pattern` stands in `text` at index `at`.
pub open spec fn occurs_at(text: Seq<char>, pattern: Seq<char>, at: int) -> bool {
    &&& 0 <= at
    &&& at + pattern.len() <= text.len()
    &&& text.subrange(at, at + pattern.len()) == pattern
}

/// Where `pattern` first occurs in `text` at or after `from`, if it does.
pub open spec fn first_occurrence(text: Seq<char>, pattern: Seq<char>, from: int) -> Option<int>
    decreases text.len() + 1 - from,
{
    if from < 0 || from + pattern.len() > text.len() {
        None
    } else if occurs_at(text, pattern, from) {
        Some(from)
    } else {
        first_occurrence(text, pattern, from + 1)
    }
}

/// Whether `found` is the least index at or after `from` at which `pattern`
/// occurs in `text`, or `None` where there is no such index.
pub open spec fn is_first_occurrence(
    text: Seq<char>,
    pattern: Seq<char>,
    from: int,
    found: Option<int>,
) -> bool {
    match found {
        Some(at) => {
            &&& from <= at
            &&& occurs_at(text, pattern, at)
            &&& forall|earlier: int| from <= earlier < at ==> !occurs_at(text, pattern, earlier)
        },
        None => forall|at: int| from <= at ==> !occurs_at(text, pattern, at),
    }
}

/// The first occurrence is the least index at which the pattern occurs.
pub proof fn lemma_first_occurrence_is_least(text: Seq<char>, pattern: Seq<char>, from: int)
    requires
        0 <= from,
    ensures
        is_first_occurrence(text, pattern, from, first_occurrence(text, pattern, from)),
    decreases text.len() + 1 - from,
{
    if from + pattern.len() > text.len() {
    } else if occurs_at(text, pattern, from) {
    } else {
        lemma_first_occurrence_is_least(text, pattern, from + 1);
    }
}

/// The index that a search may have found, as an integer.
pub open spec fn index_view(found: Option<usize>) -> Option<int> {
    match found {
        Some(at) => Some(at as int),
        None => None,
    }
}

/// Whether `pattern` stands in `text` at index `at`.
fn check_occurrence(text: &Vec<char>, pattern: &Vec<char>, at: usize) -> (occurs: bool)
    requires
        at + pattern.len() <= text.len(),
    ensures
        occurs == occurs_at(text@, pattern@, at as int),
{
    let mut k: usize = 0;
    while k < pattern.len()
        invariant
            k <= pattern.len(),
            at + pattern.len() <= text.len(),
            forall|j: int| 0 <= j < k ==> text@[at + j] == pattern@[j],
        decreases pattern.len() - k,
    {
        if text[at + k] != pattern[k] {
            return false;
        }
        k += 1;
    }
    assert(text@.subrange(at as int, at + pattern.len()) =~= pattern@);
    true
}

/// Finds where `pattern` first occurs in `text` at or after `from`: the
/// least such index, or `None` where there is none.
pub fn find_from(text: &Vec<char>, pattern: &Vec<char>, from: usize) -> (found: Option<usize>)
    ensures
        index_view(found) == first_occurrence(text@, pattern@, from as int),
        is_first_occurrence(text@, pattern@, from as int, index_view(found)),
{
    proof {
        lemma_first_occurrence_is_least(text@, pattern@, from as int);
    }
    if pattern.len() > text.len() || from > text.len() - pattern.len() {
        return None;
    }
    let last: usize = text.len() - pattern.len();
    let mut at: usize = from;
    loop
        invariant
            from <= at <= last,
            last == text.len() - pattern.len(),
            is_first_occurrence(
                text@,
                pattern@,
                from as int,
                first_occurrence(text@, pattern@, from as int),
            ),
            first_occurrence(text@, pattern@, from as int) == first_occurrence(
                text@,
                pattern@,
                at as int,
            ),
        decreases last - at,
    {
        if check_occurrence(text, pattern, at) {
            return Some(at);
        }
        if at == last {
            return None;
        }
        at += 1;
    }
}

/// The character that writes a digit.
pub open spec fn digit_char(digit: nat) -> char {
    seq!['0', '1', '2', '3', '4', '5', '6', '7', '8', '9'][digit as int]
}

/// A natural number in decimal, without leading zeros.
pub open spec fn decimal_digits(value: nat) -> Seq<char>
    decreases value,
{
    if value < 10 {
        seq![digit_char(value)]
    } else {
        decimal_digits(value / 10).push(digit_char(value % 10))
    }
}

/// An integer in decimal, with a minus sign where it is negative.
pub open spec fn decimal(value: int) -> Seq<char> {
    if value < 0 {
        seq!['-'] + decimal_digits((-value) as nat)
    } else {
        decimal_digits(value as nat)
    }
}

/// The digit that a character writes, zero for any other character.
pub open spec fn digit_value(c: char) -> nat {
    if c == '1' {
        1
    } else if c == '2' {
        2
    } else if c == '3' {
        3
    } else if c == '4' {
        4
    } else if c == '5' {
        5
    } else if c == '6' {
        6
    } else if c == '7' {
        7
    } else if c == '8' {
        8
    } else if c == '9' {
        9
    } else {
        0
    }
}

/// The number that a run of digits writes.
pub open spec fn digits_value(digits: Seq<char>) -> nat
    decreases digits.len(),
{
    if digits.len() == 0 {
        0
    } else {
        digits_value(digits.drop_last()) * 10 + digit_value(digits.last())
    }
}

/// The decimal digits of a number write that number, and hold no sign.
pub proof fn lemma_decimal_digits_value(value: nat)
    ensures
        digits_value(decimal_digits(value)) == value,
        decimal_digits(value).len() >= 1,
        decimal_digits(value)[0] != '-',
    decreases value,
{
    if value < 10 {
        assert(digits_value(decimal_digits(value).drop_last()) == 0);
    } else {
        lemma_decimal_digits_value(value / 10);
        assert(decimal_digits(value).drop_last() =~= decimal_digits(value / 10));
    }
}

/// Two integers that read the same in decimal are the same integer.
pub proof fn lemma_decimal_injective(first: int, second: int)
    requires
        decimal(first) == decimal(second),
    ensures
        first == second,
{
    let first_size = if first < 0 { (-first) as nat } else { first as nat };
    let second_size = if second < 0 { (-second) as nat } else { second as nat };
    lemma_decimal_digits_value(first_size);
    lemma_decimal_digits_value(second_size);
    if first < 0 {
        assert(decimal(first).subrange(1, decimal(first).len() as int) =~= decimal_digits(
            first_size,
        ));
        assert(decimal(second).subrange(1, decimal(second).len() as int) =~= decimal_digits(
            second_size,
        ));
    }
}

fn digit_text(digit: u32) -> (text: &'static str)
    requires
        digit < 10,
    ensures
        text@ == seq![digit_char(digit as nat)],
{
    proof {
        reveal_strlit("0");
        reveal_strlit("1");
        reveal_strlit("2");
        reveal_strlit("3");
        reveal_strlit("4");
        reveal_strlit("5");
        reveal_strlit("6");
        reveal_strlit("7");
        reveal_strlit("8");
        reveal_strlit("9");
    }
    match digit {
        0 => "0",
        1 => "1",
        2 => "2",
        3 => "3",
        4 => "4",
        5 => "5",
        6 => "6",
        7 => "7",
        8 => "8",
        _ => "9",
    }
}

/// Appends a natural number in decimal to a string.
fn append_digits(text: &mut String, value: u32)
    ensures
        final(text)@ == old(text)@ + decimal_digits(value as nat),
    decreases value,
{
    if value < 10 {
        text.append(digit_text(value));
    } else {
        append_digits(text, value / 10);
        text.append(digit_text(value % 10));
    }
}

/// Appends an integer in decimal to a string.
pub fn append_decimal(text: &mut String, value: i32)
    ensures
        final(text)@ == old(text)@ + decimal(value as int),
{
    if value < 0 {
        proof {
            reveal_strlit("-");
        }
        text.append("-");
        let magnitude: u32 = (-(value as i64)) as u32;
        append_digits(text, magnitude);
    } else {
        append_digits(text, value as u32);
    }
}

} // verus!
