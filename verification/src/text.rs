//! Small helpers on strings that the rest of the crate shares.

use vstd::prelude::*;
use vstd::string::*;

verus! {

/// Whether two string slices hold the same text.
pub fn same_text(a: &str, b: &str) -> (same: bool)
    ensures
        same == (a@ == b@),
{
    let left = a.as_bytes();
    let right = b.as_bytes();
    proof {
        // Texts are equal exactly when their encodings are.
        vstd::utf8::encode_utf8_decode_utf8(a@);
        vstd::utf8::encode_utf8_decode_utf8(b@);
    }
    if left.len() != right.len() {
        return false;
    }
    let mut i: usize = 0;
    while i < left.len()
        invariant
            i <= left@.len(),
            left@.len() == right@.len(),
            left@ == vstd::utf8::encode_utf8(a@),
            right@ == vstd::utf8::encode_utf8(b@),
            forall|k: int| 0 <= k < i ==> left@[k] == right@[k],
        decreases left.len() - i,
    {
        if left[i] != right[i] {
            return false;
        }
        i = i + 1;
    }
    assert(left@ =~= right@);
    true
}

/// Trusted: `String::push` of the standard library. The contract claims
/// what the documentation says: the character is appended to the end of the
/// string.
pub assume_specification[ String::push ](text: &mut String, c: char)
    ensures
        final(text)@ == old(text)@.push(c),
;

/// The text of the characters of `chars` from `from` to `to`.
pub fn text_between(chars: &Vec<char>, from: usize, to: usize) -> (text: String)
    requires
        from <= to <= chars@.len(),
    ensures
        text@ == chars@.subrange(from as int, to as int),
{
    let mut text = String::new();
    let mut i = from;
    while i < to
        invariant
            from <= i <= to <= chars@.len(),
            text@ == chars@.subrange(from as int, i as int),
        decreases to - i,
    {
        text.push(chars[i]);
        i = i + 1;
        assert(text@ =~= chars@.subrange(from as int, i as int));
    }
    text
}

/// A copy of an optional string.
pub fn clone_opt_text(text: &Option<String>) -> (copy: Option<String>)
    ensures
        copy == *text,
{
    match text {
        Some(s) => Some(s.clone()),
        None => None,
    }
}

/// `head` followed by `tail`, as a fresh string.
pub fn join_text(head: &str, tail: &str) -> (joined: String)
    ensures
        joined@ == head@ + tail@,
{
    let mut joined = String::from_str(head);
    joined.append(tail);
    joined
}

/// Whether `pattern` occurs in `s` at `at` and ends at or before `end`.
pub open spec fn occurs_at(s: Seq<char>, pattern: Seq<char>, at: int, end: int) -> bool {
    0 <= at && at + pattern.len() <= end <= s.len() && s.subrange(at, at + pattern.len())
        == pattern
}

/// The position of the first occurrence of `pattern` in `s` at or after
/// `from` that ends at or before `end`; `end` if there is none.
pub open spec fn find_pattern(s: Seq<char>, pattern: Seq<char>, from: int, end: int) -> int
    decreases end - from,
{
    if from >= end {
        end
    } else if occurs_at(s, pattern, from, end) {
        from
    } else {
        find_pattern(s, pattern, from + 1, end)
    }
}

/// The characters of `text`.
pub fn chars_of(text: &str) -> (chars: Vec<char>)
    ensures
        chars@ == text@,
{
    broadcast use vstd::string::group_string_axioms;

    let mut chars: Vec<char> = Vec::new();
    for c in it: text.chars()
        invariant
            chars@ == it.seq().take(it.index()),
            it.seq() == text@,
    {
        chars.push(c);
    }
    chars
}

/// Whether `pattern` occurs in `chars` at `at` and ends at or before `end`.
pub fn matches_at(chars: &Vec<char>, pattern: &Vec<char>, at: usize, end: usize) -> (found: bool)
    requires
        at <= end <= chars@.len(),
    ensures
        found == occurs_at(chars@, pattern@, at as int, end as int),
{
    if pattern.len() > end - at {
        return false;
    }
    let mut k: usize = 0;
    while k < pattern.len()
        invariant
            k <= pattern@.len(),
            at + pattern@.len() <= end <= chars@.len(),
            forall|j: int| 0 <= j < k ==> chars@[at + j] == pattern@[j],
        decreases pattern.len() - k,
    {
        if chars[at + k] != pattern[k] {
            assert(chars@.subrange(at as int, at + pattern@.len())[k as int] != pattern@[k as int]);
            return false;
        }
        k = k + 1;
    }
    assert(chars@.subrange(at as int, at + pattern@.len()) =~= pattern@);
    true
}

/// The position of the first occurrence of `pattern` in `chars` at or after
/// `from` that ends at or before `end`; `end` if there is none.
pub fn find(chars: &Vec<char>, pattern: &Vec<char>, from: usize, end: usize) -> (at: usize)
    requires
        from <= end <= chars@.len(),
    ensures
        from <= at <= end,
        at == find_pattern(chars@, pattern@, from as int, end as int),
{
    let mut i = from;
    while i < end
        invariant
            from <= i <= end <= chars@.len(),
            find_pattern(chars@, pattern@, from as int, end as int) == find_pattern(
                chars@,
                pattern@,
                i as int,
                end as int,
            ),
        decreases end - i,
    {
        if matches_at(chars, pattern, i, end) {
            return i;
        }
        i = i + 1;
    }
    end
}

/// Whether `needle` occurs somewhere in `haystack`.
pub open spec fn spec_contains_text(haystack: Seq<char>, needle: Seq<char>) -> bool {
    exists|at: int| occurs_at(haystack, needle, at, haystack.len() as int)
}

/// `find_pattern` finds the first occurrence: the pattern occurs where it
/// points, unless it points at `end`, and nowhere from `from` up to there.
pub proof fn lemma_find_pattern(s: Seq<char>, pattern: Seq<char>, from: int, end: int)
    requires
        0 <= from <= end <= s.len(),
    ensures
        from <= find_pattern(s, pattern, from, end) <= end,
        find_pattern(s, pattern, from, end) < end ==> occurs_at(
            s,
            pattern,
            find_pattern(s, pattern, from, end),
            end,
        ),
        forall|i: int|
            from <= i < find_pattern(s, pattern, from, end) ==> !occurs_at(s, pattern, i, end),
    decreases end - from,
{
    if from < end && !occurs_at(s, pattern, from, end) {
        lemma_find_pattern(s, pattern, from + 1, end);
    }
}

/// Whether `needle` occurs somewhere in `haystack`.
pub fn contains_text(haystack: &str, needle: &str) -> (found: bool)
    ensures
        found == spec_contains_text(haystack@, needle@),
{
    let chars = chars_of(haystack);
    let pattern = chars_of(needle);
    let ghost len = chars@.len() as int;
    if pattern.len() == 0 {
        assert(occurs_at(chars@, pattern@, 0, len)) by {
            assert(chars@.subrange(0, 0) =~= pattern@);
        }
        return true;
    }
    let at = find(&chars, &pattern, 0, chars.len());
    proof {
        lemma_find_pattern(chars@, pattern@, 0, len);
        if at == chars.len() {
            // An occurrence of a pattern that is not empty starts before the end.
            assert forall|i: int| !occurs_at(chars@, pattern@, i, len) by {}
        }
    }
    at < chars.len()
}

/// The decimal digit for `d`.
pub open spec fn decimal_digit(d: nat) -> char
    recommends
        d < 10,
{
    seq!['0', '1', '2', '3', '4', '5', '6', '7', '8', '9'][d as int]
}

/// `n` in decimal, without leading zeros.
pub open spec fn decimal_text(n: nat) -> Seq<char>
    decreases n,
{
    if n < 10 {
        seq![decimal_digit(n)]
    } else {
        decimal_text(n / 10).push(decimal_digit(n % 10))
    }
}

fn decimal_digit_text(d: u8) -> (text: &'static str)
    requires
        d < 10,
    ensures
        text@ == seq![decimal_digit(d as nat)],
{
    let text = match d {
        0 => "0",
        1 => "1",
        2 => "2",
        3 => "3",
        4 => "4",
        5 => "5",
        6 => "6",
        7 => "7",
        8 => "8",
        _ => "9",
    };
    proof {
        reveal_strlit("0");
        reveal_strlit("1");
        reveal_strlit("2");
        reveal_strlit("3");
        reveal_strlit("4");
        reveal_strlit("5");
        reveal_strlit("6");
        reveal_strlit("7");
        reveal_strlit("8");
        reveal_strlit("9");
        assert(text@ =~= seq![decimal_digit(d as nat)]);
    }
    text
}

/// Appends `n` in decimal to `out`.
pub fn push_decimal(out: &mut String, n: usize)
    ensures
        final(out)@ == old(out)@ + decimal_text(n as nat),
    decreases n,
{
    if n >= 10 {
        push_decimal(out, n / 10);
    }
    out.append(decimal_digit_text((n % 10) as u8));
    proof {
        if n >= 10 {
            assert(old(out)@ + decimal_text((n / 10) as nat) + seq![decimal_digit((n % 10) as nat)]
                =~= old(out)@ + decimal_text(n as nat));
        }
    }
}

} // verus!
