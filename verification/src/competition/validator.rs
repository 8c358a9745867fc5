//! Solution validation: what is checked, and how the tools' output is read.

use vstd::prelude::*;
use vstd::string::*;
use crate::competition::{CompetitorSolution, DiffStats, ValidationResult};
use crate::error::RembrandtError;
use crate::text::{chars_of, find, find_pattern, text_between};

verus! {

/// Validator for running type checks and tests on solutions.
#[derive(Debug)]
pub struct SolutionValidator {
    /// Base branch to compare against for diff stats.
    base_branch: String,
}

impl SolutionValidator {
    pub closed spec fn spec_base_branch(&self) -> Seq<char> {
        self.base_branch@
    }

    /// A validator that compares solutions against `base_branch`.
    pub fn new(base_branch: String) -> (validator: Self)
        ensures
            validator.spec_base_branch() == base_branch@,
    {
        SolutionValidator { base_branch }
    }

    /// The branch that solutions are compared against.
    pub fn base_branch(&self) -> (branch: &str)
        ensures
            branch@ == self.spec_base_branch(),
    {
        self.base_branch.as_str()
    }

    /// The result of validating `solution`, given what the type check and
    /// the tests came to and how long both took.
    pub fn validate(
        &self,
        solution: &CompetitorSolution,
        type_check: (bool, Option<String>),
        tests: (bool, Option<String>, Option<usize>, Option<usize>),
        validation_time_ms: u64,
    ) -> (result: ValidationResult)
        ensures
            result.agent_id == solution.agent_id,
            result.type_check_passed == type_check.0,
            result.type_check_output == type_check.1,
            result.tests_passed == tests.0,
            result.tests_output == tests.1,
            result.test_count == tests.2,
            result.test_failures == tests.3,
            result.validation_time_ms == validation_time_ms,
            result.error_message is None,
    {
        ValidationResult {
            agent_id: solution.agent_id.clone(),
            type_check_passed: type_check.0,
            type_check_output: type_check.1,
            tests_passed: tests.0,
            tests_output: tests.1,
            test_count: tests.2,
            test_failures: tests.3,
            validation_time_ms,
            error_message: None,
        }
    }

    /// The statistics of a solution, given the output of
    /// `git diff --stat --numstat` over [`Self::diff_range`] (see
    /// [`parse_git_diff_stat`]).
    pub fn calculate_diff_stats(&self, numstat: &str) -> (stats: Result<DiffStats, RembrandtError>)
        ensures
            ({
                let entries = numstat_entries(numstat@, 0);
                match stats {
                    Ok(s) => {
                        &&& s.insertions == total_insertions(entries)
                        &&& s.deletions == total_deletions(entries)
                        &&& s.files_changed == entries.len()
                        &&& file_texts(s.files_modified@) == entry_files(entries)
                        &&& s.files_added@.len() == 0
                        &&& s.files_deleted@.len() == 0
                    },
                    Err(error) => error is Competition && (total_insertions(entries) > usize::MAX
                        || total_deletions(entries) > usize::MAX),
                }
            }),
    {
        parse_git_diff_stat(numstat)
    }

    /// The revision range whose diff describes a solution:
    /// `<base_branch>..HEAD`.
    pub fn diff_range(&self) -> (range: String)
        ensures
            range@ == self.spec_base_branch() + "..HEAD"@,
    {
        crate::text::join_text(self.base_branch.as_str(), "..HEAD")
    }
}

/// The tool that checks the types of a project.
#[derive(Debug, Clone, Copy, PartialEq, Eq, Structural)]
pub enum TypeChecker {
    /// `cargo check --message-format=short`, for a Rust project.
    Cargo,
    /// `npx tsc --noEmit`, for a TypeScript project.
    Tsc,
    /// Nothing is configured for the project; the check counts as passed.
    Unchecked,
}

/// The tool that runs the tests of a project.
#[derive(Debug, Clone, Copy, PartialEq, Eq, Structural)]
pub enum TestRunner {
    /// `cargo test -- --format=terse`, for a Rust project.
    Cargo,
    /// `npm test -- --passWithNoTests`, for a Node.js project.
    Npm,
    /// Nothing is configured for the project; the tests count as passed.
    Untested,
}

/// What is reported for a JavaScript project, which has no type check.
pub const NO_TYPE_CHECK_FOR_JS: &'static str = "No type check configured for JS project";

/// What is reported for a project of unknown type.
pub const NO_TYPE_CHECK: &'static str = "No type check configured";

/// What is reported for a project without a test runner.
pub const NO_TEST_RUNNER: &'static str = "No test runner configured";

impl TypeChecker {
    /// The type checker for a project, given which of `Cargo.toml` and
    /// `tsconfig.json` it holds: a Rust project is checked with cargo, a
    /// TypeScript project with tsc, and no other project is checked.
    pub fn for_project(has_cargo_toml: bool, has_tsconfig: bool) -> (checker: TypeChecker)
        ensures
            checker == if has_cargo_toml {
                TypeChecker::Cargo
            } else if has_tsconfig {
                TypeChecker::Tsc
            } else {
                TypeChecker::Unchecked
            },
    {
        if has_cargo_toml {
            TypeChecker::Cargo
        } else if has_tsconfig {
            TypeChecker::Tsc
        } else {
            TypeChecker::Unchecked
        }
    }

    /// What is reported for a project that is not checked, given whether it
    /// holds a `package.json`.
    pub fn unchecked_note(has_package_json: bool) -> (note: &'static str)
        ensures
            note@ == if has_package_json {
                NO_TYPE_CHECK_FOR_JS@
            } else {
                NO_TYPE_CHECK@
            },
    {
        if has_package_json {
            NO_TYPE_CHECK_FOR_JS
        } else {
            NO_TYPE_CHECK
        }
    }
}

impl TestRunner {
    /// The test runner for a project, given which of `Cargo.toml` and
    /// `package.json` it holds: a Rust project is tested with cargo, a
    /// Node.js project with npm, and no other project is tested.
    pub fn for_project(has_cargo_toml: bool, has_package_json: bool) -> (runner: TestRunner)
        ensures
            runner == if has_cargo_toml {
                TestRunner::Cargo
            } else if has_package_json {
                TestRunner::Npm
            } else {
                TestRunner::Untested
            },
    {
        if has_cargo_toml {
            TestRunner::Cargo
        } else if has_package_json {
            TestRunner::Npm
        } else {
            TestRunner::Untested
        }
    }
}

/// What a tool printed, as it is kept: its standard output, a line feed
/// and its standard error.
pub fn combined_output(stdout: &str, stderr: &str) -> (combined: String)
    ensures
        combined@ == stdout@ + "\n"@ + stderr@,
{
    let mut combined = String::from_str(stdout);
    combined.append("\n");
    combined.append(stderr);
    combined
}

/// The result of a test run with cargo, given whether the tool succeeded
/// and what it printed: whether the tests passed, the output, and the
/// counts that the output reports (see [`parse_cargo_test_output`]).
pub fn cargo_test_result(success: bool, stdout: &str, stderr: &str) -> (result: (
    bool,
    Option<String>,
    Option<usize>,
    Option<usize>,
))
    ensures
        result.0 == success,
        result.1 matches Some(output) && output@ == stdout@ + "\n"@ + stderr@,
        match test_summary(stdout@ + "\n"@ + stderr@, 0) {
            Some((run, failed)) => {
                &&& result.3 == Some(failed as usize)
                &&& failed <= usize::MAX
                &&& match run {
                    Some(n) => result.2 == Some(n as usize) && n <= usize::MAX,
                    None => result.2 is None,
                }
            },
            None => result.2 is None && result.3 is None,
        },
{
    let combined = combined_output(stdout, stderr);
    let (count, failures) = parse_cargo_test_output(combined.as_str());
    (success, Some(combined), count, failures)
}

/// Whether `c` is white space: a character with the Unicode property
/// `White_Space`.
pub open spec fn is_space(c: char) -> bool {
    let code = c as u32;
    (0x09 <= code <= 0x0d) || code == 0x20 || code == 0x85 || code == 0xa0 || code == 0x1680 || (
    0x2000 <= code <= 0x200a) || code == 0x2028 || code == 0x2029 || code == 0x202f || code
        == 0x205f || code == 0x3000
}

/// Whether `c` is white space.
pub fn is_whitespace(c: char) -> (space: bool)
    ensures
        space == is_space(c),
{
    let code = c as u32;
    (0x09 <= code && code <= 0x0d) || code == 0x20 || code == 0x85 || code == 0xa0 || code
        == 0x1680 || (0x2000 <= code && code <= 0x200a) || code == 0x2028 || code == 0x2029
        || code == 0x202f || code == 0x205f || code == 0x3000
}

/// Whether `c` is one of the digits `0` to `9`.
pub open spec fn is_digit(c: char) -> bool {
    0x30 <= c as u32 <= 0x39
}

/// The value of the digit `c`.
pub open spec fn digit_value(c: char) -> nat {
    if is_digit(c) {
        (c as u32 - 0x30) as nat
    } else {
        0
    }
}

/// The number that the decimal digits `digits` stand for.
pub open spec fn digits_value(digits: Seq<char>) -> nat
    decreases digits.len(),
{
    if digits.len() == 0 {
        0
    } else {
        10 * digits_value(digits.drop_last()) + digit_value(digits.last())
    }
}

/// Whether all of `digits` are digits.
pub open spec fn all_digits(digits: Seq<char>) -> bool {
    forall|i: int| 0 <= i < digits.len() ==> is_digit(#[trigger] digits[i])
}

/// The digits of a count: the word without a leading `+`.
pub open spec fn count_digits(word: Seq<char>) -> Seq<char> {
    if word.len() > 0 && word[0] == '+' {
        word.skip(1)
    } else {
        word
    }
}

/// The count that `word` denotes: an optional `+` followed by at least one
/// decimal digit and nothing else, within the range of `usize`.
pub open spec fn count_of(word: Seq<char>) -> Option<nat> {
    let digits = count_digits(word);
    if digits.len() > 0 && all_digits(digits) && digits_value(digits) <= usize::MAX {
        Some(digits_value(digits))
    } else {
        None
    }
}

/// The end of the line that starts at `from`: the position of the next
/// line feed, or the end of the text.
pub open spec fn line_end(s: Seq<char>, from: int) -> int
    decreases s.len() - from,
{
    if from >= s.len() || s[from] == '\n' {
        from
    } else {
        line_end(s, from + 1)
    }
}

/// The start of the next word at or after `from` and before `end`: the
/// position of the first character that is not white space, or `end`.
pub open spec fn word_start(s: Seq<char>, from: int, end: int) -> int
    decreases end - from,
{
    if from >= end || !is_space(s[from]) {
        from
    } else {
        word_start(s, from + 1, end)
    }
}

/// The end of the word that starts at `from`: the position of the first
/// white space at or after `from` and before `end`, or `end`.
pub open spec fn word_end(s: Seq<char>, from: int, end: int) -> int
    decreases end - from,
{
    if from >= end || is_space(s[from]) {
        from
    } else {
        word_end(s, from + 1, end)
    }
}

/// One line of `git diff --numstat`, from `from` to `end`: the insertions,
/// the deletions and the file, if the line has three words of which the
/// first two are counts.
pub open spec fn numstat_line(s: Seq<char>, from: int, end: int) -> Option<(nat, nat, Seq<char>)> {
    let a0 = word_start(s, from, end);
    let a1 = word_end(s, a0, end);
    let b0 = word_start(s, a1, end);
    let b1 = word_end(s, b0, end);
    let c0 = word_start(s, b1, end);
    let c1 = word_end(s, c0, end);
    if c0 < end && count_of(s.subrange(a0, a1)) is Some && count_of(s.subrange(b0, b1)) is Some {
        Some((count_of(s.subrange(a0, a1))->0, count_of(s.subrange(b0, b1))->0, s.subrange(c0, c1)))
    } else {
        None
    }
}

/// The entries of the lines of `s` from `from` on, in order.
pub open spec fn numstat_entries(s: Seq<char>, from: int) -> Seq<(nat, nat, Seq<char>)>
    decreases s.len() - from,
{
    if from >= s.len() || from < 0 {
        Seq::empty()
    } else {
        let end = line_end(s, from);
        let rest = if from <= end < s.len() {
            numstat_entries(s, end + 1)
        } else {
            Seq::empty()
        };
        match numstat_line(s, from, end) {
            Some(entry) => seq![entry] + rest,
            None => rest,
        }
    }
}

/// The insertions of all `entries` together.
pub open spec fn total_insertions(entries: Seq<(nat, nat, Seq<char>)>) -> nat
    decreases entries.len(),
{
    if entries.len() == 0 {
        0
    } else {
        total_insertions(entries.drop_last()) + entries.last().0
    }
}

/// The deletions of all `entries` together.
pub open spec fn total_deletions(entries: Seq<(nat, nat, Seq<char>)>) -> nat
    decreases entries.len(),
{
    if entries.len() == 0 {
        0
    } else {
        total_deletions(entries.drop_last()) + entries.last().1
    }
}

/// The files of `entries`, in order.
pub open spec fn entry_files(entries: Seq<(nat, nat, Seq<char>)>) -> Seq<Seq<char>> {
    Seq::new(entries.len(), |i: int| entries[i].2)
}

/// The texts of `files`, in order.
pub open spec fn file_texts(files: Seq<String>) -> Seq<Seq<char>> {
    Seq::new(files.len(), |i: int| files[i]@)
}

/// The first count among the words from `from` to `end`, if there is one.
pub open spec fn first_count(s: Seq<char>, from: int, end: int) -> Option<nat>
    decreases end - from,
{
    let start = word_start(s, from, end);
    let stop = word_end(s, start, end);
    if start >= end || start < from {
        None
    } else if count_of(s.subrange(start, stop)) is Some {
        count_of(s.subrange(start, stop))
    } else if start < stop <= end {
        first_count(s, stop, end)
    } else {
        None
    }
}

/// The last word from `from` to `end`, as the positions of its start and
/// end, where `last` is the last word seen so far.
pub open spec fn last_word(s: Seq<char>, from: int, end: int, last: (int, int)) -> (int, int)
    decreases end - from,
{
    let start = word_start(s, from, end);
    let stop = word_end(s, start, end);
    if start >= end || start < from {
        last
    } else if start < stop <= end {
        last_word(s, stop, end, (start, stop))
    } else {
        last
    }
}

/// The text that announces the summary of a test run.
pub open spec fn summary_marker() -> Seq<char> {
    "test result:"@
}

/// The text that follows the number of failed tests.
pub open spec fn failed_marker() -> Seq<char> {
    "failed"@
}

/// The counts that the line from `from` to `end` reports, if it is the
/// summary of a test run: it holds `test result:` and a count. The first
/// count of the line is the number of tests that passed. The number of
/// failed tests is the last word before the first `failed`, or before the
/// end of the line where that word does not occur; if that is no count, no
/// test failed. The result is the number of tests run, where it is within
/// range, and the number that failed.
pub open spec fn summary_line(s: Seq<char>, from: int, end: int) -> Option<(Option<nat>, nat)> {
    if find_pattern(s, summary_marker(), from, end) < end {
        match first_count(s, from, end) {
            Some(passed) => {
                let cut = find_pattern(s, failed_marker(), from, end);
                let word = last_word(s, from, cut, (from, from));
                let failed = match count_of(s.subrange(word.0, word.1)) {
                    Some(n) => n,
                    None => 0,
                };
                Some(
                    (
                        if passed + failed <= usize::MAX {
                            Some(passed + failed)
                        } else {
                            None
                        },
                        failed,
                    ),
                )
            },
            None => None,
        }
    } else {
        None
    }
}

/// The counts of the first summary line among the lines of `s` from
/// `from` on.
pub open spec fn test_summary(s: Seq<char>, from: int) -> Option<(Option<nat>, nat)>
    decreases s.len() - from,
{
    if from >= s.len() || from < 0 {
        None
    } else {
        let end = line_end(s, from);
        if summary_line(s, from, end) is Some {
            summary_line(s, from, end)
        } else if from <= end < s.len() {
            test_summary(s, end + 1)
        } else {
            None
        }
    }
}

/// The value of a number of digits is at least the value of any of its
/// prefixes.
pub proof fn lemma_digits_value_grows(digits: Seq<char>, k: int)
    requires
        0 <= k <= digits.len(),
    ensures
        digits_value(digits.take(k)) <= digits_value(digits),
    decreases digits.len(),
{
    if k == digits.len() {
        assert(digits.take(k) =~= digits);
    } else {
        lemma_digits_value_grows(digits.drop_last(), k);
        assert(digits.drop_last().take(k) =~= digits.take(k));
    }
}

/// Totals only grow as entries are added.
pub proof fn lemma_totals_grow(head: Seq<(nat, nat, Seq<char>)>, tail: Seq<(nat, nat, Seq<char>)>)
    ensures
        total_insertions(head) <= total_insertions(head + tail),
        total_deletions(head) <= total_deletions(head + tail),
    decreases tail.len(),
{
    if tail.len() == 0 {
        assert(head + tail =~= head);
    } else {
        lemma_totals_grow(head, tail.drop_last());
        assert((head + tail).drop_last() =~= head + tail.drop_last());
        assert((head + tail).last() == tail.last());
    }
}

fn find_line_end(chars: &Vec<char>, from: usize) -> (end: usize)
    requires
        from <= chars@.len(),
    ensures
        from <= end <= chars@.len(),
        end == line_end(chars@, from as int),
{
    let mut i = from;
    while i < chars.len() && chars[i] != '\n'
        invariant
            from <= i <= chars@.len(),
            line_end(chars@, from as int) == line_end(chars@, i as int),
        decreases chars.len() - i,
    {
        i = i + 1;
    }
    i
}

fn skip_spaces(chars: &Vec<char>, from: usize, end: usize) -> (start: usize)
    requires
        from <= end <= chars@.len(),
    ensures
        from <= start <= end,
        start == word_start(chars@, from as int, end as int),
{
    let mut i = from;
    while i < end && is_whitespace(chars[i])
        invariant
            from <= i <= end <= chars@.len(),
            word_start(chars@, from as int, end as int) == word_start(chars@, i as int, end as int),
        decreases end - i,
    {
        i = i + 1;
    }
    i
}

fn skip_word(chars: &Vec<char>, from: usize, end: usize) -> (stop: usize)
    requires
        from <= end <= chars@.len(),
    ensures
        from <= stop <= end,
        stop == word_end(chars@, from as int, end as int),
        from < end && !is_space(chars@[from as int]) ==> stop > from,
{
    let mut i = from;
    while i < end && !is_whitespace(chars[i])
        invariant
            from <= i <= end <= chars@.len(),
            word_end(chars@, from as int, end as int) == word_end(chars@, i as int, end as int),
            from < end && !is_space(chars@[from as int]) && i == from ==> i < end && !is_space(
                chars@[i as int],
            ),
        decreases end - i,
    {
        i = i + 1;
    }
    i
}

/// The count that the word from `from` to `to` denotes (see [`count_of`]).
fn parse_count(chars: &Vec<char>, from: usize, to: usize) -> (count: Option<usize>)
    requires
        from <= to <= chars@.len(),
    ensures
        match count {
            Some(n) => count_of(chars@.subrange(from as int, to as int)) == Some(n as nat),
            None => count_of(chars@.subrange(from as int, to as int)) is None,
        },
{
    let ghost word = chars@.subrange(from as int, to as int);
    let start = if from < to && chars[from] == '+' {
        from + 1
    } else {
        from
    };
    let ghost digits = count_digits(word);
    assert(digits =~= chars@.subrange(start as int, to as int));
    if start == to {
        return None;
    }
    let mut value: usize = 0;
    let mut i = start;
    assert(digits.take(0) =~= Seq::<char>::empty());
    while i < to
        invariant
            start <= i <= to <= chars@.len(),
            start < to,
            word == chars@.subrange(from as int, to as int),
            digits == count_digits(word),
            digits == chars@.subrange(start as int, to as int),
            all_digits(digits.take(i - start)),
            value == digits_value(digits.take(i - start)),
        decreases to - i,
    {
        let code = chars[i] as u32;
        assert(digits[i - start] == chars@[i as int]);
        if code < 0x30 || code > 0x39 {
            assert(!is_digit(digits[i - start]));
            return None;
        }
        let digit = (code - 0x30) as usize;
        let ghost next = digits.take(i - start + 1);
        assert(next.drop_last() =~= digits.take(i - start));
        assert(next.last() == digits[i - start]);
        assert(is_digit(next.last()) && digit_value(next.last()) == digit);
        assert(all_digits(next)) by {
            assert forall|k: int| 0 <= k < next.len() implies is_digit(#[trigger] next[k]) by {
                if k < next.len() - 1 {
                    assert(next[k] == digits.take(i - start)[k]);
                }
            }
        }
        if value > (usize::MAX - digit) / 10 {
            proof {
                assert(digits_value(next) > usize::MAX);
                lemma_digits_value_grows(digits, i - start + 1);
            }
            return None;
        }
        value = value * 10 + digit;
        i = i + 1;
    }
    assert(digits.take(to - start) =~= digits);
    Some(value)
}

fn find_first_count(chars: &Vec<char>, from: usize, end: usize) -> (count: Option<usize>)
    requires
        from <= end <= chars@.len(),
    ensures
        match count {
            Some(n) => first_count(chars@, from as int, end as int) == Some(n as nat),
            None => first_count(chars@, from as int, end as int) is None,
        },
{
    let mut pos = from;
    while pos < end
        invariant
            from <= pos <= end <= chars@.len(),
            first_count(chars@, from as int, end as int) == first_count(
                chars@,
                pos as int,
                end as int,
            ),
        decreases end - pos,
    {
        let start = skip_spaces(chars, pos, end);
        if start >= end {
            return None;
        }
        let stop = skip_word(chars, start, end);
        proof {
            lemma_word_start_is_word(chars@, pos as int, end as int);
        }
        match parse_count(chars, start, stop) {
            Some(n) => {
                return Some(n);
            },
            None => {},
        }
        pos = stop;
    }
    None
}

/// The next word starts at a character that is not white space.
pub proof fn lemma_word_start_is_word(s: Seq<char>, from: int, end: int)
    requires
        0 <= from <= end <= s.len(),
    ensures
        from <= word_start(s, from, end) <= end,
        word_start(s, from, end) < end ==> !is_space(s[word_start(s, from, end)]),
    decreases end - from,
{
    if from < end && is_space(s[from]) {
        lemma_word_start_is_word(s, from + 1, end);
    }
}

fn find_last_word(chars: &Vec<char>, from: usize, end: usize) -> (word: (usize, usize))
    requires
        from <= end <= chars@.len(),
    ensures
        from <= word.0 <= word.1 <= end,
        (word.0 as int, word.1 as int) == last_word(
            chars@,
            from as int,
            end as int,
            (from as int, from as int),
        ),
{
    let mut pos = from;
    let mut word: (usize, usize) = (from, from);
    while pos < end
        invariant
            from <= pos <= end <= chars@.len(),
            from <= word.0 <= word.1 <= end,
            last_word(chars@, from as int, end as int, (from as int, from as int)) == last_word(
                chars@,
                pos as int,
                end as int,
                (word.0 as int, word.1 as int),
            ),
        decreases end - pos,
    {
        let start = skip_spaces(chars, pos, end);
        if start >= end {
            return word;
        }
        let stop = skip_word(chars, start, end);
        proof {
            lemma_word_start_is_word(chars@, pos as int, end as int);
        }
        word = (start, stop);
        pos = stop;
    }
    word
}

/// Read the summary of a test run from the output of the test tool.
///
/// The first line that holds `test result:` and a count decides (see
/// [`summary_line`]). The result is the number of tests run, none if that
/// exceeds the range of `usize`, and the number of tests that failed; none
/// of either where the output has no summary.
pub fn parse_cargo_test_output(output: &str) -> (counts: (Option<usize>, Option<usize>))
    ensures
        match test_summary(output@, 0) {
            Some((run, failed)) => {
                &&& counts.1 == Some(failed as usize)
                &&& failed <= usize::MAX
                &&& match run {
                    Some(n) => counts.0 == Some(n as usize) && n <= usize::MAX,
                    None => counts.0 is None,
                }
            },
            None => counts.0 is None && counts.1 is None,
        },
{
    let chars = chars_of(output);
    let marker = chars_of("test result:");
    let failed_word = chars_of("failed");
    let mut pos: usize = 0;
    while pos < chars.len()
        invariant
            pos <= chars@.len(),
            chars@ == output@,
            marker@ == summary_marker(),
            failed_word@ == failed_marker(),
            test_summary(output@, 0) == test_summary(chars@, pos as int),
        decreases chars.len() - pos,
    {
        let end = find_line_end(&chars, pos);
        if find(&chars, &marker, pos, end) < end {
            match find_first_count(&chars, pos, end) {
                Some(passed) => {
                    let cut = find(&chars, &failed_word, pos, end);
                    let word = find_last_word(&chars, pos, cut);
                    let failed = match parse_count(&chars, word.0, word.1) {
                        Some(n) => n,
                        None => 0,
                    };
                    let run = if passed <= usize::MAX - failed {
                        Some(passed + failed)
                    } else {
                        None
                    };
                    return (run, Some(failed));
                },
                None => {},
            }
        }
        if end == chars.len() {
            return (None, None);
        }
        pos = end + 1;
    }
    (None, None)
}

/// Read the output of `git diff --numstat`.
///
/// Every line that has three words of which the first two are counts
/// stands for a modified file: its insertions, its deletions and its name.
/// Other lines are passed over. The result adds the lines up; it is a
/// `Competition` error where a total exceeds the range of `usize`.
pub fn parse_git_diff_stat(output: &str) -> (stats: Result<DiffStats, RembrandtError>)
    ensures
        ({
            let entries = numstat_entries(output@, 0);
            match stats {
                Ok(s) => {
                    &&& s.insertions == total_insertions(entries)
                    &&& s.deletions == total_deletions(entries)
                    &&& s.files_changed == entries.len()
                    &&& file_texts(s.files_modified@) == entry_files(entries)
                    &&& s.files_added@.len() == 0
                    &&& s.files_deleted@.len() == 0
                },
                Err(error) => error is Competition && (total_insertions(entries) > usize::MAX
                    || total_deletions(entries) > usize::MAX),
            }
        }),
{
    let chars = chars_of(output);
    let mut insertions: usize = 0;
    let mut deletions: usize = 0;
    let mut files_modified: Vec<String> = Vec::new();
    let mut pos: usize = 0;
    let ghost mut seen: Seq<(nat, nat, Seq<char>)> = Seq::empty();
    assert(seen + numstat_entries(chars@, 0) =~= numstat_entries(chars@, 0));
    while pos < chars.len()
        invariant
            pos <= chars@.len(),
            chars@ == output@,
            numstat_entries(output@, 0) == seen + numstat_entries(chars@, pos as int),
            insertions == total_insertions(seen),
            deletions == total_deletions(seen),
            files_modified@.len() == seen.len(),
            seen.len() <= pos,
            file_texts(files_modified@) == entry_files(seen),
        decreases chars.len() - pos,
    {
        let end = find_line_end(&chars, pos);
        let a0 = skip_spaces(&chars, pos, end);
        let a1 = skip_word(&chars, a0, end);
        let b0 = skip_spaces(&chars, a1, end);
        let b1 = skip_word(&chars, b0, end);
        let c0 = skip_spaces(&chars, b1, end);
        let c1 = skip_word(&chars, c0, end);
        let ghost rest = if end < chars@.len() {
            numstat_entries(chars@, end + 1)
        } else {
            Seq::empty()
        };
        if c0 < end {
            match (parse_count(&chars, a0, a1), parse_count(&chars, b0, b1)) {
                (Some(ins), Some(del)) => {
                    let ghost entry = (ins as nat, del as nat, chars@.subrange(c0 as int, c1 as int));
                    proof {
                        assert(numstat_line(chars@, pos as int, end as int) == Some(entry));
                        assert(seen + (seq![entry] + rest) =~= seen.push(entry) + rest);
                        assert(seen.push(entry).drop_last() =~= seen);
                        lemma_totals_grow(seen.push(entry), rest);
                    }
                    if insertions > usize::MAX - ins || deletions > usize::MAX - del {
                        return Err(
                            RembrandtError::Competition(
                                String::from_str("diff statistics exceed the range of counts"),
                            ),
                        );
                    }
                    insertions = insertions + ins;
                    deletions = deletions + del;
                    let name = text_between(&chars, c0, c1);
                    let ghost old_files = files_modified@;
                    let ghost old_seen = seen;
                    files_modified.push(name);
                    proof {
                        seen = seen.push(entry);
                        assert forall|k: int| 0 <= k < seen.len() implies file_texts(
                            files_modified@,
                        )[k] == entry_files(seen)[k] by {
                            if k < old_seen.len() {
                                assert(file_texts(old_files)[k] == entry_files(old_seen)[k]);
                            }
                        }
                        assert(file_texts(files_modified@) =~= entry_files(seen));
                    }
                },
                _ => {
                    assert(numstat_line(chars@, pos as int, end as int) is None);
                },
            }
        } else {
            assert(numstat_line(chars@, pos as int, end as int) is None);
        }
        if end == chars.len() {
            assert(numstat_entries(chars@, end as int) =~= Seq::empty());
            pos = end;
        } else {
            pos = end + 1;
        }
    }
    proof {
        assert(numstat_entries(chars@, pos as int) =~= Seq::empty());
        assert(seen + Seq::<(nat, nat, Seq<char>)>::empty() =~= seen);
    }
    Ok(
        DiffStats {
            files_changed: files_modified.len(),
            insertions,
            deletions,
            files_added: Vec::new(),
            files_modified,
            files_deleted: Vec::new(),
        },
    )
}

} // verus!
