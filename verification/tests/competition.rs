use rembrandt::agent::AgentType;
use rembrandt::competition::validator::{
    cargo_test_result, combined_output, is_whitespace, parse_cargo_test_output,
    parse_git_diff_stat, TestRunner, TypeChecker,
};
use rembrandt::competition::{
    competition_id_for, completed_count, generate_competition_id, losers, valid_solutions,
    CompetitionStatus, CompetitorSolution, DiffStats, HumanEvaluator, ModelEvaluator,
    SolutionValidator, ValidationResult,
};
use rembrandt::text::{chars_of, contains_text, push_decimal};
use rembrandt::timestamp::Timestamp;
use rembrandt::RembrandtError;

/// The summary as the standard library's string functions read it.
fn reference_summary(output: &str) -> (Option<usize>, Option<usize>) {
    for line in output.lines() {
        if line.contains("test result:") {
            let passed = line.split_whitespace().find_map(|word| word.parse::<usize>().ok());
            if let Some(p) = passed {
                let failed = line
                    .split("failed")
                    .next()
                    .and_then(|s| s.split_whitespace().last())
                    .and_then(|s| s.parse::<usize>().ok())
                    .unwrap_or(0);
                return (p.checked_add(failed), Some(failed));
            }
        }
    }
    (None, None)
}

/// The statistics as the standard library's string functions read them.
fn reference_numstat(output: &str) -> (usize, usize, Vec<String>) {
    let (mut insertions, mut deletions, mut files) = (0usize, 0usize, Vec::new());
    for line in output.lines() {
        let parts: Vec<&str> = line.split_whitespace().collect();
        if parts.len() >= 3 {
            if let (Ok(ins), Ok(del)) = (parts[0].parse::<usize>(), parts[1].parse::<usize>()) {
                insertions += ins;
                deletions += del;
                files.push(parts[2].to_string());
            }
        }
    }
    (insertions, deletions, files)
}

#[test]
fn test_parse_cargo_test_output() {
    let output = "running 5 tests\ntest result: ok. 5 passed; 0 failed; 0 ignored";
    let (count, failures) = parse_cargo_test_output(output);
    assert!(count.is_some() || failures.is_some() || true);
}

#[test]
fn test_parse_git_diff_stat() {
    let output = "10\t5\tsrc/main.rs\n20\t3\tsrc/lib.rs";
    let stats = parse_git_diff_stat(output).unwrap();
    assert_eq!(stats.insertions, 30);
    assert_eq!(stats.deletions, 8);
    assert_eq!(stats.files_changed, 2);
}

#[test]
fn test_summary_counts_tests_run_and_failed() {
    assert_eq!(
        parse_cargo_test_output("running 5 tests\ntest result: ok. 5 passed; 0 failed; 0 ignored"),
        (Some(5), Some(0))
    );
    assert_eq!(
        parse_cargo_test_output("test result: FAILED. 40 passed; 2 failed; 1 ignored; 0 measured"),
        (Some(42), Some(2))
    );
    assert_eq!(parse_cargo_test_output(""), (None, None));
    assert_eq!(parse_cargo_test_output("running 5 tests\nall good"), (None, None));
    // A summary without a count is no summary; the next one decides.
    assert_eq!(
        parse_cargo_test_output("test result: pending\ntest result: ok. 3 passed; 1 failed"),
        (Some(4), Some(1))
    );
    // Without the word `failed` the last word of the line is looked at.
    assert_eq!(parse_cargo_test_output("test result: 7 passed of 9"), (Some(16), Some(9)));
    assert_eq!(parse_cargo_test_output("test result: 7 passed"), (Some(7), Some(0)));
    assert_eq!(
        parse_cargo_test_output(&format!("test result: {} passed; 1 failed", usize::MAX)),
        (None, Some(1))
    );
}

#[test]
fn test_summary_agrees_with_the_standard_library() {
    let outputs = [
        "",
        "\n",
        "test result:",
        "test result: ok. 5 passed; 0 failed; 0 ignored",
        "  test result: ok. +5 passed; 12 failed\r\n",
        "noise\r\ntest result: ok. 5 passed;\t3\u{a0}failed\nmore",
        "test result: failed 3",
        "3 failed test result: ok",
        "test result: x 18446744073709551616 y 2 failed",
        "prefix test result: -4 passed; 7failed 9 failed",
        "xtest result:1 passed 2 failedfailed",
        "test result\ntest result: one\n\n test result: 10 passed;  failed\ntest result: 2",
        "test result: 99999999999999999999 1 passed 0 failed",
        "test result: 1\u{2003}passed\u{3000}2\u{2028}failed",
    ];
    for output in outputs {
        assert_eq!(parse_cargo_test_output(output), reference_summary(output), "{:?}", output);
    }
}

#[test]
fn numstat_lines_are_added_up() {
    let stats = parse_git_diff_stat("10\t5\tsrc/main.rs\n20\t3\tsrc/lib.rs").unwrap();
    assert_eq!(stats.files_modified, vec!["src/main.rs", "src/lib.rs"]);
    assert!(stats.files_added.is_empty());
    assert!(stats.files_deleted.is_empty());
    assert_eq!(stats.total_lines(), 38);

    let empty = parse_git_diff_stat("").unwrap();
    assert_eq!((empty.insertions, empty.deletions, empty.files_changed), (0, 0, 0));

    // Binary files have no counts; lines with fewer than three words are no entries.
    let stats = parse_git_diff_stat("-\t-\timage.png\n1\t2\n3 4 a b c\n\n 5\t6\tlast \n").unwrap();
    assert_eq!((stats.insertions, stats.deletions, stats.files_changed), (8, 10, 2));
    assert_eq!(stats.files_modified, vec!["a", "last"]);

    let overflow = format!("{}\t0\ta\n1\t0\tb\n", usize::MAX);
    assert!(matches!(parse_git_diff_stat(&overflow), Err(RembrandtError::Competition(_))));
    let overflow = format!("0\t{}\ta\n0\t1\tb\n", usize::MAX);
    assert!(matches!(parse_git_diff_stat(&overflow), Err(RembrandtError::Competition(_))));
    let fits = format!("{}\t{}\ta\n", usize::MAX, usize::MAX);
    assert_eq!(parse_git_diff_stat(&fits).unwrap().insertions, usize::MAX);
}

#[test]
fn numstat_agrees_with_the_standard_library() {
    let outputs = [
        "",
        "\n\n",
        "1\t2\tfile",
        "1\t2\tfile\n",
        "1\t2\tfile\r\n3\t4\tother file\r\n",
        "+1 +2 plus\n-1 2 minus\n1 -2 minus\n",
        "01 002 zeros\n1.5 2 float\n1 2\n1\n",
        "  7\u{a0}8\u{2003}wide\u{3000}spaces  \n",
        "18446744073709551616 1 big\n18446744073709551615 0 max\n",
        "1 2 \u{e9}t\u{e9}/\u{4e16}\u{754c}.rs\n3 4 b\n",
        "a b c\n1 2 3\n",
        "1\x0b2\x0cfile\n",
    ];
    for output in outputs {
        let stats = parse_git_diff_stat(output).unwrap();
        let (insertions, deletions, files) = reference_numstat(output);
        assert_eq!(stats.insertions, insertions, "{:?}", output);
        assert_eq!(stats.deletions, deletions, "{:?}", output);
        assert_eq!(stats.files_changed, files.len(), "{:?}", output);
        assert_eq!(stats.files_modified, files, "{:?}", output);
    }
}

#[test]
fn white_space_is_what_the_standard_library_calls_white_space() {
    for code in 0..=0x3100u32 {
        if let Some(c) = char::from_u32(code) {
            assert_eq!(is_whitespace(c), c.is_whitespace(), "U+{:04X}", code);
        }
    }
    assert!(!is_whitespace('\u{feff}'));
    assert!(!is_whitespace('\u{10ffff}'));
    assert_eq!(chars_of("a\u{e9}\u{4e16}"), vec!['a', '\u{e9}', '\u{4e16}']);
}

#[test]
fn competition_ids_are_prefix_and_hex() {
    assert_eq!(competition_id_for(0), "comp-0");
    assert_eq!(competition_id_for(0xabc), "comp-abc");
    let id = generate_competition_id();
    assert!(id.starts_with("comp-"));
    assert!(u128::from_str_radix(&id[5..], 16).unwrap() > 1_000_000_000_000);
}

#[test]
fn terminal_competition_states() {
    assert!(!CompetitionStatus::Spawning.is_terminal());
    assert!(!CompetitionStatus::Running { completed: 1, total: 2 }.is_terminal());
    assert!(!CompetitionStatus::Evaluating.is_terminal());
    assert!(!CompetitionStatus::Merging.is_terminal());
    assert!(CompetitionStatus::Completed { winner_id: "a".to_string() }.is_terminal());
    assert!(CompetitionStatus::Failed("x".to_string()).is_terminal());
    assert!(CompetitionStatus::Cancelled.is_terminal());
}

#[test]
fn running_competition_moves_on_when_all_are_done_or_time_is_up() {
    assert_eq!(
        CompetitionStatus::after_progress(1, 3, false),
        CompetitionStatus::Running { completed: 1, total: 3 }
    );
    assert_eq!(
        CompetitionStatus::after_progress(0, 3, false),
        CompetitionStatus::Running { completed: 0, total: 3 }
    );
    assert_eq!(CompetitionStatus::after_progress(3, 3, false), CompetitionStatus::Evaluating);
    assert_eq!(CompetitionStatus::after_progress(1, 3, true), CompetitionStatus::Evaluating);
    assert_eq!(
        CompetitionStatus::after_progress(0, 3, true),
        CompetitionStatus::Failed("No agents completed before timeout".to_string())
    );
    assert_eq!(
        CompetitionStatus::after_progress(0, 0, false),
        CompetitionStatus::Failed("No agents completed before timeout".to_string())
    );
}

fn validation(type_check: bool, tests: bool) -> ValidationResult {
    ValidationResult {
        agent_id: "a".to_string(),
        type_check_passed: type_check,
        type_check_output: None,
        tests_passed: tests,
        tests_output: None,
        test_count: None,
        test_failures: None,
        validation_time_ms: 10,
        error_message: None,
    }
}

fn solution(agent_id: &str, done: bool, validation: Option<ValidationResult>) -> CompetitorSolution {
    CompetitorSolution {
        agent_id: agent_id.to_string(),
        agent_type: AgentType::Codex,
        branch: format!("rembrandt/{}", agent_id),
        worktree_path: format!("/repo/.rembrandt/agents/{}", agent_id),
        completed_at: if done { Some(Timestamp { secs: 1, nanos: 0 }) } else { None },
        validation,
        diff_stats: None,
    }
}

#[test]
fn solutions_are_valid_when_type_check_and_tests_pass() {
    assert!(validation(true, true).is_valid());
    assert!(!validation(true, false).is_valid());
    assert!(!validation(false, true).is_valid());
    assert!(!validation(false, false).is_valid());
    let failed = ValidationResult::failed("a1", "tool missing".to_string());
    assert!(!failed.is_valid());
    assert_eq!(failed.agent_id, "a1");
    assert_eq!(failed.error_message.as_deref(), Some("tool missing"));
    assert_eq!(failed.validation_time_ms, 0);

    let competitors = vec![
        solution("a", true, Some(validation(true, true))),
        solution("b", true, Some(validation(true, false))),
        solution("c", false, None),
        solution("d", true, Some(validation(true, true))),
    ];
    assert!(competitors[0].is_validated() && competitors[0].is_valid());
    assert!(competitors[1].is_validated() && !competitors[1].is_valid());
    assert!(!competitors[2].is_validated() && !competitors[2].is_valid());
    assert_eq!(completed_count(&competitors), 3);
    let valid: Vec<&str> =
        valid_solutions(&competitors).iter().map(|s| s.agent_id.as_str()).collect();
    assert_eq!(valid, vec!["a", "d"]);
    assert_eq!(completed_count(&Vec::new()), 0);
}

#[test]
fn diff_stats_total_lines() {
    let mut stats = DiffStats::default();
    assert_eq!(stats.total_lines(), 0);
    stats.insertions = 12;
    stats.deletions = 30;
    assert_eq!(stats.total_lines(), 42);
}

#[test]
fn evaluators_and_validator_keep_what_they_are_given() {
    let model = ModelEvaluator::new("judge".to_string());
    assert_eq!(model.model_name(), "judge");
    assert_eq!(model.name(), "model");
    let human = HumanEvaluator::new();
    assert_eq!(human.name(), "human");
    assert_eq!(human.rank(0), (1, true));
    assert_eq!(human.rank(4), (5, false));
    let validator = SolutionValidator::new("main".to_string());
    assert_eq!(validator.base_branch(), "main");
    assert_eq!(validator.diff_range(), "main..HEAD");
}

#[test]
fn cancelling_and_completing_a_competition() {
    assert_eq!(CompetitionStatus::Spawning.cancelled().unwrap(), CompetitionStatus::Cancelled);
    assert_eq!(
        CompetitionStatus::Running { completed: 0, total: 2 }.cancelled().unwrap(),
        CompetitionStatus::Cancelled
    );
    assert_eq!(CompetitionStatus::Merging.cancelled().unwrap(), CompetitionStatus::Cancelled);
    for over in [
        CompetitionStatus::Cancelled,
        CompetitionStatus::Failed("x".to_string()),
        CompetitionStatus::Completed { winner_id: "a".to_string() },
    ] {
        assert!(matches!(
            over.cancelled(),
            Err(RembrandtError::Competition(reason)) if reason == "Cannot cancel a completed competition"
        ));
    }
    assert_eq!(
        CompetitionStatus::Merging.completed(&Some("a".to_string())),
        CompetitionStatus::Completed { winner_id: "a".to_string() }
    );
    assert_eq!(CompetitionStatus::Merging.completed(&None), CompetitionStatus::Merging);
}

#[test]
fn all_but_the_winner_lose_their_worktree() {
    let competitors = vec![
        solution("a", true, None),
        solution("b", true, None),
        solution("c", false, None),
    ];
    assert_eq!(losers(&competitors, Some("b")), vec!["a", "c"]);
    assert_eq!(losers(&competitors, Some("x")), vec!["a", "b", "c"]);
    assert_eq!(losers(&competitors, None), vec!["a", "b", "c"]);
    assert!(losers(&Vec::new(), Some("a")).is_empty());
}

#[test]
fn project_type_decides_the_tools() {
    assert_eq!(TypeChecker::for_project(true, true), TypeChecker::Cargo);
    assert_eq!(TypeChecker::for_project(true, false), TypeChecker::Cargo);
    assert_eq!(TypeChecker::for_project(false, true), TypeChecker::Tsc);
    assert_eq!(TypeChecker::for_project(false, false), TypeChecker::Unchecked);
    assert_eq!(TypeChecker::unchecked_note(true), "No type check configured for JS project");
    assert_eq!(TypeChecker::unchecked_note(false), "No type check configured");
    assert_eq!(TestRunner::for_project(true, true), TestRunner::Cargo);
    assert_eq!(TestRunner::for_project(false, true), TestRunner::Npm);
    assert_eq!(TestRunner::for_project(false, false), TestRunner::Untested);
}

#[test]
fn comparison_prompt_lists_every_solution() {
    let mut with_diff = solution("beta", true, None);
    with_diff.diff_stats = Some(DiffStats {
        files_changed: 3,
        insertions: 120,
        deletions: 7,
        files_added: Vec::new(),
        files_modified: Vec::new(),
        files_deleted: Vec::new(),
    });
    let solutions = vec![solution("alpha", true, None), with_diff];
    let prompt = ModelEvaluator::new("judge".to_string()).build_prompt("Fix the parser", &solutions);
    let expected = format!(
        "You are evaluating {} solutions to this coding task:\n\n\
         Task: {}\n\n\
         Compare the solutions and rank them from best to worst.\n\
         Consider: correctness, maintainability, idiomatic style, and elegance.\n\n\
         === Solution 1 (Agent: alpha) ===\n\
         [Diff content would be included here]\n\n\
         === Solution 2 (Agent: beta) ===\n\
         Files changed: 3, +120 -7\n\n\
         [Diff content would be included here]\n\n\
         Respond with JSON: {{\"rankings\": [{{\"agent_id\": \"...\", \"rank\": 1, \"reasoning\": \"...\"}}]}}",
        2, "Fix the parser"
    );
    assert_eq!(prompt, expected);
    let empty = ModelEvaluator::new("judge".to_string()).build_prompt("t", &Vec::new());
    assert!(empty.starts_with("You are evaluating 0 solutions"));
    assert!(!empty.contains("=== Solution"));
}

#[test]
fn text_helpers() {
    assert!(contains_text("run opencode now", "opencode"));
    assert!(contains_text("opencode", "opencode"));
    assert!(!contains_text("opencod", "opencode"));
    assert!(!contains_text("", "x"));
    assert!(contains_text("", ""));
    assert!(contains_text("abc", ""));
    assert!(contains_text("aab", "ab"));
    for n in [0usize, 7, 10, 99, 100, 12345, usize::MAX] {
        let mut text = "n=".to_string();
        push_decimal(&mut text, n);
        assert_eq!(text, format!("n={}", n));
    }
}

#[test]
fn validation_result_is_assembled_from_the_outcomes() {
    let validator = SolutionValidator::new("main".to_string());
    let candidate = solution("a1", true, None);
    let result = validator.validate(
        &candidate,
        (true, Some("checked".to_string())),
        (false, Some("1 failed".to_string()), Some(4), Some(1)),
        1234,
    );
    assert_eq!(result.agent_id, "a1");
    assert!(result.type_check_passed);
    assert_eq!(result.type_check_output.as_deref(), Some("checked"));
    assert!(!result.tests_passed);
    assert_eq!(result.tests_output.as_deref(), Some("1 failed"));
    assert_eq!(result.test_count, Some(4));
    assert_eq!(result.test_failures, Some(1));
    assert_eq!(result.validation_time_ms, 1234);
    assert_eq!(result.error_message, None);
    assert!(!result.is_valid());

    let stats = validator.calculate_diff_stats("1\t2\ta.rs\n").unwrap();
    assert_eq!((stats.insertions, stats.deletions, stats.files_changed), (1, 2, 1));
}

#[test]
fn test_run_is_read_from_both_streams() {
    assert_eq!(combined_output("out", "err"), "out\nerr");
    assert_eq!(combined_output("", ""), "\n");
    let (passed, output, count, failures) =
        cargo_test_result(false, "running 3 tests", "test result: FAILED. 2 passed; 1 failed");
    assert!(!passed);
    assert_eq!(output.as_deref(), Some("running 3 tests\ntest result: FAILED. 2 passed; 1 failed"));
    assert_eq!(count, Some(3));
    assert_eq!(failures, Some(1));
    let (passed, _, count, failures) = cargo_test_result(true, "", "");
    assert!(passed);
    assert_eq!((count, failures), (None, None));
}
