//! Competition mode: several agents work on the same task independently,
//! and the best solution is selected for merging.

pub mod evaluator;
pub mod validator;

pub use evaluator::{HumanEvaluator, ModelEvaluator};
pub use validator::SolutionValidator;

use vstd::prelude::*;
use vstd::string::*;
use crate::agent::AgentType;
use crate::daemon::session::{hex_text, push_hex};
use crate::error::RembrandtError;
use crate::text::same_text;
use crate::timestamp::Timestamp;

verus! {

/// Unique identifier for a competition.
pub type CompetitionId = String;

/// The id of a competition started `millis` milliseconds after the epoch.
pub open spec fn competition_id_text(millis: nat) -> Seq<char> {
    "comp-"@ + hex_text(millis)
}

/// The id of a competition started `millis` milliseconds after the epoch:
/// `comp-` followed by `millis` in hexadecimal.
pub fn competition_id_for(millis: u128) -> (id: CompetitionId)
    ensures
        id@ == competition_id_text(millis as nat),
{
    let mut id = String::from_str("comp-");
    push_hex(&mut id, millis);
    id
}

/// Generate a competition id from the current time.
pub fn generate_competition_id() -> (id: CompetitionId)
    ensures
        exists|millis: nat| id@ == competition_id_text(millis),
{
    competition_id_for(Timestamp::now().unix_millis())
}

/// Status of a competition.
#[derive(Debug, PartialEq, Eq)]
pub enum CompetitionStatus {
    /// Agents are being spawned.
    Spawning,
    /// All agents running, waiting for completion.
    Running { completed: usize, total: usize },
    /// All agents done (or timeout), evaluation in progress.
    Evaluating,
    /// Winner selected, merge in progress.
    Merging,
    /// Competition finished successfully.
    Completed { winner_id: String },
    /// Competition failed: no valid solutions, a timeout with none
    /// complete, and the like.
    Failed(String),
    /// Competition was cancelled by the user.
    Cancelled,
}

impl Clone for CompetitionStatus {
    fn clone(&self) -> (copy: Self)
        ensures
            copy == *self,
    {
        match self {
            CompetitionStatus::Spawning => CompetitionStatus::Spawning,
            CompetitionStatus::Running { completed, total } => CompetitionStatus::Running {
                completed: *completed,
                total: *total,
            },
            CompetitionStatus::Evaluating => CompetitionStatus::Evaluating,
            CompetitionStatus::Merging => CompetitionStatus::Merging,
            CompetitionStatus::Completed { winner_id } => CompetitionStatus::Completed {
                winner_id: winner_id.clone(),
            },
            CompetitionStatus::Failed(reason) => CompetitionStatus::Failed(reason.clone()),
            CompetitionStatus::Cancelled => CompetitionStatus::Cancelled,
        }
    }
}

impl CompetitionStatus {
    pub open spec fn spec_is_terminal(&self) -> bool {
        self is Completed || self is Failed || self is Cancelled
    }

    /// Whether the competition is over: completed, failed or cancelled.
    #[verifier::when_used_as_spec(spec_is_terminal)]
    pub fn is_terminal(&self) -> (terminal: bool)
        ensures
            terminal == self.spec_is_terminal(),
    {
        match self {
            CompetitionStatus::Completed { .. } => true,
            CompetitionStatus::Failed(_) => true,
            CompetitionStatus::Cancelled => true,
            _ => false,
        }
    }

    /// The status after the user has cancelled the competition; a
    /// `Competition` error for a competition that is over already.
    pub fn cancelled(&self) -> (result: Result<CompetitionStatus, RembrandtError>)
        ensures
            !self.spec_is_terminal() ==> result == Ok::<CompetitionStatus, RembrandtError>(
                CompetitionStatus::Cancelled,
            ),
            self.spec_is_terminal() ==> (result matches Err(RembrandtError::Competition(reason))
                && reason@ == "Cannot cancel a completed competition"@),
    {
        if self.is_terminal() {
            Err(
                RembrandtError::Competition(
                    String::from_str("Cannot cancel a completed competition"),
                ),
            )
        } else {
            Ok(CompetitionStatus::Cancelled)
        }
    }

    /// The status after the merge of the winner, if one was selected: the
    /// competition is completed. Without a winner the status `self` stays.
    pub fn completed(self, winner: &Option<String>) -> (status: CompetitionStatus)
        ensures
            match *winner {
                Some(winner_id) => status == (CompetitionStatus::Completed { winner_id }),
                None => status == self,
            },
    {
        match winner {
            Some(winner_id) => CompetitionStatus::Completed { winner_id: winner_id.clone() },
            None => self,
        }
    }

    /// The status of a running competition in which `completed` of `total`
    /// agents are done and the time is up or not.
    ///
    /// While agents are still working and time is left, the competition
    /// keeps running. Once all are done or the time is up, it goes on to
    /// evaluation, unless no agent has completed at all: then it has
    /// failed.
    pub fn after_progress(completed: usize, total: usize, timed_out: bool) -> (status: Self)
        ensures
            completed != total && !timed_out ==> status == (CompetitionStatus::Running {
                completed,
                total,
            }),
            (completed == total || timed_out) && completed != 0 ==> status
                == CompetitionStatus::Evaluating,
            (completed == total || timed_out) && completed == 0 ==> (status matches CompetitionStatus::Failed(
                reason,
            ) && reason@ == "No agents completed before timeout"@),
    {
        if completed == total || timed_out {
            if completed == 0 {
                CompetitionStatus::Failed(String::from_str("No agents completed before timeout"))
            } else {
                CompetitionStatus::Evaluating
            }
        } else {
            CompetitionStatus::Running { completed, total }
        }
    }
}

/// Git diff statistics for a solution.
#[derive(Debug)]
pub struct DiffStats {
    pub files_changed: usize,
    pub insertions: usize,
    pub deletions: usize,
    pub files_added: Vec<String>,
    pub files_modified: Vec<String>,
    pub files_deleted: Vec<String>,
}

impl Default for DiffStats {
    /// No change at all.
    fn default() -> (stats: Self)
        ensures
            stats.files_changed == 0,
            stats.insertions == 0,
            stats.deletions == 0,
            stats.files_added@.len() == 0,
            stats.files_modified@.len() == 0,
            stats.files_deleted@.len() == 0,
    {
        DiffStats {
            files_changed: 0,
            insertions: 0,
            deletions: 0,
            files_added: Vec::new(),
            files_modified: Vec::new(),
            files_deleted: Vec::new(),
        }
    }
}

impl DiffStats {
    /// Total lines changed: insertions and deletions together.
    pub fn total_lines(&self) -> (total: usize)
        requires
            self.insertions + self.deletions <= usize::MAX,
        ensures
            total == self.insertions + self.deletions,
    {
        self.insertions + self.deletions
    }
}

/// Result of validating a single solution.
#[derive(Debug)]
pub struct ValidationResult {
    pub agent_id: String,
    pub type_check_passed: bool,
    pub type_check_output: Option<String>,
    pub tests_passed: bool,
    pub tests_output: Option<String>,
    pub test_count: Option<usize>,
    pub test_failures: Option<usize>,
    pub validation_time_ms: u64,
    pub error_message: Option<String>,
}

impl ValidationResult {
    pub open spec fn spec_is_valid(&self) -> bool {
        self.type_check_passed && self.tests_passed
    }

    /// Whether the solution passed all validation checks: the type check
    /// and the tests.
    #[verifier::when_used_as_spec(spec_is_valid)]
    pub fn is_valid(&self) -> (valid: bool)
        ensures
            valid == self.spec_is_valid(),
    {
        self.type_check_passed && self.tests_passed
    }

    /// The result recorded for a solution whose validation could not be
    /// run, for the reason `error`: nothing passed.
    pub fn failed(agent_id: &str, error: String) -> (result: Self)
        ensures
            result.agent_id@ == agent_id@,
            !result.type_check_passed,
            !result.tests_passed,
            result.type_check_output is None,
            result.tests_output is None,
            result.test_count is None,
            result.test_failures is None,
            result.validation_time_ms == 0,
            result.error_message == Some(error),
            !result.spec_is_valid(),
    {
        ValidationResult {
            agent_id: String::from_str(agent_id),
            type_check_passed: false,
            type_check_output: None,
            tests_passed: false,
            tests_output: None,
            test_count: None,
            test_failures: None,
            validation_time_ms: 0,
            error_message: Some(error),
        }
    }
}

/// A solution submitted by a competing agent.
#[derive(Debug)]
pub struct CompetitorSolution {
    pub agent_id: String,
    pub agent_type: AgentType,
    pub branch: String,
    pub worktree_path: String,
    pub completed_at: Option<Timestamp>,
    pub validation: Option<ValidationResult>,
    pub diff_stats: Option<DiffStats>,
}

impl CompetitorSolution {
    pub open spec fn spec_is_validated(&self) -> bool {
        self.validation is Some
    }

    /// Whether the solution has been validated.
    #[verifier::when_used_as_spec(spec_is_validated)]
    pub fn is_validated(&self) -> (validated: bool)
        ensures
            validated == self.spec_is_validated(),
    {
        self.validation.is_some()
    }

    pub open spec fn spec_is_valid(&self) -> bool {
        self.validation matches Some(v) && v.spec_is_valid()
    }

    /// Whether the solution has been validated and passed.
    #[verifier::when_used_as_spec(spec_is_valid)]
    pub fn is_valid(&self) -> (valid: bool)
        ensures
            valid == self.spec_is_valid(),
    {
        match &self.validation {
            Some(v) => v.is_valid(),
            None => false,
        }
    }
}

/// The number of solutions whose agent is done.
pub open spec fn spec_completed_count(competitors: Seq<CompetitorSolution>) -> nat
    decreases competitors.len(),
{
    if competitors.len() == 0 {
        0
    } else {
        spec_completed_count(competitors.drop_last()) + if competitors.last().completed_at is Some {
            1nat
        } else {
            0nat
        }
    }
}

/// The solutions that passed validation, in order.
pub open spec fn spec_valid_solutions(competitors: Seq<CompetitorSolution>) -> Seq<
    CompetitorSolution,
>
    decreases competitors.len(),
{
    if competitors.len() == 0 {
        Seq::empty()
    } else {
        let rest = spec_valid_solutions(competitors.drop_last());
        if competitors.last().spec_is_valid() {
            rest.push(competitors.last())
        } else {
            rest
        }
    }
}

/// The number of solutions whose agent is done.
pub fn completed_count(competitors: &Vec<CompetitorSolution>) -> (count: usize)
    ensures
        count == spec_completed_count(competitors@),
{
    let mut count: usize = 0;
    let mut i: usize = 0;
    while i < competitors.len()
        invariant
            i <= competitors@.len(),
            count <= i,
            count == spec_completed_count(competitors@.take(i as int)),
        decreases competitors.len() - i,
    {
        assert(competitors@.take(i + 1).drop_last() =~= competitors@.take(i as int));
        assert(competitors@.take(i + 1).last() == competitors@[i as int]);
        if competitors[i].completed_at.is_some() {
            count = count + 1;
        }
        i = i + 1;
    }
    assert(competitors@.take(i as int) =~= competitors@);
    count
}

/// The solutions that passed validation, in order.
pub fn valid_solutions(competitors: &Vec<CompetitorSolution>) -> (valid: Vec<&CompetitorSolution>)
    ensures
        valid@.len() == spec_valid_solutions(competitors@).len(),
        forall|i: int| 0 <= i < valid@.len() ==> *(#[trigger] valid@[i]) == spec_valid_solutions(
            competitors@,
        )[i],
{
    let mut valid: Vec<&CompetitorSolution> = Vec::new();
    let mut i: usize = 0;
    while i < competitors.len()
        invariant
            i <= competitors@.len(),
            valid@.len() == spec_valid_solutions(competitors@.take(i as int)).len(),
            forall|k: int| 0 <= k < valid@.len() ==> *(#[trigger] valid@[k]) == spec_valid_solutions(
                competitors@.take(i as int),
            )[k],
        decreases competitors.len() - i,
    {
        assert(competitors@.take(i + 1).drop_last() =~= competitors@.take(i as int));
        assert(competitors@.take(i + 1).last() == competitors@[i as int]);
        if competitors[i].is_valid() {
            valid.push(&competitors[i]);
        }
        i = i + 1;
    }
    assert(competitors@.take(i as int) =~= competitors@);
    valid
}

/// The agents whose solution did not win, in order.
pub open spec fn spec_losers(competitors: Seq<CompetitorSolution>, winner: Option<Seq<char>>) -> Seq<
    Seq<char>,
>
    decreases competitors.len(),
{
    if competitors.len() == 0 {
        Seq::empty()
    } else {
        let rest = spec_losers(competitors.drop_last(), winner);
        if winner == Some(competitors.last().agent_id@) {
            rest
        } else {
            rest.push(competitors.last().agent_id@)
        }
    }
}

/// The agents whose worktree is removed after a competition: all but the
/// winner, and all where there is none.
pub fn losers(competitors: &Vec<CompetitorSolution>, winner: Option<&str>) -> (agents: Vec<String>)
    ensures
        Seq::new(agents@.len(), |i: int| agents@[i]@) == spec_losers(
            competitors@,
            match winner {
                Some(w) => Some(w@),
                None => None,
            },
        ),
{
    let mut agents: Vec<String> = Vec::new();
    let mut i: usize = 0;
    let ghost won: Option<Seq<char>> = match winner {
        Some(w) => Some(w@),
        None => None,
    };
    while i < competitors.len()
        invariant
            i <= competitors@.len(),
            won == match winner {
                Some(w) => Some(w@),
                None => None,
            },
            Seq::new(agents@.len(), |k: int| agents@[k]@) == spec_losers(
                competitors@.take(i as int),
                won,
            ),
        decreases competitors.len() - i,
    {
        assert(competitors@.take(i + 1).drop_last() =~= competitors@.take(i as int));
        assert(competitors@.take(i + 1).last() == competitors@[i as int]);
        let ghost before = agents@;
        let is_winner = match winner {
            Some(w) => same_text(competitors[i].agent_id.as_str(), w),
            None => false,
        };
        if !is_winner {
            agents.push(competitors[i].agent_id.clone());
            assert(Seq::new(agents@.len(), |k: int| agents@[k]@) =~= Seq::new(
                before.len(),
                |k: int| before[k]@,
            ).push(competitors@[i as int].agent_id@));
        }
        i = i + 1;
    }
    assert(competitors@.take(i as int) =~= competitors@);
    agents
}

} // verus!
