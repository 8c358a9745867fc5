//! Git worktree provisioning.
//!
//! Every agent works in a worktree of its own under
//! `<repo>/.rembrandt/agents/<agent_id>`, on the branch
//! `rembrandt/<agent_id>`. The [`WorktreeManager`] decides which git and
//! file-system operations bring that about, given what is found on disk and
//! in the repository; the caller carries them out. Provisioning repairs
//! stale state left by earlier runs and never touches a worktree that is
//! already in place.

use vstd::prelude::*;
use vstd::string::*;
use crate::error::RembrandtError;
use crate::text::join_text;

verus! {

/// The directory, below the repository, that holds the orchestrator's files.
pub open spec fn spec_rembrandt_dir(repo_path: Seq<char>) -> Seq<char> {
    repo_path + "/.rembrandt"@
}

/// The directory that holds the worktrees of all agents.
pub open spec fn spec_agents_dir(repo_path: Seq<char>) -> Seq<char> {
    spec_rembrandt_dir(repo_path) + "/agents"@
}

/// The worktree of the agent `agent_id`.
pub open spec fn spec_worktree_path(repo_path: Seq<char>, agent_id: Seq<char>) -> Seq<char> {
    spec_agents_dir(repo_path) + "/"@ + agent_id
}

/// The branch of the agent `agent_id`.
pub open spec fn spec_branch_name(agent_id: Seq<char>) -> Seq<char> {
    "rembrandt/"@ + agent_id
}

/// The branch of the agent `agent_id`: `rembrandt/<agent_id>`.
pub fn branch_name(agent_id: &str) -> (name: String)
    ensures
        name@ == spec_branch_name(agent_id@),
{
    join_text("rembrandt/", agent_id)
}

/// Information about a worktree.
#[derive(Debug)]
pub struct WorktreeInfo {
    pub path: String,
    pub branch: String,
    pub agent_id: String,
}

impl WorktreeInfo {
    /// Whether this is the worktree of `agent_id` in the repository at
    /// `repo_path`.
    pub open spec fn is_for(&self, repo_path: Seq<char>, agent_id: Seq<char>) -> bool {
        &&& self.path@ == spec_worktree_path(repo_path, agent_id)
        &&& self.branch@ == spec_branch_name(agent_id)
        &&& self.agent_id@ == agent_id
    }

    /// Whether two descriptions name the same worktree.
    pub open spec fn same_as(&self, other: &WorktreeInfo) -> bool {
        &&& self.path@ == other.path@
        &&& self.branch@ == other.branch@
        &&& self.agent_id@ == other.agent_id@
    }
}

impl Clone for WorktreeInfo {
    fn clone(&self) -> (copy: Self)
        ensures
            copy == *self,
    {
        WorktreeInfo {
            path: self.path.clone(),
            branch: self.branch.clone(),
            agent_id: self.agent_id.clone(),
        }
    }
}

/// What is found at the place where an agent's worktree belongs.
#[derive(Debug, Clone, Copy, PartialEq, Eq, Structural)]
pub enum DirectoryState {
    /// Nothing is there.
    Missing,
    /// A directory that holds a worktree link.
    Worktree,
    /// Something else: a leftover that is no worktree.
    Stale,
}

/// What the repository knows of an agent's branch.
#[derive(Debug, Clone, Copy, PartialEq, Eq, Structural)]
pub enum BranchState {
    /// There is no such local branch.
    Missing,
    /// The branch exists and is not checked out in the main checkout.
    Present,
    /// The branch is what HEAD of the main checkout points at.
    CheckedOut,
}

/// What the caller found before an agent's worktree is provisioned or
/// removed.
#[derive(Debug, Clone, Copy, PartialEq, Eq, Structural)]
pub struct WorktreeProbe {
    /// What is at the worktree's path.
    pub directory: DirectoryState,
    /// Whether git has a worktree registered under the agent's id.
    pub registered: bool,
    /// The state of the agent's branch.
    pub branch: BranchState,
    /// Whether the agent's branch, where it exists, points at the commit
    /// that the base branch points at.
    pub branch_at_base: bool,
}

impl WorktreeProbe {
    /// Whether the agent's branch is in place as it would be created: it
    /// exists and points at the base.
    pub open spec fn spec_branch_in_place(&self) -> bool {
        self.branch != BranchState::Missing && self.branch_at_base
    }

    /// Whether the agent's branch is in place as it would be created.
    #[verifier::when_used_as_spec(spec_branch_in_place)]
    pub fn branch_in_place(&self) -> (in_place: bool)
        ensures
            in_place == self.spec_branch_in_place(),
    {
        match self.branch {
            BranchState::Missing => false,
            _ => self.branch_at_base,
        }
    }
}

/// One operation on the repository or the file system.
#[derive(Debug)]
pub enum WorktreeAction {
    /// Remove the directory tree at `path`. A directory that is not there,
    /// or not there any more, counts as removed.
    RemoveDirectory { path: String },
    /// Prune the worktree registered as `name`, with the working-tree and
    /// valid options on.
    PruneWorktree { name: String },
    /// Resolve the local branch `name` to the commit it points at.
    ResolveBranch { name: String },
    /// Delete the local branch `name`.
    DeleteBranch { name: String },
    /// Create the local branch `name` at the commit of the branch `base`.
    CreateBranch { name: String, base: String },
    /// Add a worktree registered as `name` at `path` that checks out
    /// `branch`.
    AddWorktree { name: String, path: String, branch: String },
}

impl WorktreeAction {
    /// Whether the action takes something away that was there before.
    pub open spec fn is_destructive(&self) -> bool {
        self is RemoveDirectory || self is PruneWorktree || self is DeleteBranch
    }

    /// Whether the action works on the file system alone rather than on the
    /// repository.
    pub open spec fn spec_is_file_operation(&self) -> bool {
        self is RemoveDirectory
    }

    /// Whether the action works on the file system alone rather than on the
    /// repository.
    #[verifier::when_used_as_spec(spec_is_file_operation)]
    pub fn is_file_operation(&self) -> (r: bool)
        ensures
            r == self.spec_is_file_operation(),
    {
        match self {
            WorktreeAction::RemoveDirectory { .. } => true,
            _ => false,
        }
    }
}

/// One step of a plan: an action, and whether the plan depends on it.
#[derive(Debug)]
pub struct WorktreeStep {
    pub action: WorktreeAction,
    /// A required step that fails ends the plan with its error; the failure
    /// of any other step is passed over.
    pub required: bool,
}

impl WorktreeStep {
    /// The error with which the plan ends when this step fails for
    /// `reason`, if it ends at all.
    pub open spec fn spec_failure(&self, reason: String) -> Option<RembrandtError> {
        if !self.required {
            None
        } else if self.action.spec_is_file_operation() {
            Some(RembrandtError::Io(reason))
        } else {
            Some(RembrandtError::Git(reason))
        }
    }

    /// Whether the plan ends with this step, given what carrying it out
    /// came to: it does if the step is required and failed.
    pub open spec fn spec_ends_plan(&self, outcome: Result<(), String>) -> bool {
        outcome matches Err(reason) && self.spec_failure(reason) is Some
    }

    /// Whether the plan ends with this step, given what carrying it out
    /// came to. No step after it is to be carried out then.
    pub fn ends_plan(&self, outcome: &Result<(), String>) -> (ends: bool)
        ensures
            ends == self.spec_ends_plan(*outcome),
            ends == (self.required && *outcome is Err),
    {
        match outcome {
            Err(_) => self.required,
            Ok(_) => false,
        }
    }

    /// The error with which the plan ends when this step fails for
    /// `reason`: none for a best-effort step, an I/O error for a required
    /// file operation, a git error for a required repository operation.
    pub fn failure(&self, reason: String) -> (error: Option<RembrandtError>)
        ensures
            error == self.spec_failure(reason),
    {
        if !self.required {
            None
        } else if self.action.is_file_operation() {
            Some(RembrandtError::Io(reason))
        } else {
            Some(RembrandtError::Git(reason))
        }
    }
}

/// The outcome of carrying out the first steps of a plan, in order, up to
/// and including the first required step that failed: the error of that
/// step, if there is one.
pub open spec fn first_failure(
    steps: Seq<WorktreeStep>,
    outcomes: Seq<Result<(), String>>,
) -> Option<RembrandtError>
    decreases steps.len(),
{
    if steps.len() == 0 || outcomes.len() == 0 {
        None
    } else {
        match outcomes[0] {
            Err(reason) if steps[0].spec_failure(reason) is Some => steps[0].spec_failure(reason),
            _ => first_failure(steps.drop_first(), outcomes.drop_first()),
        }
    }
}

/// The steps that provision the worktree of an agent, given what `probe`
/// found: the kind of each step, and whether it is required.
pub open spec fn spec_create_steps(probe: WorktreeProbe) -> Seq<(StepKind, bool)> {
    if probe.directory == DirectoryState::Worktree {
        Seq::empty()
    } else {
        let remove = if probe.directory == DirectoryState::Stale {
            seq![(StepKind::RemoveDirectory, true)]
        } else {
            Seq::empty()
        };
        let prune = if probe.registered {
            seq![(StepKind::PruneWorktree, false)]
        } else {
            Seq::empty()
        };
        let delete = if probe.branch == BranchState::Present {
            seq![(StepKind::DeleteBranch, false)]
        } else {
            Seq::empty()
        };
        remove + prune + seq![(StepKind::ResolveBranch, true)] + delete + seq![
            (StepKind::CreateBranch, !probe.spec_branch_in_place()),
            (StepKind::AddWorktree, true),
        ]
    }
}

/// The steps that remove the worktree of an agent, given what `probe`
/// found: the kind of each step, and whether it is required.
pub open spec fn spec_remove_steps(probe: WorktreeProbe, delete_branch: bool) -> Seq<
    (StepKind, bool),
> {
    let prune = if probe.registered {
        seq![(StepKind::PruneWorktree, false)]
    } else {
        Seq::empty()
    };
    let remove = if probe.directory != DirectoryState::Missing {
        seq![(StepKind::RemoveDirectory, true)]
    } else {
        Seq::empty()
    };
    let delete = if delete_branch && probe.branch != BranchState::Missing {
        seq![(StepKind::DeleteBranch, false)]
    } else {
        Seq::empty()
    };
    prune + remove + delete
}

/// The kind of an action, without its arguments.
#[derive(Debug, Clone, Copy, PartialEq, Eq, Structural)]
pub enum StepKind {
    RemoveDirectory,
    PruneWorktree,
    ResolveBranch,
    DeleteBranch,
    CreateBranch,
    AddWorktree,
}

/// The names that the steps of one agent's plan speak of.
pub struct StepNames {
    pub agent_id: Seq<char>,
    pub path: Seq<char>,
    pub branch: Seq<char>,
    pub base: Seq<char>,
}

impl WorktreeStep {
    /// Whether this step is the action `kind` on the names `names`, required
    /// or not as `required` says.
    pub open spec fn is_step(&self, kind: StepKind, required: bool, names: StepNames) -> bool {
        &&& self.required == required
        &&& match kind {
            StepKind::RemoveDirectory => self.action matches WorktreeAction::RemoveDirectory { path }
                && path@ == names.path,
            StepKind::PruneWorktree => self.action matches WorktreeAction::PruneWorktree { name }
                && name@ == names.agent_id,
            StepKind::ResolveBranch => self.action matches WorktreeAction::ResolveBranch { name }
                && name@ == names.base,
            StepKind::DeleteBranch => self.action matches WorktreeAction::DeleteBranch { name }
                && name@ == names.branch,
            StepKind::CreateBranch => self.action matches WorktreeAction::CreateBranch {
                name,
                base,
            } && name@ == names.branch && base@ == names.base,
            StepKind::AddWorktree => self.action matches WorktreeAction::AddWorktree {
                name,
                path,
                branch,
            } && name@ == names.agent_id && path@ == names.path && branch@ == names.branch,
        }
    }
}

/// The names that the steps for the agent `agent_id` in the repository at
/// `repo_path` speak of.
pub open spec fn step_names(repo_path: Seq<char>, agent_id: Seq<char>, base_branch: Seq<char>) -> StepNames {
    StepNames {
        agent_id,
        path: spec_worktree_path(repo_path, agent_id),
        branch: spec_branch_name(agent_id),
        base: base_branch,
    }
}

/// Whether `plan` is the plan that provisions the worktree of `agent_id`
/// off `base_branch` in the repository at `repo_path`, given what `probe`
/// found.
pub open spec fn is_create_plan(
    plan: WorktreePlan,
    repo_path: Seq<char>,
    agent_id: Seq<char>,
    base_branch: Seq<char>,
    probe: WorktreeProbe,
) -> bool {
    &&& plan.info.is_for(repo_path, agent_id)
    &&& steps_match(
        plan.steps@,
        spec_create_steps(probe),
        step_names(repo_path, agent_id, base_branch),
    )
}

/// Whether `steps` is the plan that removes the worktree of `agent_id` in
/// the repository at `repo_path`, given what `probe` found.
pub open spec fn is_remove_plan(
    steps: Seq<WorktreeStep>,
    repo_path: Seq<char>,
    agent_id: Seq<char>,
    delete_branch: bool,
    probe: WorktreeProbe,
) -> bool {
    steps_match(
        steps,
        spec_remove_steps(probe, delete_branch),
        step_names(repo_path, agent_id, Seq::empty()),
    )
}

/// Whether `steps` are the steps that `shape` lists, on the names `names`.
pub open spec fn steps_match(
    steps: Seq<WorktreeStep>,
    shape: Seq<(StepKind, bool)>,
    names: StepNames,
) -> bool {
    &&& steps.len() == shape.len()
    &&& forall|i: int|
        0 <= i < steps.len() ==> (#[trigger] steps[i]).is_step(shape[i].0, shape[i].1, names)
}

/// A plan: steps to carry out in order, and the worktree that is in place
/// once every required step has succeeded.
#[derive(Debug)]
pub struct WorktreePlan {
    pub steps: Vec<WorktreeStep>,
    pub info: WorktreeInfo,
}

impl WorktreePlan {
    /// The result of the plan, given the outcomes of the steps that were
    /// carried out, in order (see [`plan_verdict`]): the error of the first
    /// required step that failed; a `Worktree` error if no required step
    /// failed and yet steps are left; or else the worktree.
    pub fn conclude(&self, outcomes: &Vec<Result<(), String>>) -> (result: Result<
        WorktreeInfo,
        RembrandtError,
    >)
        ensures
            match result {
                Ok(info) => info == self.info && is_verdict(Ok(()), self.steps@, outcomes@),
                Err(error) => is_verdict(Err(error), self.steps@, outcomes@),
            },
    {
        match plan_verdict(&self.steps, outcomes) {
            Err(error) => Err(error),
            Ok(()) => Ok(self.info.clone()),
        }
    }
}

/// What is reported for a plan of which steps are left although no required
/// step failed.
pub const PLAN_CUT_SHORT: &'static str = "the plan was not carried out to its end";

/// Whether `result` is the verdict on a plan of `steps`, given the outcomes
/// of the steps that were carried out, in order. A required step that
/// failed ends the plan with its error. Otherwise every step must have been
/// carried out: a plan that was cut short fails with a `Worktree` error.
pub open spec fn is_verdict(
    result: Result<(), RembrandtError>,
    steps: Seq<WorktreeStep>,
    outcomes: Seq<Result<(), String>>,
) -> bool {
    match first_failure(steps, outcomes) {
        Some(error) => result == Err::<(), RembrandtError>(error),
        None => if outcomes.len() >= steps.len() {
            result is Ok
        } else {
            result matches Err(RembrandtError::Worktree(reason)) && reason@ == PLAN_CUT_SHORT@
        },
    }
}

/// The verdict on a plan of `steps`, given the outcomes of the steps that
/// were carried out, in order (see [`is_verdict`]).
pub fn plan_verdict(steps: &Vec<WorktreeStep>, outcomes: &Vec<Result<(), String>>) -> (result:
    Result<(), RembrandtError>)
    ensures
        is_verdict(result, steps@, outcomes@),
{
    match failure_among(steps, outcomes) {
        Some(error) => Err(error),
        None => {
            if outcomes.len() >= steps.len() {
                Ok(())
            } else {
                Err(RembrandtError::Worktree(String::from_str(PLAN_CUT_SHORT)))
            }
        },
    }
}

/// The error of the first required step that failed, if any (see
/// [`first_failure`]).
pub fn failure_among(steps: &Vec<WorktreeStep>, outcomes: &Vec<Result<(), String>>) -> (error:
    Option<RembrandtError>)
    ensures
        error == first_failure(steps@, outcomes@),
{
    let mut i: usize = 0;
    assert(steps@.skip(0) =~= steps@);
    assert(outcomes@.skip(0) =~= outcomes@);
    while i < steps.len() && i < outcomes.len()
        invariant
            i <= steps@.len(),
            i <= outcomes@.len(),
            first_failure(steps@, outcomes@) == first_failure(
                steps@.skip(i as int),
                outcomes@.skip(i as int),
            ),
        decreases steps.len() - i,
    {
        let ghost rest_steps = steps@.skip(i as int);
        let ghost rest_outcomes = outcomes@.skip(i as int);
        assert(rest_steps[0] == steps@[i as int]);
        assert(rest_outcomes[0] == outcomes@[i as int]);
        assert(rest_steps.drop_first() =~= steps@.skip(i + 1));
        assert(rest_outcomes.drop_first() =~= outcomes@.skip(i + 1));
        match &outcomes[i] {
            Err(reason) => {
                let failure = steps[i].failure(reason.clone());
                if failure.is_some() {
                    return failure;
                }
            },
            Ok(_) => {},
        }
        i = i + 1;
    }
    proof {
        let rest_steps = steps@.skip(i as int);
        let rest_outcomes = outcomes@.skip(i as int);
        assert(rest_steps.len() == 0 || rest_outcomes.len() == 0);
    }
    None
}

/// Manages git worktrees for agent isolation.
#[derive(Debug)]
pub struct WorktreeManager {
    /// Path to the main repository.
    repo_path: String,
    /// Path to the `.rembrandt` directory.
    rembrandt_dir: String,
}

impl WorktreeManager {
    /// The representation invariant.
    pub closed spec fn wf(&self) -> bool {
        self.rembrandt_dir@ == spec_rembrandt_dir(self.repo_path@)
    }

    pub closed spec fn spec_repo_path(&self) -> Seq<char> {
        self.repo_path@
    }

    /// A worktree manager for the repository at `repo_path`.
    ///
    /// The directory [`Self::agents_dir`] must exist before worktrees are
    /// provisioned; creating it is up to the caller.
    pub fn new(repo_path: &str) -> (manager: Self)
        ensures
            manager.wf(),
            manager.spec_repo_path() == repo_path@,
    {
        WorktreeManager {
            repo_path: String::from_str(repo_path),
            rembrandt_dir: join_text(repo_path, "/.rembrandt"),
        }
    }

    /// Path to the main repository.
    pub fn repo_path(&self) -> (path: &str)
        ensures
            path@ == self.spec_repo_path(),
    {
        self.repo_path.as_str()
    }

    /// Path to the `.rembrandt` directory.
    pub fn rembrandt_dir(&self) -> (path: &str)
        requires
            self.wf(),
        ensures
            path@ == spec_rembrandt_dir(self.spec_repo_path()),
    {
        self.rembrandt_dir.as_str()
    }

    /// The directory that holds the worktrees of all agents.
    pub fn agents_dir(&self) -> (path: String)
        requires
            self.wf(),
        ensures
            path@ == spec_agents_dir(self.spec_repo_path()),
    {
        join_text(self.rembrandt_dir.as_str(), "/agents")
    }

    /// The path of the worktree of `agent_id`.
    pub fn worktree_path(&self, agent_id: &str) -> (path: String)
        requires
            self.wf(),
        ensures
            path@ == spec_worktree_path(self.spec_repo_path(), agent_id@),
    {
        let mut path = self.agents_dir();
        path.append("/");
        path.append(agent_id);
        path
    }

    /// The worktree of `agent_id`: its path, its branch and the agent.
    pub fn worktree_info(&self, agent_id: &str) -> (info: WorktreeInfo)
        requires
            self.wf(),
        ensures
            info.is_for(self.spec_repo_path(), agent_id@),
    {
        WorktreeInfo {
            path: self.worktree_path(agent_id),
            branch: branch_name(agent_id),
            agent_id: String::from_str(agent_id),
        }
    }


    /// Plan the worktree of `agent_id`, branched off `base_branch`.
    ///
    /// A worktree that is already in place is returned as it is: the plan
    /// has no steps. Otherwise a leftover directory is removed, a stale
    /// registration pruned and a stale branch deleted, the base branch is
    /// resolved, and the branch and the worktree are created. Pruning and
    /// deleting are best effort. So is creating the branch where a branch
    /// of that name is found at the base already: if it could not be
    /// deleted, it is the branch that was wanted. Every other step is
    /// required.
    pub fn create_worktree(&self, agent_id: &str, base_branch: &str, probe: &WorktreeProbe) -> (plan:
        WorktreePlan)
        requires
            self.wf(),
        ensures
            is_create_plan(plan, self.spec_repo_path(), agent_id@, base_branch@, *probe),
    {
        let info = self.worktree_info(agent_id);
        let mut steps: Vec<WorktreeStep> = Vec::new();
        match probe.directory {
            DirectoryState::Worktree => {
                return WorktreePlan { steps, info };
            },
            DirectoryState::Stale => {
                steps.push(
                    WorktreeStep {
                        action: WorktreeAction::RemoveDirectory { path: info.path.clone() },
                        required: true,
                    },
                );
            },
            DirectoryState::Missing => {},
        }
        if probe.registered {
            steps.push(
                WorktreeStep {
                    action: WorktreeAction::PruneWorktree { name: String::from_str(agent_id) },
                    required: false,
                },
            );
        }
        steps.push(
            WorktreeStep {
                action: WorktreeAction::ResolveBranch { name: String::from_str(base_branch) },
                required: true,
            },
        );
        match probe.branch {
            BranchState::Present => {
                steps.push(
                    WorktreeStep {
                        action: WorktreeAction::DeleteBranch { name: info.branch.clone() },
                        required: false,
                    },
                );
            },
            _ => {},
        }
        steps.push(
            WorktreeStep {
                action: WorktreeAction::CreateBranch {
                    name: info.branch.clone(),
                    base: String::from_str(base_branch),
                },
                required: !probe.branch_in_place(),
            },
        );
        steps.push(
            WorktreeStep {
                action: WorktreeAction::AddWorktree {
                    name: String::from_str(agent_id),
                    path: info.path.clone(),
                    branch: info.branch.clone(),
                },
                required: true,
            },
        );
        WorktreePlan { steps, info }
    }

    /// Plan the removal of the worktree of `agent_id`, and of its branch
    /// where `delete_branch` asks for it.
    ///
    /// A registered worktree is pruned, the directory is removed if it is
    /// there, and the branch is deleted if asked for and present. Only the
    /// removal of the directory is required: failing to prune or to delete
    /// the branch does not fail the removal.
    pub fn remove_worktree(&self, agent_id: &str, delete_branch: bool, probe: &WorktreeProbe) -> (steps:
        Vec<WorktreeStep>)
        requires
            self.wf(),
        ensures
            is_remove_plan(steps@, self.spec_repo_path(), agent_id@, delete_branch, *probe),
    {
        let mut steps: Vec<WorktreeStep> = Vec::new();
        if probe.registered {
            steps.push(
                WorktreeStep {
                    action: WorktreeAction::PruneWorktree { name: String::from_str(agent_id) },
                    required: false,
                },
            );
        }
        match probe.directory {
            DirectoryState::Missing => {},
            _ => {
                steps.push(
                    WorktreeStep {
                        action: WorktreeAction::RemoveDirectory { path: self.worktree_path(agent_id) },
                        required: true,
                    },
                );
            },
        }
        if delete_branch {
            match probe.branch {
                BranchState::Missing => {},
                _ => {
                    steps.push(
                        WorktreeStep {
                            action: WorktreeAction::DeleteBranch { name: branch_name(agent_id) },
                            required: false,
                        },
                    );
                },
            }
        }
        steps
    }

    /// The worktrees that git has registered, given the name and the path of
    /// each: every registration is the worktree of the agent it is named
    /// after, on that agent's branch.
    pub fn list_worktrees(&self, registered: &Vec<(String, String)>) -> (worktrees: Vec<WorktreeInfo>)
        ensures
            worktrees@.len() == registered@.len(),
            forall|i: int|
                0 <= i < registered@.len() ==> {
                    let info = #[trigger] worktrees@[i];
                    &&& info.agent_id@ == registered@[i].0@
                    &&& info.path@ == registered@[i].1@
                    &&& info.branch@ == spec_branch_name(registered@[i].0@)
                },
    {
        let mut worktrees: Vec<WorktreeInfo> = Vec::new();
        let mut i: usize = 0;
        while i < registered.len()
            invariant
                i <= registered@.len(),
                worktrees@.len() == i,
                forall|k: int|
                    0 <= k < i ==> {
                        let info = #[trigger] worktrees@[k];
                        &&& info.agent_id@ == registered@[k].0@
                        &&& info.path@ == registered@[k].1@
                        &&& info.branch@ == spec_branch_name(registered@[k].0@)
                    },
            decreases registered.len() - i,
        {
            let name = &registered[i].0;
            let path = &registered[i].1;
            worktrees.push(
                WorktreeInfo {
                    path: path.clone(),
                    branch: branch_name(name.as_str()),
                    agent_id: name.clone(),
                },
            );
            i = i + 1;
        }
        worktrees
    }
}

/// Provisioning is idempotent. Whatever is found, `create_worktree` for
/// the same agent names the same worktree; and where the worktree is found
/// in place, as it is after a first successful call, the plan has no step
/// at all: nothing of the first call's work is touched and the call
/// succeeds.
pub proof fn lemma_create_is_idempotent(
    repo_path: Seq<char>,
    agent_id: Seq<char>,
    base_branch: Seq<char>,
    found_first: WorktreeProbe,
    first: WorktreePlan,
    found_second: WorktreeProbe,
    second: WorktreePlan,
)
    requires
        is_create_plan(first, repo_path, agent_id, base_branch, found_first),
        is_create_plan(second, repo_path, agent_id, base_branch, found_second),
        found_second.directory == DirectoryState::Worktree,
    ensures
        first.info.same_as(&second.info),
        second.steps@.len() == 0,
        forall|outcomes: Seq<Result<(), String>>|
            first_failure(second.steps@, outcomes) is None,
{
}

/// A plan that provisions repairs before it builds. It ends by creating
/// the branch and adding the worktree; adding is required, and so is
/// creating unless the branch is found in place at the base. And it never
/// deletes a branch that is checked out.
pub proof fn lemma_create_steps_shape(probe: WorktreeProbe)
    ensures
        ({
            let shape = spec_create_steps(probe);
            &&& probe.directory == DirectoryState::Worktree ==> shape.len() == 0
            &&& probe.directory != DirectoryState::Worktree ==> shape.len() >= 3 && shape[shape.len()
                - 2] == (StepKind::CreateBranch, !probe.spec_branch_in_place()) && shape[shape.len()
                - 1] == (StepKind::AddWorktree, true)
            &&& probe.branch == BranchState::CheckedOut ==> forall|i: int|
                0 <= i < shape.len() ==> (#[trigger] shape[i]).0 != StepKind::DeleteBranch
        }),
{
}

/// A residual branch does not stand in the way of a repair. Where the
/// branch is found at the base, the plan succeeds although the branch can
/// neither be deleted nor created, as long as every other step succeeds.
pub proof fn lemma_residual_branch_is_passed_over(
    steps: Seq<WorktreeStep>,
    names: StepNames,
    probe: WorktreeProbe,
    outcomes: Seq<Result<(), String>>,
)
    requires
        steps_match(steps, spec_create_steps(probe), names),
        probe.spec_branch_in_place(),
        outcomes.len() == steps.len(),
        forall|i: int|
            0 <= i < steps.len() && (#[trigger] outcomes[i]) is Err ==> steps[i].action is DeleteBranch
                || steps[i].action is CreateBranch || steps[i].action is PruneWorktree,
    ensures
        first_failure(steps, outcomes) is None,
        is_verdict(Ok(()), steps, outcomes),
{
    lemma_no_required_failure(steps, outcomes);
}

/// A plan of which no required step failed has no failure.
pub proof fn lemma_no_required_failure(steps: Seq<WorktreeStep>, outcomes: Seq<Result<(), String>>)
    requires
        forall|i: int|
            0 <= i < steps.len() && i < outcomes.len() && (#[trigger] outcomes[i]) is Err
                ==> !steps[i].required,
    ensures
        first_failure(steps, outcomes) is None,
    decreases steps.len(),
{
    if steps.len() > 0 && outcomes.len() > 0 {
        assert(outcomes[0] is Err ==> !steps[0].required);
        assert forall|i: int|
            0 <= i < steps.drop_first().len() && i < outcomes.drop_first().len() && (
            #[trigger] outcomes.drop_first()[i]) is Err implies !steps.drop_first()[i].required by {
            assert(outcomes[i + 1] is Err);
            assert(!steps[i + 1].required);
        }
        lemma_no_required_failure(steps.drop_first(), outcomes.drop_first());
    }
}

} // verus!
