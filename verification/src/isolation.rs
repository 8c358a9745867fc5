//! Workspace isolation strategies.
//!
//! An agent either gets a worktree of its own or works in the shared
//! checkout on a branch of its own. A strategy plans what has to happen in
//! the repository before the agent starts and after it has been given up on.

use vstd::prelude::*;
use vstd::string::*;
use crate::error::RembrandtError;
use crate::worktree::{
    branch_name, is_create_plan, is_remove_plan, is_verdict, plan_verdict, spec_branch_name,
    spec_worktree_path, step_names, steps_match, BranchState, StepKind, WorktreeAction,
    WorktreeManager, WorktreePlan, WorktreeProbe, WorktreeStep,
};

verus! {

/// Supported workspace isolation modes.
#[derive(Debug, Clone, Copy, PartialEq, Eq, Structural)]
pub enum IsolationMode {
    /// The shared checkout, on a branch of the agent's own.
    Branch,
    /// A worktree of the agent's own.
    Worktree,
}

impl IsolationMode {
    /// The short tag of the mode.
    pub open spec fn spec_tag(&self) -> Seq<char> {
        match self {
            IsolationMode::Branch => "branch"@,
            IsolationMode::Worktree => "worktree"@,
        }
    }

    /// The short tag of the mode: `branch` or `worktree`.
    pub fn as_str(&self) -> (tag: &'static str)
        ensures
            tag@ == self.spec_tag(),
    {
        match self {
            IsolationMode::Branch => "branch",
            IsolationMode::Worktree => "worktree",
        }
    }
}

/// Provisioned workspace details returned by an isolation strategy.
#[derive(Debug)]
pub struct IsolationContext {
    pub agent_id: String,
    pub mode: IsolationMode,
    pub repo_path: String,
    pub checkout_path: String,
    pub branch_name: String,
}

impl Clone for IsolationContext {
    fn clone(&self) -> (copy: Self)
        ensures
            copy == *self,
    {
        IsolationContext {
            agent_id: self.agent_id.clone(),
            mode: self.mode,
            repo_path: self.repo_path.clone(),
            checkout_path: self.checkout_path.clone(),
            branch_name: self.branch_name.clone(),
        }
    }
}

impl IsolationContext {
    /// Whether this is the workspace of `agent_id` in the repository at
    /// `repo_path` under the mode `mode`: on the agent's branch, and checked
    /// out in the agent's worktree or, in branch mode, in the repository
    /// itself.
    pub open spec fn is_for(&self, mode: IsolationMode, repo_path: Seq<char>, agent_id: Seq<char>) -> bool {
        &&& self.agent_id@ == agent_id
        &&& self.mode == mode
        &&& self.repo_path@ == repo_path
        &&& self.branch_name@ == spec_branch_name(agent_id)
        &&& self.checkout_path@ == match mode {
            IsolationMode::Worktree => spec_worktree_path(repo_path, agent_id),
            IsolationMode::Branch => repo_path,
        }
    }
}

/// What has to happen before an agent can start: steps to carry out in
/// order, and the workspace that is ready once every required step has
/// succeeded.
#[derive(Debug)]
pub struct IsolationPlan {
    pub steps: Vec<WorktreeStep>,
    pub context: IsolationContext,
}

impl IsolationPlan {
    /// The result of the plan, given the outcomes of the steps that were
    /// carried out, in order (see [`is_verdict`]): the error of the first
    /// required step that failed; a `Worktree` error if no required step
    /// failed and yet steps are left; or else the workspace.
    pub fn conclude(&self, outcomes: &Vec<Result<(), String>>) -> (result: Result<
        IsolationContext,
        RembrandtError,
    >)
        ensures
            match result {
                Ok(context) => context == self.context && is_verdict(
                    Ok(()),
                    self.steps@,
                    outcomes@,
                ),
                Err(error) => is_verdict(Err(error), self.steps@, outcomes@),
            },
    {
        match plan_verdict(&self.steps, outcomes) {
            Err(error) => Err(error),
            Ok(()) => Ok(self.context.clone()),
        }
    }
}

/// The steps that put an agent on a branch of its own in the shared
/// checkout: the base branch is resolved, and the agent's branch is created
/// unless it exists already.
pub open spec fn spec_branch_steps(probe: WorktreeProbe) -> Seq<(StepKind, bool)> {
    if probe.branch == BranchState::Missing {
        seq![(StepKind::ResolveBranch, true), (StepKind::CreateBranch, true)]
    } else {
        seq![(StepKind::ResolveBranch, true)]
    }
}

/// A way of giving an agent a workspace of its own.
pub trait IsolationStrategy {
    /// The mode that the strategy implements.
    fn mode(&self) -> IsolationMode;

    /// Plan the workspace of `agent_id`, branched off `base_branch`, in the
    /// repository at `repo_path`, given what `probe` found there.
    fn prepare(
        &self,
        repo_path: &str,
        agent_id: &str,
        base_branch: &str,
        probe: &WorktreeProbe,
    ) -> IsolationPlan;

    /// Plan what gives the workspace `ctx` up again, given what `probe`
    /// found.
    fn cleanup(&self, ctx: &IsolationContext, probe: &WorktreeProbe) -> Vec<WorktreeStep>;
}

/// Worktree-backed isolation.
#[derive(Debug, Clone, Copy)]
pub struct WorktreeIsolation;

impl IsolationStrategy for WorktreeIsolation {
    fn mode(&self) -> (mode: IsolationMode)
        ensures
            mode == IsolationMode::Worktree,
    {
        IsolationMode::Worktree
    }

    /// The plan of [`WorktreeManager::create_worktree`]; the agent works in
    /// its worktree.
    fn prepare(&self, repo_path: &str, agent_id: &str, base_branch: &str, probe: &WorktreeProbe) -> (plan:
        IsolationPlan)
        ensures
            plan.context.is_for(IsolationMode::Worktree, repo_path@, agent_id@),
            steps_match(
                plan.steps@,
                crate::worktree::spec_create_steps(*probe),
                step_names(repo_path@, agent_id@, base_branch@),
            ),
    {
        let manager = WorktreeManager::new(repo_path);
        let WorktreePlan { steps, info } = manager.create_worktree(agent_id, base_branch, probe);
        IsolationPlan {
            steps,
            context: IsolationContext {
                agent_id: String::from_str(agent_id),
                mode: IsolationMode::Worktree,
                repo_path: String::from_str(repo_path),
                checkout_path: info.path,
                branch_name: info.branch,
            },
        }
    }

    /// The plan of [`WorktreeManager::remove_worktree`], branch included:
    /// nothing of the workspace is to remain.
    fn cleanup(&self, ctx: &IsolationContext, probe: &WorktreeProbe) -> (steps: Vec<WorktreeStep>)
        ensures
            is_remove_plan(steps@, ctx.repo_path@, ctx.agent_id@, true, *probe),
    {
        let manager = WorktreeManager::new(ctx.repo_path.as_str());
        manager.remove_worktree(ctx.agent_id.as_str(), true, probe)
    }
}

/// Branch-only isolation: create a branch and use the shared checkout.
#[derive(Debug, Clone, Copy)]
pub struct BranchIsolation;

impl IsolationStrategy for BranchIsolation {
    fn mode(&self) -> (mode: IsolationMode)
        ensures
            mode == IsolationMode::Branch,
    {
        IsolationMode::Branch
    }

    /// The base branch is resolved and the agent's branch created off it
    /// unless it exists, in which case it is reused; the agent works in the
    /// repository itself.
    fn prepare(&self, repo_path: &str, agent_id: &str, base_branch: &str, probe: &WorktreeProbe) -> (plan:
        IsolationPlan)
        ensures
            plan.context.is_for(IsolationMode::Branch, repo_path@, agent_id@),
            steps_match(
                plan.steps@,
                spec_branch_steps(*probe),
                step_names(repo_path@, agent_id@, base_branch@),
            ),
    {
        let branch = branch_name(agent_id);
        let mut steps: Vec<WorktreeStep> = Vec::new();
        steps.push(
            WorktreeStep {
                action: WorktreeAction::ResolveBranch { name: String::from_str(base_branch) },
                required: true,
            },
        );
        match probe.branch {
            BranchState::Missing => {
                steps.push(
                    WorktreeStep {
                        action: WorktreeAction::CreateBranch {
                            name: branch.clone(),
                            base: String::from_str(base_branch),
                        },
                        required: true,
                    },
                );
            },
            _ => {},
        }
        IsolationPlan {
            steps,
            context: IsolationContext {
                agent_id: String::from_str(agent_id),
                mode: IsolationMode::Branch,
                repo_path: String::from_str(repo_path),
                checkout_path: String::from_str(repo_path),
                branch_name: branch,
            },
        }
    }

    /// Nothing: whether the branch lives on is up to the caller.
    fn cleanup(&self, ctx: &IsolationContext, probe: &WorktreeProbe) -> (steps: Vec<WorktreeStep>)
        ensures
            steps@.len() == 0,
    {
        Vec::new()
    }
}

} // verus!
