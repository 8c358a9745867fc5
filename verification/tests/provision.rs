use git2::{BranchType, Repository, RepositoryInitOptions, Signature};
use rembrandt::timestamp::Timestamp;
use rembrandt::worktree::{
    BranchState, DirectoryState, WorktreeAction, WorktreeInfo, WorktreeManager, WorktreeProbe,
    WorktreeStep,
};
use rembrandt::RembrandtError;
use std::path::{Path, PathBuf};

/// A repository of its own for one test, with one commit on `main`.
fn fresh_repo(name: &str) -> (PathBuf, Repository) {
    let now = Timestamp::now();
    let root = PathBuf::from(format!("/tmp/rembrandt-{}-{}-{}", name, now.secs, now.nanos));
    let mut options = RepositoryInitOptions::new();
    options.initial_head("main");
    let repo = Repository::init_opts(&root, &options).unwrap();
    {
        let tree_id = repo.index().unwrap().write_tree().unwrap();
        let tree = repo.find_tree(tree_id).unwrap();
        let author = Signature::now("tester", "tester@example.com").unwrap();
        repo.commit(Some("HEAD"), &author, &author, "initial", &tree, &[]).unwrap();
    }
    (root, repo)
}

/// The worktree manager of the repository at `root`, with the directory of
/// the agents in place. Initializing a bare repository there is a way of
/// making the directory.
fn manager_of(root: &Path) -> WorktreeManager {
    let manager = WorktreeManager::new(&root.to_string_lossy());
    Repository::init_bare(manager.agents_dir()).unwrap();
    manager
}

fn probe(
    repo: &Repository,
    manager: &WorktreeManager,
    agent_id: &str,
    base_branch: Option<&str>,
) -> WorktreeProbe {
    let info = manager.worktree_info(agent_id);
    let path = Path::new(&info.path);
    let directory = if !path.exists() {
        DirectoryState::Missing
    } else if path.join(".git").exists() {
        DirectoryState::Worktree
    } else {
        DirectoryState::Stale
    };
    let commit_of = |name: &str| {
        repo.find_branch(name, BranchType::Local)
            .and_then(|branch| branch.get().peel_to_commit())
            .map(|commit| commit.id())
            .ok()
    };
    let branch = match repo.find_branch(&info.branch, BranchType::Local) {
        Ok(found) if found.is_head() => BranchState::CheckedOut,
        Ok(_) => BranchState::Present,
        Err(_) => BranchState::Missing,
    };
    let at_branch = commit_of(&info.branch);
    WorktreeProbe {
        directory,
        registered: repo.find_worktree(agent_id).is_ok(),
        branch,
        branch_at_base: at_branch.is_some() && at_branch == base_branch.and_then(commit_of),
    }
}

fn carry_out(repo: &Repository, action: &WorktreeAction) -> Result<(), String> {
    match action {
        // Pruning takes the working tree along; nothing else leaves a directory
        // behind in these tests.
        WorktreeAction::RemoveDirectory { path } => {
            if Path::new(path).exists() {
                Err(format!("{} is still there", path))
            } else {
                Ok(())
            }
        }
        WorktreeAction::PruneWorktree { name } => repo
            .find_worktree(name)
            .and_then(|worktree| {
                worktree.prune(Some(
                    git2::WorktreePruneOptions::new().working_tree(true).valid(true),
                ))
            })
            .map_err(|e| e.to_string()),
        WorktreeAction::ResolveBranch { name } => repo
            .find_branch(name, BranchType::Local)
            .and_then(|branch| branch.get().peel_to_commit())
            .map(|_| ())
            .map_err(|e| e.to_string()),
        WorktreeAction::DeleteBranch { name } => repo
            .find_branch(name, BranchType::Local)
            .and_then(|mut branch| branch.delete())
            .map_err(|e| e.to_string()),
        WorktreeAction::CreateBranch { name, base } => repo
            .find_branch(base, BranchType::Local)
            .and_then(|branch| branch.get().peel_to_commit())
            .and_then(|commit| repo.branch(name, &commit, false))
            .map(|_| ())
            .map_err(|e| e.to_string()),
        WorktreeAction::AddWorktree { name, path, branch } => {
            let reference =
                repo.find_branch(branch, BranchType::Local).map_err(|e| e.to_string())?.into_reference();
            let mut options = git2::WorktreeAddOptions::new();
            options.reference(Some(&reference));
            repo.worktree(name, Path::new(path), Some(&options)).map(|_| ()).map_err(|e| e.to_string())
        }
    }
}

fn carry_out_all(repo: &Repository, steps: &[WorktreeStep]) -> Vec<Result<(), String>> {
    let mut outcomes = Vec::new();
    for step in steps {
        let outcome = carry_out(repo, &step.action);
        let stop = step.ends_plan(&outcome);
        outcomes.push(outcome);
        if stop {
            break;
        }
    }
    outcomes
}

fn create(
    repo: &Repository,
    manager: &WorktreeManager,
    agent_id: &str,
    base: &str,
) -> Result<WorktreeInfo, RembrandtError> {
    let found = probe(repo, manager, agent_id, Some(base));
    let plan = manager.create_worktree(agent_id, base, &found);
    plan.conclude(&carry_out_all(repo, &plan.steps))
}

fn remove(
    repo: &Repository,
    manager: &WorktreeManager,
    agent_id: &str,
    delete_branch: bool,
) -> Option<RembrandtError> {
    let found = probe(repo, manager, agent_id, None);
    let steps = manager.remove_worktree(agent_id, delete_branch, &found);
    rembrandt::worktree::plan_verdict(&steps, &carry_out_all(repo, &steps)).err()
}

#[test]
fn worktree_is_created_once_and_found_again() {
    let (root, repo) = fresh_repo("idempotent");
    let manager = manager_of(&root);

    let first = create(&repo, &manager, "a1", "main").unwrap();
    assert_eq!(first.agent_id, "a1");
    assert_eq!(first.branch, "rembrandt/a1");
    assert!(Path::new(&first.path).join(".git").exists());
    assert!(repo.find_branch("rembrandt/a1", BranchType::Local).is_ok());
    assert!(repo.find_worktree("a1").is_ok());

    let found = probe(&repo, &manager, "a1", Some("main"));
    assert_eq!(found.directory, DirectoryState::Worktree);
    assert!(manager.create_worktree("a1", "main", &found).steps.is_empty());
    let second = create(&repo, &manager, "a1", "main").unwrap();
    assert_eq!(second.path, first.path);
    assert_eq!(second.branch, first.branch);
    assert_eq!(second.agent_id, first.agent_id);
    assert!(Path::new(&first.path).join(".git").exists());
}

#[test]
fn stale_branch_is_replaced_by_a_fresh_one() {
    let (root, repo) = fresh_repo("stale-branch");
    let manager = manager_of(&root);
    {
        let head = repo.head().unwrap().peel_to_commit().unwrap();
        repo.branch("rembrandt/a2", &head, false).unwrap();
    }
    let found = probe(&repo, &manager, "a2", Some("main"));
    assert_eq!(found.branch, BranchState::Present);
    assert!(found.branch_at_base);
    assert_eq!(found.directory, DirectoryState::Missing);
    let info = create(&repo, &manager, "a2", "main").unwrap();
    assert!(Path::new(&info.path).join(".git").exists());
    assert!(repo.find_branch("rembrandt/a2", BranchType::Local).is_ok());
}

#[test]
fn missing_base_branch_fails_with_a_git_error() {
    let (root, repo) = fresh_repo("nobase");
    let manager = manager_of(&root);
    assert!(matches!(create(&repo, &manager, "a4", "develop"), Err(RembrandtError::Git(_))));
    assert!(!Path::new(&manager.worktree_path("a4")).exists());
    assert!(repo.find_branch("rembrandt/a4", BranchType::Local).is_err());
}

#[test]
fn removal_takes_directory_registration_and_branch() {
    let (root, repo) = fresh_repo("remove");
    let manager = manager_of(&root);

    let info = create(&repo, &manager, "a5", "main").unwrap();
    assert!(remove(&repo, &manager, "a5", false).is_none());
    assert!(!Path::new(&info.path).exists());
    assert!(repo.find_worktree("a5").is_err());
    assert!(repo.find_branch("rembrandt/a5", BranchType::Local).is_ok());
    // Removing again is no error.
    assert!(remove(&repo, &manager, "a5", false).is_none());

    let info = create(&repo, &manager, "a5", "main").unwrap();
    assert!(Path::new(&info.path).exists());
    assert!(remove(&repo, &manager, "a5", true).is_none());
    assert!(!Path::new(&info.path).exists());
    assert!(repo.find_branch("rembrandt/a5", BranchType::Local).is_err());
}

#[test]
fn branch_that_is_checked_out_at_the_base_does_not_abort_the_branching() {
    let (root, repo) = fresh_repo("checked-out");
    let manager = manager_of(&root);
    {
        let head = repo.head().unwrap().peel_to_commit().unwrap();
        repo.branch("rembrandt/a6", &head, false).unwrap();
    }
    repo.set_head("refs/heads/rembrandt/a6").unwrap();
    let found = probe(&repo, &manager, "a6", Some("main"));
    assert_eq!(found.branch, BranchState::CheckedOut);
    assert!(found.branch_at_base);

    let plan = manager.create_worktree("a6", "main", &found);
    let outcomes = carry_out_all(&repo, &plan.steps);
    // The branch is there already and cannot be created; that is passed over.
    let branching = plan
        .steps
        .iter()
        .position(|s| matches!(s.action, WorktreeAction::CreateBranch { .. }))
        .unwrap();
    assert!(!plan.steps[branching].required);
    assert!(outcomes[branching].is_err());
    assert_eq!(outcomes.len(), plan.steps.len());
    assert!(repo.find_branch("rembrandt/a6", BranchType::Local).is_ok());
}
