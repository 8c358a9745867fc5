//! Configuration of the orchestration services.

use vstd::prelude::*;

verus! {

/// Workspace isolation mode.
#[derive(Debug, Clone, Copy, PartialEq, Eq, Structural)]
pub enum DefaultIsolationMode {
    Branch,
    Worktree,
}

/// Preferred terminal backend for attach and observe flows.
#[derive(Debug, Clone, Copy, PartialEq, Eq, Structural)]
pub enum TerminalBackendKind {
    /// No backend is preferred.
    Detached,
    Tmux,
    Cmux,
}

/// Runtime configuration of the services.
#[derive(Debug, Clone, Copy, PartialEq, Eq, Structural)]
pub struct AppConfig {
    pub default_spawn_isolation: DefaultIsolationMode,
    pub default_compete_isolation: DefaultIsolationMode,
    pub csi_poll_interval_secs: u64,
    pub terminal_backend: TerminalBackendKind,
}

impl Default for AppConfig {
    /// Agents are spawned on a branch and compete in worktrees; the poll
    /// interval is 15 seconds and no terminal backend is preferred.
    fn default() -> (config: Self)
        ensures
            config == (AppConfig {
                default_spawn_isolation: DefaultIsolationMode::Branch,
                default_compete_isolation: DefaultIsolationMode::Worktree,
                csi_poll_interval_secs: 15,
                terminal_backend: TerminalBackendKind::Detached,
            }),
    {
        AppConfig {
            default_spawn_isolation: DefaultIsolationMode::Branch,
            default_compete_isolation: DefaultIsolationMode::Worktree,
            csi_poll_interval_secs: 15,
            terminal_backend: TerminalBackendKind::Detached,
        }
    }
}

} // verus!
