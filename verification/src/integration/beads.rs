//! The task tracker, driven through its command line tool.

use vstd::prelude::*;
use vstd::string::*;
use crate::integration::Integration;
use crate::text::join_text;

verus! {

/// Integration with the issue tracker.
#[derive(Debug, Clone, Copy)]
pub struct BeadsIntegration {
    available: bool,
}

/// A task of the issue tracker.
#[derive(Debug)]
pub struct BeadsTask {
    pub id: String,
    pub title: String,
    pub status: String,
    pub priority: Option<i32>,
    pub issue_type: Option<String>,
    pub description: Option<String>,
}

/// The status that a task gets when an agent claims it.
pub const STATUS_IN_PROGRESS: &'static str = "in_progress";

/// The status that a task gets when its agent ends in failure.
pub const STATUS_BLOCKED: &'static str = "blocked";

impl BeadsIntegration {
    pub closed spec fn spec_available(&self) -> bool {
        self.available
    }

    /// The integration, given whether the tracker's tool answered when it
    /// was asked for its version.
    pub fn new(available: bool) -> (beads: Self)
        ensures
            beads.spec_available() == available,
    {
        BeadsIntegration { available }
    }
}

/// The status to set on the task of a session that has just ended with
/// `exit_code`, if any: a failure blocks the task. A clean exit changes
/// nothing, since an agent that was told to quit has not thereby finished
/// its task.
pub fn status_after_exit(exit_code: i32) -> (status: Option<&'static str>)
    ensures
        exit_code == 0 ==> status is None,
        exit_code != 0 ==> (status matches Some(s) && s@ == STATUS_BLOCKED@),
{
    if exit_code != 0 {
        Some(STATUS_BLOCKED)
    } else {
        None
    }
}

/// The comment that records which agent claimed a task.
pub fn claim_comment(agent_id: &str) -> (comment: String)
    ensures
        comment@ == "Claimed by agent: "@ + agent_id@,
{
    join_text("Claimed by agent: ", agent_id)
}

/// The comment that records which agent completed a task.
pub fn completion_comment(agent_id: &str) -> (comment: String)
    ensures
        comment@ == "Completed by agent: "@ + agent_id@,
{
    join_text("Completed by agent: ", agent_id)
}

impl Integration for BeadsIntegration {
    fn is_available(&self) -> (available: bool)
        ensures
            available == self.spec_available(),
    {
        self.available
    }

    fn name(&self) -> (name: &'static str)
        ensures
            name@ == "beads"@,
    {
        "beads"
    }
}

} // verus!
