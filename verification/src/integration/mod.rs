//! External tool integrations: the task tracker, the decision log and the
//! mail between agents.

pub mod agent_mail;
pub mod beads;
pub mod porque;

use vstd::prelude::*;

verus! {

/// An integration with an external tool.
pub trait Integration {
    /// Whether the tool can be reached.
    fn is_available(&self) -> bool;

    /// The name of the integration.
    fn name(&self) -> &'static str;
}

} // verus!
