//! The log of architectural decisions, driven through its command line
//! tool.

use vstd::prelude::*;
use crate::integration::Integration;

verus! {

/// Integration with the decision log.
#[derive(Debug, Clone, Copy)]
pub struct PorqueIntegration {
    available: bool,
}

/// An architectural decision.
#[derive(Debug)]
pub struct Decision {
    pub id: String,
    pub title: String,
    pub status: String,
    pub context: Option<String>,
}

/// A decision violation.
#[derive(Debug)]
pub struct Violation {
    pub decision_id: String,
    pub file: String,
    pub reason: String,
}

impl PorqueIntegration {
    pub closed spec fn spec_available(&self) -> bool {
        self.available
    }

    /// The integration, given whether the tool answered when it was asked
    /// for its version.
    pub fn new(available: bool) -> (porque: Self)
        ensures
            porque.spec_available() == available,
    {
        PorqueIntegration { available }
    }
}

impl Integration for PorqueIntegration {
    fn is_available(&self) -> (available: bool)
        ensures
            available == self.spec_available(),
    {
        self.available
    }

    fn name(&self) -> (name: &'static str)
        ensures
            name@ == "porque"@,
    {
        "porque"
    }
}

} // verus!
