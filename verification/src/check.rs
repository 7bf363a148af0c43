//! What is probed, and what a probe can come to.

use crate::state::State;
use vstd::prelude::*;

verus! {

/// How a target is probed.
#[derive(Clone, Copy, Debug, PartialEq, Eq, Structural)]
pub enum CheckType {
    Http,
    Ping,
    Port,
}

/// What one probe came to. `Unknown` means that the probe could not be
/// judged at all; it carries no state and is never recorded.
#[derive(Clone, Copy, Debug, PartialEq, Eq, Structural)]
pub enum CheckResult {
    Success,
    Failure(State),
    Unknown,
}

/// A named target and how to probe it.
#[derive(Debug, PartialEq, Eq)]
pub struct Check {
    pub name: String,
    pub description: Option<String>,
    pub target: String,
    pub page_link: Option<String>,
    pub expected_status: Option<u16>,
    pub timeout_ms: u64,
    pub check_type: CheckType,
    pub port: Option<u16>,
}

/// A copy of an optional text.
pub fn clone_text(text: &Option<String>) -> (copy: Option<String>)
    ensures
        copy == *text,
{
    match text {
        Some(t) => Some(t.clone()),
        None => None,
    }
}

impl Clone for Check {
    fn clone(&self) -> (copy: Self)
        ensures
            copy == *self,
    {
        Check {
            name: self.name.clone(),
            description: clone_text(&self.description),
            target: self.target.clone(),
            page_link: clone_text(&self.page_link),
            expected_status: self.expected_status,
            timeout_ms: self.timeout_ms,
            check_type: self.check_type,
            port: self.port,
        }
    }
}

} // verus!
