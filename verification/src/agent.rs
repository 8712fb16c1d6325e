//! The per-session permission policy: which tools are trusted outright,
//! which are explicitly refused, and per-tool sub-settings.
use vstd::prelude::*;

use crate::text;

verus! {

/// Result of evaluating the permission policy for one tool use.
#[derive(Debug, Clone, Copy, PartialEq, Eq, Structural)]
pub enum PermissionEvalResult {
    Allow,
    Ask,
    Deny,
}

/// Narrower allow/deny sub-settings for the aws tool: service names that may
/// be used without confirmation, and service names that are refused.
#[derive(Debug, Clone)]
pub struct UseAwsSettings {
    pub allowed_services: Vec<String>,
    pub denied_services: Vec<String>,
}

/// The active policy: an allow-list of trusted tool names, an explicit deny
/// list, and optional per-tool settings.
#[derive(Debug, Clone)]
pub struct Agent {
    pub allowed_tools: Vec<String>,
    pub denied_tools: Vec<String>,
    pub use_aws_settings: Option<UseAwsSettings>,
}

impl Agent {
    pub fn new() -> (r: Agent)
        ensures
            r.allowed_tools@.len() == 0,
            r.denied_tools@.len() == 0,
            r.use_aws_settings is None,
    {
        Agent { allowed_tools: Vec::new(), denied_tools: Vec::new(), use_aws_settings: None }
    }
}

/// The set of policies loaded for this session, with the one active policy
/// and the session-wide trust-all override.
#[derive(Debug, Clone)]
pub struct Agents {
    pub active: Option<Agent>,
    pub trust_all_tools: bool,
}

/// Whether `name` occurs in `list`, compared character for character.
pub open spec fn name_in_list(list: Seq<Seq<char>>, name: Seq<char>) -> bool {
    exists|i: int| 0 <= i < list.len() && list[i] == name
}

/// Whether `name` occurs in `list`.
pub fn list_contains(list: &Vec<String>, name: &str) -> (r: bool)
    ensures
        r == name_in_list(list.deep_view(), name@),
{
    let mut i: usize = 0;
    while i < list.len()
        invariant
            0 <= i <= list@.len(),
            forall|k: int| 0 <= k < i ==> list.deep_view()[k] != name@,
        decreases list@.len() - i,
    {
        if text::str_eq(list[i].as_str(), name) {
            proof {
                assert(list.deep_view()[i as int] == name@);
            }
            return true;
        }
        i = i + 1;
    }
    false
}

impl Agents {
    pub fn new() -> (r: Agents)
        ensures
            r.active is None,
            r.trust_all_tools == false,
    {
        Agents { active: None, trust_all_tools: false }
    }

    /// Persists the given tool names into the active policy's trusted set for
    /// the remainder of the session.
    pub fn trust_tools(&mut self, names: Vec<String>)
        ensures
            match old(self).active {
                Some(a) => final(self).active matches Some(b) && b.allowed_tools@ == a.allowed_tools@
                    + names@ && b.denied_tools == a.denied_tools && b.use_aws_settings
                    == a.use_aws_settings,
                None => final(self).active is None,
            },
            final(self).trust_all_tools == old(self).trust_all_tools,
    {
        match &mut self.active {
            Some(a) => {
                let mut rest = names;
                a.allowed_tools.append(&mut rest);
            },
            None => {},
        }
    }
}

} // verus!
