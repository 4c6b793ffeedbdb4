//! The records of a node group.

use vstd::prelude::*;
use vstd::string::StringExecFns;

verus! {

/// A named group of nodes.
#[derive(Debug, Clone)]
pub struct HsmGroup {
    pub label: String,
    pub description: Option<String>,
    pub tags: Option<Vec<String>>,
    pub members: Option<Member>,
    pub exclusive_group: Option<String>,
}

/// The nodes of a group.
#[derive(Debug, Clone)]
pub struct Member {
    pub ids: Option<Vec<String>>,
}

impl Default for Member {
    fn default() -> (member: Member)
        ensures
            member.ids is None,
    {
        Member { ids: None }
    }
}

impl HsmGroup {
    /// The group to create under `label`, with the nodes in `xnames` as
    /// its members.
    pub fn with_members(
        label: &str,
        xnames: Vec<String>,
        exclusive: &str,
        description: &str,
        tags: Vec<String>,
    ) -> (group: HsmGroup)
        ensures
            group.label@ == label@,
            group.description is Some && group.description->0@ == description@,
            group.tags == Some(tags),
            group.exclusive_group is Some && group.exclusive_group->0@ == exclusive@,
            group.members is Some && group.members->0.ids == Some(xnames),
    {
        HsmGroup {
            label: String::from_str(label),
            description: Some(String::from_str(description)),
            tags: Some(tags),
            members: Some(Member { ids: Some(xnames) }),
            exclusive_group: Some(String::from_str(exclusive)),
        }
    }
}

} // verus!
