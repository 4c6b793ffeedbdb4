//! Whether a session lies within the group that a user is confined to.

use vstd::prelude::*;
use crate::cfs::session::mesa::types::{group_names, CfsSessionGetResponse};
use crate::common::text::{contains_string, split_char, split_on, str_eq, texts};

verus! {

/// The names of the groups that a session targets; none where it states no
/// groups.
pub open spec fn session_group_names(session: CfsSessionGetResponse) -> Seq<Seq<char>> {
    match session.target {
        Some(target) => match target.groups {
            Some(groups) => group_names(groups@),
            None => Seq::empty(),
        },
        None => Seq::empty(),
    }
}

/// The pieces of a session's limit between commas, as they stand; the one
/// empty piece where it states no limit.
pub open spec fn session_limit_pieces(session: CfsSessionGetResponse) -> Seq<Seq<char>> {
    match session.ansible {
        Some(ansible) => match ansible.limit {
            Some(limit) => split_on(limit@, ','),
            None => split_on(Seq::empty(), ','),
        },
        None => split_on(Seq::empty(), ','),
    }
}

/// Every text of `pieces` is in `members`.
pub open spec fn all_within(pieces: Seq<Seq<char>>, members: Seq<Seq<char>>) -> bool {
    forall|i: int| 0 <= i < pieces.len() ==> members.contains(#[trigger] pieces[i])
}

/// A session applies to a group if it targets the group by name, or if
/// every node of its limit is a member of the group.
pub open spec fn session_applies(
    session: CfsSessionGetResponse,
    group: Seq<char>,
    members: Seq<Seq<char>>,
) -> bool {
    session_group_names(session).contains(group) || all_within(
        session_limit_pieces(session),
        members,
    )
}

/// Whether all strings of `pieces` are in `members`.
pub fn is_all_within(pieces: &Vec<String>, members: &[String]) -> (within: bool)
    ensures
        within == all_within(texts(pieces@), texts(members@)),
{
    let mut i: usize = 0;
    while i < pieces.len()
        invariant
            i <= pieces.len(),
            forall|j: int| 0 <= j < i ==> texts(members@).contains(#[trigger] texts(pieces@)[j]),
        decreases pieces.len() - i,
    {
        if !contains_string(members, pieces[i].as_str()) {
            assert(texts(pieces@)[i as int] == pieces[i as int]@);
            return false;
        }
        i = i + 1;
    }
    true
}

/// Decides whether the last of `cfs_sessions` may be accessed by a user who
/// is confined to the group `hsm_group`, whose nodes are
/// `hsm_group_members`. A user who is not confined may access every
/// session. For a confined user there must be a session, and it must state
/// a target and an ansible section.
pub fn validate_config_hsm_group_and_hsm_group_accessed(
    hsm_group: Option<&String>,
    hsm_group_members: &[String],
    cfs_sessions: &[CfsSessionGetResponse],
) -> (granted: bool)
    requires
        hsm_group is Some ==> cfs_sessions@.len() > 0 && cfs_sessions@.last().target is Some
            && cfs_sessions@.last().ansible is Some,
    ensures
        granted == match hsm_group {
            Some(name) => session_applies(
                cfs_sessions@.last(),
                name@,
                texts(hsm_group_members@),
            ),
            None => true,
        },
{
    let name = match hsm_group {
        Some(name) => name,
        None => {
            return true;
        },
    };
    let session = &cfs_sessions[cfs_sessions.len() - 1];
    let targeted = match &session.target {
        Some(target) => match &target.groups {
            Some(groups) => {
                let mut found = false;
                let mut i: usize = 0;
                while i < groups.len() && !found
                    invariant
                        i <= groups.len(),
                        found ==> group_names(groups@).contains(name@),
                        !found ==> forall|j: int| 0 <= j < i ==> group_names(groups@)[j] != name@,
                    decreases groups.len() - i + (if found { 0int } else { 1int }),
                {
                    if str_eq(groups[i].name.as_str(), name.as_str()) {
                        assert(group_names(groups@)[i as int] == name@);
                        found = true;
                    } else {
                        i = i + 1;
                    }
                }
                found
            },
            None => false,
        },
        None => false,
    };
    if targeted {
        return true;
    }
    let pieces = match &session.ansible {
        Some(ansible) => match &ansible.limit {
            Some(limit) => split_char(limit.as_str(), ','),
            None => {
                let empty = String::new();
                split_char(empty.as_str(), ',')
            },
        },
        None => {
            let empty = String::new();
            split_char(empty.as_str(), ',')
        },
    };
    is_all_within(&pieces, hsm_group_members)
}

} // verus!
