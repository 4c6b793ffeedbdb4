//! Questions asked of group, session and inventory documents.

use vstd::prelude::*;
use crate::common::fields::{
    ANSIBLE,
    GROUPS,
    LIMIT,
    NAME,
    TARGET,
};
use crate::common::json::{
    all_have_text,
    field_strings_of,
    field_texts,
    JsonValue,
    MalformedDocument,
};
use crate::common::text::{contains_string, split_char, split_on, texts};
use crate::hsm::group::mesa::utils::{all_within, is_all_within};

pub use crate::hsm::group::shasta::utils::get_hsm_group_from_xname;
pub use crate::hsm::group::shasta::utils::get_member_vec_from_hsm_group_value;
pub use crate::hsm::group::shasta::utils::get_member_vec_from_hsm_group_value_vec;
pub use crate::hsm::group::shasta::utils::get_member_vec_from_hsm_name_vec;
pub use crate::hsm::group::shasta::utils::group_members_by_hsm_group_from_hsm_groups_value;
pub use crate::hsm::hw_inventory::shasta::utils::get_list_accelerator_model_from_hw_inventory_value;
pub use crate::hsm::hw_inventory::shasta::utils::get_list_hsn_nics_model_from_hw_inventory_value;
pub use crate::hsm::hw_inventory::shasta::utils::get_list_memory_capacity_from_hw_inventory_value;
pub use crate::hsm::hw_inventory::shasta::utils::get_list_processor_model_from_hw_inventory_value;

verus! {

/// The names of the groups that a session document targets; none where it
/// lists no groups; an error where a group has no name.
pub open spec fn document_group_names(session: JsonValue) -> Result<
    Seq<Seq<char>>,
    MalformedDocument,
> {
    match session.field2(TARGET@, GROUPS@) {
        Some(groups) => match groups.elements() {
            Some(items) => if all_have_text(items, NAME@) {
                Ok(field_texts(items, NAME@))
            } else {
                Err(MalformedDocument)
            },
            None => Ok(Seq::empty()),
        },
        None => Ok(Seq::empty()),
    }
}

/// The pieces of a session document's limit between commas, as they stand;
/// the one empty piece where it states no limit.
pub open spec fn document_limit_pieces(session: JsonValue) -> Seq<Seq<char>> {
    match session.field2(ANSIBLE@, LIMIT@) {
        Some(limit) => match limit.text() {
            Some(text) => split_on(text, ','),
            None => split_on(Seq::empty(), ','),
        },
        None => split_on(Seq::empty(), ','),
    }
}

/// Whether a session document applies to a group: it targets the group by
/// name, or every node of its limit is a member of the group.
pub open spec fn document_applies(session: JsonValue, group: Seq<char>, members: Seq<Seq<char>>)
    -> Result<bool, MalformedDocument> {
    match document_group_names(session) {
        Ok(names) => Ok(
            names.contains(group) || all_within(document_limit_pieces(session), members),
        ),
        Err(e) => Err(e),
    }
}

/// Decides whether the last of `cfs_sessions` may be accessed by a user who
/// is confined to the group `hsm_group`, whose nodes are
/// `hsm_group_members`. A user who is not confined may access every
/// session. For a confined user there must be a session.
pub fn validate_config_hsm_group_and_hsm_group_accessed(
    hsm_group: Option<&String>,
    hsm_group_members: &[String],
    cfs_sessions: &[JsonValue],
) -> (granted: Result<bool, MalformedDocument>)
    requires
        hsm_group is Some ==> cfs_sessions@.len() > 0,
    ensures
        granted == match hsm_group {
            Some(name) => document_applies(
                cfs_sessions@.last(),
                name@,
                texts(hsm_group_members@),
            ),
            None => Ok::<bool, MalformedDocument>(true),
        },
{
    let name = match hsm_group {
        Some(name) => name,
        None => {
            return Ok(true);
        },
    };
    let session = &cfs_sessions[cfs_sessions.len() - 1];
    let names = match session.get2(TARGET, GROUPS) {
        Some(groups) => match groups.as_array() {
            Some(items) => match field_strings_of(items, NAME) {
                Some(list) => list,
                None => {
                    return Err(MalformedDocument);
                },
            },
            None => {
                let list: Vec<String> = Vec::new();
                assert(texts(list@) =~= Seq::<Seq<char>>::empty());
                list
            },
        },
        None => {
            let list: Vec<String> = Vec::new();
            assert(texts(list@) =~= Seq::<Seq<char>>::empty());
            list
        },
    };
    if contains_string(names.as_slice(), name.as_str()) {
        return Ok(true);
    }
    let nothing = String::new();
    let limit = match session.get2(ANSIBLE, LIMIT) {
        Some(limit) => match limit.as_str() {
            Some(text) => text,
            None => nothing.as_str(),
        },
        None => nothing.as_str(),
    };
    let pieces = split_char(limit, ',');
    Ok(is_all_within(&pieces, hsm_group_members))
}

} // verus!
