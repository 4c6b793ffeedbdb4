//! The addresses of the services' resources.
//!
//! Every address is the base URL of the system followed by the path of the
//! resource and, for a single item, a slash and the item's name.

use vstd::prelude::*;
use vstd::string::StringExecFns;

verus! {

/// Configuration sessions.
pub const CFS_SESSIONS: &'static str = "/cfs/v2/sessions";

/// Boot session templates, first version of the service.
pub const BOS_V1_SESSION_TEMPLATE: &'static str = "/bos/v1/sessiontemplate";

/// Boot session templates, second version of the service, for reading.
pub const BOS_V2_SESSION_TEMPLATE: &'static str = "/bos/v2/sessiontemplate";

/// Boot session templates, second version of the service, for writing and
/// deleting.
pub const BOS_V2_SESSION_TEMPLATES: &'static str = "/bos/v2/sessiontemplates";

/// Node groups.
pub const HSM_GROUPS: &'static str = "/smd/hsm/v2/groups";

/// The state of components.
pub const HSM_COMPONENTS: &'static str = "/smd/hsm/v2/State/Components";

/// The hardware inventory below a component.
pub const HSM_INVENTORY_QUERY: &'static str = "/smd/hsm/v2/Inventory/Hardware/Query";

/// What separates an item's name from the path of its collection.
pub const SEPARATOR: &'static str = "/";

/// The address of a collection, or of the item `item` in it.
pub open spec fn resource_address(base: Seq<char>, path: Seq<char>, item: Option<Seq<char>>)
    -> Seq<char> {
    match item {
        Some(name) => base + path + SEPARATOR@ + name,
        None => base + path,
    }
}

/// Returns the address of the collection at `path`, or of the item `item`
/// in it.
pub fn resource_url(base_url: &str, path: &str, item: Option<&str>) -> (url: String)
    ensures
        url@ == resource_address(
            base_url@,
            path@,
            match item {
                Some(name) => Some(name@),
                None => None,
            },
        ),
{
    let collection = String::from_str(base_url).concat(path);
    match item {
        Some(name) => collection.concat(SEPARATOR).concat(name),
        None => collection,
    }
}

/// Returns the address of all sessions, or of the session named.
pub fn cfs_sessions_url(shasta_base_url: &str, session_name_opt: Option<&String>) -> (url: String)
    ensures
        url@ == resource_address(
            shasta_base_url@,
            CFS_SESSIONS@,
            match session_name_opt {
                Some(name) => Some(name@),
                None => None,
            },
        ),
{
    match session_name_opt {
        Some(name) => resource_url(shasta_base_url, CFS_SESSIONS, Some(name.as_str())),
        None => resource_url(shasta_base_url, CFS_SESSIONS, None),
    }
}

/// Returns the address of all groups, or of the group named.
pub fn hsm_groups_url(shasta_base_url: &str, group_name_opt: Option<&String>) -> (url: String)
    ensures
        url@ == resource_address(
            shasta_base_url@,
            HSM_GROUPS@,
            match group_name_opt {
                Some(name) => Some(name@),
                None => None,
            },
        ),
{
    match group_name_opt {
        Some(name) => resource_url(shasta_base_url, HSM_GROUPS, Some(name.as_str())),
        None => resource_url(shasta_base_url, HSM_GROUPS, None),
    }
}

/// Returns the address of the state of all components, or of the component
/// named.
pub fn hsm_components_url(shasta_base_url: &str, xname_opt: Option<&str>) -> (url: String)
    ensures
        url@ == resource_address(
            shasta_base_url@,
            HSM_COMPONENTS@,
            match xname_opt {
                Some(name) => Some(name@),
                None => None,
            },
        ),
{
    resource_url(shasta_base_url, HSM_COMPONENTS, xname_opt)
}

/// Returns the address of the hardware inventory below the component
/// `xname`.
pub fn hsm_inventory_url(shasta_base_url: &str, xname: &str) -> (url: String)
    ensures
        url@ == resource_address(shasta_base_url@, HSM_INVENTORY_QUERY@, Some(xname@)),
{
    resource_url(shasta_base_url, HSM_INVENTORY_QUERY, Some(xname))
}

/// Returns the address of all boot session templates, or of the template
/// named, in the first version of the service.
pub fn bos_v1_template_url(shasta_base_url: &str, template_opt: Option<&String>) -> (url: String)
    ensures
        url@ == resource_address(
            shasta_base_url@,
            BOS_V1_SESSION_TEMPLATE@,
            match template_opt {
                Some(name) => Some(name@),
                None => None,
            },
        ),
{
    match template_opt {
        Some(name) => resource_url(shasta_base_url, BOS_V1_SESSION_TEMPLATE, Some(name.as_str())),
        None => resource_url(shasta_base_url, BOS_V1_SESSION_TEMPLATE, None),
    }
}

/// Returns the address at which all boot session templates, or the
/// template named, are read in the second version of the service.
pub fn bos_v2_template_url(shasta_base_url: &str, template_opt: Option<&String>) -> (url: String)
    ensures
        url@ == resource_address(
            shasta_base_url@,
            BOS_V2_SESSION_TEMPLATE@,
            match template_opt {
                Some(name) => Some(name@),
                None => None,
            },
        ),
{
    match template_opt {
        Some(name) => resource_url(shasta_base_url, BOS_V2_SESSION_TEMPLATE, Some(name.as_str())),
        None => resource_url(shasta_base_url, BOS_V2_SESSION_TEMPLATE, None),
    }
}

/// Returns the address at which the boot session template named is written
/// or deleted in the second version of the service.
pub fn bos_v2_templates_url(shasta_base_url: &str, template: &str) -> (url: String)
    ensures
        url@ == resource_address(shasta_base_url@, BOS_V2_SESSION_TEMPLATES@, Some(template@)),
{
    resource_url(shasta_base_url, BOS_V2_SESSION_TEMPLATES, Some(template))
}

} // verus!
