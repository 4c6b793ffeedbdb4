//! Node groups as provider resources.

use vstd::prelude::*;
use vstd::string::StringExecFns;

verus! {

/// The handle under which the provider files a request to create a group:
/// the token followed by the base URL. The certificate and the group's name
/// do not enter it.
pub fn create(
    shasta_token: &str,
    shasta_base_url: &str,
    shasta_root_cert: &[u8],
    group_name_opt: Option<&String>,
) -> (handle: String)
    ensures
        handle@ == shasta_token@ + shasta_base_url@,
{
    String::from_str(shasta_token).concat(shasta_base_url)
}

} // verus!
