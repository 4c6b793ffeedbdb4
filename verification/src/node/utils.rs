//! Checking node names and gathering the details of nodes.

use vstd::prelude::*;
use vstd::string::StringExecFns;
use crate::common::fields::{
    COMPONENTS,
    CONFIGURATION_STATUS,
    DESIRED_CONFIG,
    ENABLED,
    ERROR_COUNT,
    HOSTS,
    ID,
    ID_LOWER,
    KERNEL,
    NID,
    STATE,
};
use crate::common::json::{
    find_with_text,
    first_with_text,
    referred,
    JsonValue,
    MalformedDocument,
};
use crate::common::text::{
    bool_to_string,
    contains_string,
    decimal_text,
    i64_to_string,
    pad_with_zeros,
    signed_decimal_text,
    str_eq,
    texts,
    to_uppercase,
    trim_end_matches,
    trim_start_matches,
    truth_text,
    u64_to_string,
    uppercased,
    without_leading,
    without_trailing,
    zero_padded,
};
use crate::node::types::{NodeDetails, NodeDetailsView};

verus! {

/// The form of a node name: cabinet, chassis, slot, board and node.
pub const XNAME_PATTERN: &'static str =
    r"^x\d{4}c[0-7]s([0-9]|[1-5][0-9]|6[0-4])b[0-1]n[0-7]$";

/// What precedes the number in the display of a node's number.
pub const NID_PREFIX: &'static str = "nid";

/// The number of digits in the display of a node's number.
pub const NID_WIDTH: usize = 6;

/// What precedes the image in the path of a kernel.
pub const BOOT_IMAGES_PREFIX: &'static str = "s3://boot-images/";

/// What follows the image in the path of a kernel.
pub const KERNEL_SUFFIX: &'static str = "/kernel";

/// Whether a text is a regular expression that the `regex` crate accepts.
pub uninterp spec fn regex_compiles(pattern: Seq<char>) -> bool;

/// The pattern of a compiled regular expression. It is known only for an
/// expression that `compile_regex` returned, which is made from the pattern
/// alone, with no options: there it is the pattern handed in. Of any other
/// expression nothing is said, neither what this name is nor that it
/// decides what the expression matches.
pub uninterp spec fn regex_source(regex: regex::Regex) -> Seq<char>;

/// Whether the regular expression `pattern` matches somewhere in
/// `haystack`, by the rules of the `regex` crate.
pub uninterp spec fn regex_matches(pattern: Seq<char>, haystack: Seq<char>) -> bool;

/// A compiled regular expression.
#[verifier::external_type_specification]
#[verifier::external_body]
pub struct ExRegex(regex::Regex);

/// The error of compiling a regular expression.
#[verifier::external_type_specification]
#[verifier::external_body]
pub struct ExRegexError(regex::Error);

/// `Regex::new`: compiles a pattern. Whether that succeeds depends on the
/// pattern alone, so it has a name, `regex_compiles`; what is compiled
/// remembers the pattern, `regex_source`.
#[verifier::external_body]
fn compile_regex(pattern: &str) -> (compiled: Result<regex::Regex, regex::Error>)
    ensures
        compiled is Ok == regex_compiles(pattern@),
        compiled matches Ok(regex) ==> regex_source(regex) == pattern@,
{
    regex::Regex::new(pattern)
}

/// `Regex::is_match`: whether the expression matches anywhere in the
/// haystack. For an expression made from a pattern alone the answer depends
/// on the pattern and the haystack alone, so it has a name,
/// `regex_matches`.
#[verifier::external_body]
fn regex_is_match(regex: &regex::Regex, haystack: &str) -> (matched: bool)
    ensures
        matched == regex_matches(regex_source(*regex), haystack@),
{
    regex.is_match(haystack)
}

/// What the outcome of compiling the pattern makes of a name: a match is
/// looked for only if there is a compiled expression. The verdict is told
/// by the pattern only for what `compile_regex` returned; for any other
/// expression its pattern is not known here.
pub fn xname_verdict(compiled: Result<regex::Regex, regex::Error>, xname: &str) -> (valid: bool)
    ensures
        valid == match compiled {
            Ok(regex) => regex_matches(regex_source(regex), xname@),
            Err(_) => false,
        },
{
    match compiled {
        Ok(regex) => regex_is_match(&regex, xname),
        Err(_) => false,
    }
}

/// A name is valid if the pattern compiles and matches it.
pub open spec fn is_valid_xname(xname: Seq<char>) -> bool {
    regex_compiles(XNAME_PATTERN@) && regex_matches(XNAME_PATTERN@, xname)
}

/// Whether `xname` has the form of a node name.
pub fn validate_xname_format(xname: &str) -> (valid: bool)
    ensures
        valid == is_valid_xname(xname@),
{
    xname_verdict(compile_regex(XNAME_PATTERN), xname)
}

/// Every name is valid and, if members are given, one of them.
pub open spec fn all_valid_members(xnames: Seq<&str>, members: Seq<Seq<char>>) -> bool {
    forall|i: int|
        0 <= i < xnames.len() ==> is_valid_xname((#[trigger] xnames[i])@) && (members.len() == 0
            || members.contains(xnames[i]@))
}

/// Whether every name in `xnames` has the form of a node name and, if
/// `hsm_group_members` is not empty, is one of them.
pub fn validate_xnames(xnames: &[&str], hsm_group_members: &[String]) -> (valid: bool)
    ensures
        valid == all_valid_members(xnames@, texts(hsm_group_members@)),
{
    let mut i: usize = 0;
    while i < xnames.len()
        invariant
            i <= xnames@.len(),
            forall|j: int|
                0 <= j < i ==> is_valid_xname((#[trigger] xnames@[j])@) && (texts(
                    hsm_group_members@,
                ).len() == 0 || texts(hsm_group_members@).contains(xnames@[j]@)),
        decreases xnames@.len() - i,
    {
        if !validate_xname_format(xnames[i]) {
            return false;
        }
        if hsm_group_members.len() > 0 && !contains_string(hsm_group_members, xnames[i]) {
            return false;
        }
        i = i + 1;
    }
    true
}

/// Whether one of the elements at or after `from` is the text `host`,
/// looking at them in order up to the first that is; an error if an element
/// met on the way is not a string.
pub open spec fn host_found(hosts: Seq<JsonValue>, host: Seq<char>, from: int) -> Result<
    bool,
    MalformedDocument,
>
    decreases hosts.len() - from,
{
    if from < 0 || from >= hosts.len() {
        Ok(false)
    } else {
        match hosts[from].text() {
            None => Err(MalformedDocument),
            Some(text) => if text == host {
                Ok(true)
            } else {
                host_found(hosts, host, from + 1)
            },
        }
    }
}

/// The first set of boot parameters, at or after `from`, that lists `node`
/// among its hosts. Every set looked at must list its hosts.
pub open spec fn boot_params_of(params: Seq<JsonValue>, node: Seq<char>, from: int) -> Result<
    Option<JsonValue>,
    MalformedDocument,
>
    decreases params.len() - from,
{
    if from < 0 || from >= params.len() {
        Ok(None)
    } else {
        match params[from].field(HOSTS@) {
            Some(hosts) if hosts.elements() is Some => match host_found(
                hosts.elements()->0,
                node,
                0,
            ) {
                Ok(true) => Ok(Some(params[from])),
                Ok(false) => boot_params_of(params, node, from + 1),
                Err(e) => Err(e),
            },
            _ => Err(MalformedDocument),
        }
    }
}

/// The image of a kernel path: the path without the prefix of the image
/// store and without the name of the kernel.
pub open spec fn image_of_kernel(path: Seq<char>) -> Seq<char> {
    without_trailing(without_leading(path, BOOT_IMAGES_PREFIX@), KERNEL_SUFFIX@)
}

/// The display of a node's number.
pub open spec fn nid_text(nid: u64) -> Seq<char> {
    NID_PREFIX@ + zero_padded(decimal_text(nid as nat), NID_WIDTH as nat)
}

/// The text under `key`, or the empty text.
pub open spec fn text_or_empty(value: JsonValue, key: Seq<char>) -> Seq<char> {
    match value.field_text(key) {
        Some(text) => text,
        None => Seq::empty(),
    }
}

/// The details of `node`, from the configuration components, the boot
/// parameters and the components of the state manager. The node must be
/// among the configuration components and the components of the state
/// manager, which must state its state and number, and must have boot
/// parameters that name a kernel.
pub open spec fn node_details_of(
    node: Seq<char>,
    components_status: Seq<JsonValue>,
    boot_params: Seq<JsonValue>,
    hsm_info: JsonValue,
) -> Result<NodeDetailsView, MalformedDocument> {
    match (
        first_with_text(components_status, ID_LOWER@, node, 0),
        hsm_info.field(COMPONENTS@),
        boot_params_of(boot_params, node, 0),
    ) {
        (Ok(Some(component)), Some(list), Ok(Some(params))) => match list.elements() {
            Some(items) => match first_with_text(items, ID@, node, 0) {
                Ok(Some(info)) => match (
                    info.field_text(STATE@),
                    info.field(NID@),
                    params.field_text(KERNEL@),
                ) {
                    (Some(state), Some(nid), Some(kernel)) => match nid.unsigned() {
                        Some(number) => Ok(
                            NodeDetailsView {
                                xname: node,
                                nid: nid_text(number),
                                power_status: uppercased(state),
                                desired_configuration: text_or_empty(component, DESIRED_CONFIG@),
                                configuration_status: text_or_empty(
                                    component,
                                    CONFIGURATION_STATUS@,
                                ),
                                enabled: truth_text(
                                    match component.field(ENABLED@) {
                                        Some(JsonValue::Bool(b)) => b,
                                        _ => false,
                                    },
                                ),
                                error_count: signed_decimal_text(
                                    match component.field(ERROR_COUNT@) {
                                        Some(count) => match count.signed() {
                                            Some(n) => n as int,
                                            None => 0,
                                        },
                                        None => 0,
                                    },
                                ),
                                boot_image_id: image_of_kernel(kernel),
                            },
                        ),
                        None => Err(MalformedDocument),
                    },
                    _ => Err(MalformedDocument),
                },
                _ => Err(MalformedDocument),
            },
            None => Err(MalformedDocument),
        },
        _ => Err(MalformedDocument),
    }
}

fn lists_host(hosts: &Vec<JsonValue>, host: &str) -> (found: Result<bool, MalformedDocument>)
    ensures
        found == host_found(hosts@, host@, 0),
{
    let mut i: usize = 0;
    while i < hosts.len()
        invariant
            i <= hosts.len(),
            host_found(hosts@, host@, 0) == host_found(hosts@, host@, i as int),
        decreases hosts.len() - i,
    {
        match hosts[i].as_str() {
            Some(text) => {
                if str_eq(text, host) {
                    return Ok(true);
                }
            },
            None => {
                return Err(MalformedDocument);
            },
        }
        i = i + 1;
    }
    Ok(false)
}

fn find_boot_params<'a>(params: &'a Vec<JsonValue>, node: &str) -> (found: Result<
    Option<&'a JsonValue>,
    MalformedDocument,
>)
    ensures
        found is Ok == boot_params_of(params@, node@, 0) is Ok,
        found matches Ok(inner) ==> boot_params_of(params@, node@, 0) == Ok::<
            Option<JsonValue>,
            MalformedDocument,
        >(referred(inner)),
{
    let mut i: usize = 0;
    while i < params.len()
        invariant
            i <= params.len(),
            boot_params_of(params@, node@, 0) == boot_params_of(params@, node@, i as int),
        decreases params.len() - i,
    {
        let hosts = match params[i].get(HOSTS) {
            Some(hosts) => match hosts.as_array() {
                Some(items) => items,
                None => {
                    return Err(MalformedDocument);
                },
            },
            None => {
                return Err(MalformedDocument);
            },
        };
        match lists_host(hosts, node) {
            Ok(true) => {
                return Ok(Some(&params[i]));
            },
            Ok(false) => {},
            Err(e) => {
                return Err(e);
            },
        }
        i = i + 1;
    }
    Ok(None)
}

/// Gathers the details of one node.
pub fn get_node_detail(
    node: &str,
    components_status: &Vec<JsonValue>,
    boot_params: &Vec<JsonValue>,
    hsm_info: &JsonValue,
) -> (details: Result<NodeDetails, MalformedDocument>)
    ensures
        details is Ok == node_details_of(node@, components_status@, boot_params@, *hsm_info)
            is Ok,
        details matches Ok(found) ==> Ok::<NodeDetailsView, MalformedDocument>(found@)
            == node_details_of(node@, components_status@, boot_params@, *hsm_info),
{
    let component = match find_with_text(components_status, ID_LOWER, node) {
        Ok(Some(component)) => component,
        _ => {
            return Err(MalformedDocument);
        },
    };
    let info = match hsm_info.get(COMPONENTS) {
        Some(list) => match list.as_array() {
            Some(items) => match find_with_text(items, ID, node) {
                Ok(Some(info)) => info,
                _ => {
                    return Err(MalformedDocument);
                },
            },
            None => {
                return Err(MalformedDocument);
            },
        },
        None => {
            return Err(MalformedDocument);
        },
    };
    let params = match find_boot_params(boot_params, node) {
        Ok(Some(params)) => params,
        _ => {
            return Err(MalformedDocument);
        },
    };
    let state = match info.get_str(STATE) {
        Some(text) => text,
        None => {
            return Err(MalformedDocument);
        },
    };
    let number = match info.get(NID) {
        Some(nid) => match nid.as_u64() {
            Some(n) => n,
            None => {
                return Err(MalformedDocument);
            },
        },
        None => {
            return Err(MalformedDocument);
        },
    };
    let kernel = match params.get_str(KERNEL) {
        Some(text) => text,
        None => {
            return Err(MalformedDocument);
        },
    };
    let desired_configuration = match component.get_str(DESIRED_CONFIG) {
        Some(text) => String::from_str(text),
        None => String::new(),
    };
    let configuration_status = match component.get_str(CONFIGURATION_STATUS) {
        Some(text) => String::from_str(text),
        None => String::new(),
    };
    let enabled = match component.get(ENABLED) {
        Some(JsonValue::Bool(b)) => *b,
        _ => false,
    };
    let error_count: i64 = match component.get(ERROR_COUNT) {
        Some(count) => match count.as_i64() {
            Some(n) => n,
            None => 0,
        },
        None => 0,
    };
    proof {
        reveal_strlit("s3://boot-images/");
        reveal_strlit("/kernel");
    }
    let digits = u64_to_string(number);
    let image = trim_end_matches(trim_start_matches(kernel, BOOT_IMAGES_PREFIX), KERNEL_SUFFIX);
    Ok(
        NodeDetails {
            xname: String::from_str(node),
            nid: String::from_str(NID_PREFIX).concat(
                pad_with_zeros(digits.as_str(), NID_WIDTH).as_str(),
            ),
            power_status: to_uppercase(state),
            desired_configuration,
            configuration_status,
            enabled: bool_to_string(enabled),
            error_count: i64_to_string(error_count),
            boot_image_id: String::from_str(image),
        },
    )
}

/// Every node has details.
pub open spec fn all_have_details(
    nodes: Seq<String>,
    components_status: Seq<JsonValue>,
    boot_params: Seq<JsonValue>,
    hsm_info: JsonValue,
) -> bool {
    forall|i: int|
        0 <= i < nodes.len() ==> node_details_of(
            (#[trigger] nodes[i])@,
            components_status,
            boot_params,
            hsm_info,
        ) is Ok
}

/// The details in `details` as mathematical values.
pub open spec fn details_views(details: Seq<NodeDetails>) -> Seq<NodeDetailsView> {
    Seq::new(details.len(), |i: int| details[i]@)
}

/// Gathers the details of the nodes in `hsm_groups_node_list`, in order,
/// from the configuration components, the boot parameters and the
/// components of the state manager.
#[verifier::loop_isolation(false)]
pub fn get_node_details(
    hsm_groups_node_list: &Vec<String>,
    components_status: &Vec<JsonValue>,
    nodes_boot_params_list: &Vec<JsonValue>,
    nodes_hsm_info_resp: &JsonValue,
) -> (details: Result<Vec<NodeDetails>, MalformedDocument>)
    ensures
        details is Ok == all_have_details(
            hsm_groups_node_list@,
            components_status@,
            nodes_boot_params_list@,
            *nodes_hsm_info_resp,
        ),
        details matches Ok(list) ==> details_views(list@) == Seq::new(
            hsm_groups_node_list@.len(),
            |i: int|
                node_details_of(
                    hsm_groups_node_list@[i]@,
                    components_status@,
                    nodes_boot_params_list@,
                    *nodes_hsm_info_resp,
                )->Ok_0,
        ),
{
    let mut list: Vec<NodeDetails> = Vec::new();
    let mut i: usize = 0;
    while i < hsm_groups_node_list.len()
        invariant
            i <= hsm_groups_node_list.len(),
            forall|j: int|
                0 <= j < i ==> node_details_of(
                    (#[trigger] hsm_groups_node_list@[j])@,
                    components_status@,
                    nodes_boot_params_list@,
                    *nodes_hsm_info_resp,
                ) is Ok,
            details_views(list@) =~= Seq::new(
                i as nat,
                |j: int|
                    node_details_of(
                        hsm_groups_node_list@[j]@,
                        components_status@,
                        nodes_boot_params_list@,
                        *nodes_hsm_info_resp,
                    )->Ok_0,
            ),
        decreases hsm_groups_node_list.len() - i,
    {
        match get_node_detail(
            hsm_groups_node_list[i].as_str(),
            components_status,
            nodes_boot_params_list,
            nodes_hsm_info_resp,
        ) {
            Ok(details) => {
                let ghost before = details_views(list@);
                let ghost view = details@;
                list.push(details);
                assert(details_views(list@) =~= before.push(view));
            },
            Err(e) => {
                return Err(e);
            },
        }
        i = i + 1;
    }
    Ok(list)
}

} // verus!
