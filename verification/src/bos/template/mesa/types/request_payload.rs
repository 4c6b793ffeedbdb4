//! A template as it is sent to the service.

use vstd::prelude::*;
use vstd::string::StringExecFns;

verus! {

/// The place of the compute nodes in the boot order.
pub const COMPUTE_BOOT_ORDINAL: u8 = 2;

/// The kernel parameters of a compute node.
pub const COMPUTE_KERNEL_PARAMETERS: &'static str =
    "ip=dhcp quiet ksocklnd.skip_mr_route_setup=1 cxi_core.disable_default_svc=0 cxi_core.enable_fgfc=1 cxi_core.disable_default_svc=0 cxi_core.sct_pid_mask=0xf spire_join_token=${SPIRE_JOIN_TOKEN}";

/// The network over which compute nodes boot.
pub const COMPUTE_NETWORK: &'static str = "nmn";

/// The provider of the root file system.
pub const ROOTFS_PROVIDER: &'static str = "cpss3";

/// What is handed to the provider of the root file system.
pub const ROOTFS_PROVIDER_PASSTHROUGH: &'static str = "dvs:api-gw-service-nmn.local:300:nmn0";

#[derive(Debug)]
pub struct Link {
    rel: Option<String>,
    href: Option<String>,
}

#[derive(Debug)]
pub struct Property {
    pub name: Option<String>,
    pub boot_ordinal: Option<u8>,
    pub shutdown_ordinal: Option<String>,
    pub path: Option<String>,
    pub type_prop: Option<String>,
    pub etag: Option<String>,
    pub kernel_parameters: Option<String>,
    pub network: Option<String>,
    pub node_list: Option<Vec<String>>,
    pub node_roles_groups: Option<Vec<String>>,
    pub node_groups: Option<Vec<String>>,
    pub rootfs_provider: Option<String>,
    pub rootfs_provider_passthrough: Option<String>,
}

#[derive(Debug)]
pub struct BootSet {
    pub compute: Option<Property>,
    pub uan: Option<Property>,
}

#[derive(Debug)]
pub struct Cfs {
    pub clone_url: Option<String>,
    pub branch: Option<String>,
    pub commit: Option<String>,
    pub playbook: Option<String>,
    pub configuration: Option<String>,
}

#[derive(Debug)]
pub struct BosSessionTemplate {
    pub name: String,
    pub template_url: Option<String>,
    pub description: Option<String>,
    pub cfs_url: Option<String>,
    pub cfs_branch: Option<String>,
    pub enable_cfs: Option<bool>,
    pub cfs: Option<Cfs>,
    pub partition: Option<String>,
    pub boot_sets: Option<BootSet>,
    pub links: Option<Vec<Link>>,
}

pub struct BootArtifacts {
    pub kernel: Option<String>,
    pub kernel_parameters: Option<String>,
    pub rootfs: Option<String>,
    pub initrd: Option<String>,
}

pub struct DesiredState {
    pub boot_artifacts: Option<BootArtifacts>,
    pub configuration: Option<String>,
}

pub struct LastAction {
    pub action: Option<String>,
    pub num_attempts: Option<u32>,
}

pub struct Component {
    pub id: Option<String>,
    pub actual_state: Option<BootArtifacts>,
    pub desired_state: Option<DesiredState>,
    pub last_action: Option<LastAction>,
    pub enabled: Option<bool>,
    pub error: Option<String>,
}

impl Link {
    /// The relation of the link.
    pub closed spec fn spec_rel(&self) -> Option<String> {
        self.rel
    }

    /// The address of the link.
    pub closed spec fn spec_href(&self) -> Option<String> {
        self.href
    }
}

impl Default for Link {
    fn default() -> (link: Link)
        ensures
            link.spec_rel() is None,
            link.spec_href() is None,
    {
        Link { rel: None, href: None }
    }
}

impl Default for Property {
    fn default() -> (property: Property)
        ensures
            property.name is None,
            property.boot_ordinal is None,
            property.shutdown_ordinal is None,
            property.path is None,
            property.type_prop is None,
            property.etag is None,
            property.kernel_parameters is None,
            property.network is None,
            property.node_list is None,
            property.node_roles_groups is None,
            property.node_groups is None,
            property.rootfs_provider is None,
            property.rootfs_provider_passthrough is None,
    {
        Property {
            name: None,
            boot_ordinal: None,
            shutdown_ordinal: None,
            path: None,
            type_prop: None,
            etag: None,
            kernel_parameters: None,
            network: None,
            node_list: None,
            node_roles_groups: None,
            node_groups: None,
            rootfs_provider: None,
            rootfs_provider_passthrough: None,
        }
    }
}

impl Default for BootSet {
    fn default() -> (boot_set: BootSet)
        ensures
            boot_set.compute is None,
            boot_set.uan is None,
    {
        BootSet { compute: None, uan: None }
    }
}

impl Default for Cfs {
    fn default() -> (cfs: Cfs)
        ensures
            cfs.clone_url is None,
            cfs.branch is None,
            cfs.commit is None,
            cfs.playbook is None,
            cfs.configuration is None,
    {
        Cfs { clone_url: None, branch: None, commit: None, playbook: None, configuration: None }
    }
}

/// What every compute boot set of a new template holds, whatever it boots.
pub open spec fn is_compute_property(property: Property) -> bool {
    &&& property.boot_ordinal == Some(COMPUTE_BOOT_ORDINAL)
    &&& property.shutdown_ordinal is None
    &&& property.kernel_parameters matches Some(text) && text@ == COMPUTE_KERNEL_PARAMETERS@
    &&& property.network matches Some(text) && text@ == COMPUTE_NETWORK@
    &&& property.node_roles_groups is None
    &&& property.rootfs_provider matches Some(text) && text@ == ROOTFS_PROVIDER@
    &&& property.rootfs_provider_passthrough matches Some(text) && text@
        == ROOTFS_PROVIDER_PASSTHROUGH@
}

/// What every new template holds, whatever it boots: the configuration
/// service enabled and aimed at `configuration`, one boot set for compute
/// nodes and none for others.
pub open spec fn is_new_template(
    template: BosSessionTemplate,
    name: String,
    configuration: Option<String>,
) -> bool {
    &&& template.name == name
    &&& template.template_url is None
    &&& template.description is None
    &&& template.cfs_url is None
    &&& template.cfs_branch is None
    &&& template.enable_cfs == Some(true)
    &&& template.partition is None
    &&& template.links is None
    &&& template.cfs matches Some(cfs) && cfs.clone_url is None && cfs.branch is None && cfs.commit
        is None && cfs.playbook is None && cfs.configuration == configuration
    &&& template.boot_sets matches Some(sets) && sets.uan is None && sets.compute is Some
        && is_compute_property(sets.compute->0)
}

fn compute_property(
    name: Option<String>,
    path: Option<String>,
    type_prop: Option<String>,
    etag: Option<String>,
    node_list: Option<Vec<String>>,
    node_groups: Option<Vec<String>>,
) -> (property: Property)
    ensures
        is_compute_property(property),
        property.name == name,
        property.path == path,
        property.type_prop == type_prop,
        property.etag == etag,
        property.node_list == node_list,
        property.node_groups == node_groups,
{
    Property {
        name,
        boot_ordinal: Some(COMPUTE_BOOT_ORDINAL),
        shutdown_ordinal: None,
        path,
        type_prop,
        etag,
        kernel_parameters: Some(String::from_str(COMPUTE_KERNEL_PARAMETERS)),
        network: Some(String::from_str(COMPUTE_NETWORK)),
        node_list,
        node_roles_groups: None,
        node_groups,
        rootfs_provider: Some(String::from_str(ROOTFS_PROVIDER)),
        rootfs_provider_passthrough: Some(String::from_str(ROOTFS_PROVIDER_PASSTHROUGH)),
    }
}

fn template_for(name: String, configuration: Option<String>, property: Property) -> (template:
    BosSessionTemplate)
    requires
        is_compute_property(property),
    ensures
        is_new_template(template, name, configuration),
        template.boot_sets->0.compute == Some(property),
{
    BosSessionTemplate {
        name,
        template_url: None,
        description: None,
        cfs_url: None,
        cfs_branch: None,
        enable_cfs: Some(true),
        cfs: Some(
            Cfs { clone_url: None, branch: None, commit: None, playbook: None, configuration },
        ),
        partition: None,
        boot_sets: Some(BootSet { compute: Some(property), uan: None }),
        links: None,
    }
}

impl BosSessionTemplate {
    /// A template that boots the nodes in `limit` from an image.
    pub fn new_for_node_list(
        bos_session_template_name: String,
        cfs_configuration_name: Option<String>,
        ims_image_name: Option<String>,
        ims_image_path: Option<String>,
        ims_image_type: Option<String>,
        ims_image_etag: Option<String>,
        limit: Option<Vec<String>>,
    ) -> (template: BosSessionTemplate)
        ensures
            is_new_template(template, bos_session_template_name, cfs_configuration_name),
            template.boot_sets->0.compute->0.name == ims_image_name,
            template.boot_sets->0.compute->0.path == ims_image_path,
            template.boot_sets->0.compute->0.type_prop == ims_image_type,
            template.boot_sets->0.compute->0.etag == ims_image_etag,
            template.boot_sets->0.compute->0.node_list == limit,
            template.boot_sets->0.compute->0.node_groups is None,
    {
        let property = compute_property(
            ims_image_name,
            ims_image_path,
            ims_image_type,
            ims_image_etag,
            limit,
            None,
        );
        template_for(bos_session_template_name, cfs_configuration_name, property)
    }

    /// A template that boots the nodes of the group `hsm_group` from an
    /// image.
    pub fn new_for_hsm_group(
        cfs_configuration_name: String,
        bos_session_template_name: String,
        ims_image_name: String,
        ims_image_path: String,
        ims_image_type: String,
        ims_image_etag: String,
        hsm_group: &String,
    ) -> (template: BosSessionTemplate)
        ensures
            is_new_template(
                template,
                bos_session_template_name,
                Some(cfs_configuration_name),
            ),
            template.boot_sets->0.compute->0.name == Some(ims_image_name),
            template.boot_sets->0.compute->0.path == Some(ims_image_path),
            template.boot_sets->0.compute->0.type_prop == Some(ims_image_type),
            template.boot_sets->0.compute->0.etag == Some(ims_image_etag),
            template.boot_sets->0.compute->0.node_list is None,
            template.boot_sets->0.compute->0.node_groups matches Some(groups) && groups@
                == seq![*hsm_group],
    {
        let mut groups: Vec<String> = Vec::new();
        groups.push(hsm_group.clone());
        assert(groups@ =~= seq![*hsm_group]);
        let property = compute_property(
            Some(ims_image_name),
            Some(ims_image_path),
            Some(ims_image_type),
            Some(ims_image_etag),
            None,
            Some(groups),
        );
        template_for(bos_session_template_name, Some(cfs_configuration_name), property)
    }
}

} // verus!
