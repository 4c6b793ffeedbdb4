use mesa::bos::template::mesa::types::request_payload::{
    BootSet as RequestBootSet, BosSessionTemplate as RequestTemplate, Cfs as RequestCfs, Link,
    Property,
};
use mesa::bos::template::mesa::types::response_payload::{BootSet, BosSessionTemplate, Cfs};

const KERNEL_PARAMETERS: &str = "ip=dhcp quiet ksocklnd.skip_mr_route_setup=1 cxi_core.disable_default_svc=0 cxi_core.enable_fgfc=1 cxi_core.disable_default_svc=0 cxi_core.sct_pid_mask=0xf spire_join_token=${SPIRE_JOIN_TOKEN}";

fn strings(items: &[&str]) -> Vec<String> {
    items.iter().map(|s| s.to_string()).collect()
}

fn boot_set(path: Option<&str>, groups: Option<&[&str]>, nodes: Option<&[&str]>) -> BootSet {
    BootSet {
        name: None,
        boot_ordinal: None,
        shutdown_ordinal: None,
        path: path.map(|p| p.to_string()),
        set_type: None,
        etag: None,
        kernel_parameters: None,
        network: None,
        node_list: nodes.map(strings),
        node_roles_groups: None,
        node_groups: groups.map(strings),
        rootfs_provider: None,
        rootfs_provider_passthrough: None,
    }
}

fn template(sets: Vec<(&str, BootSet)>, configuration: Option<&str>) -> BosSessionTemplate {
    BosSessionTemplate {
        template_url: None,
        name: Some("template".to_string()),
        description: None,
        cfs_url: None,
        cfs_branch: None,
        enable_cfs: Some(true),
        cfs: Some(Cfs {
            clone_url: None,
            branch: None,
            commit: None,
            playbook: None,
            configuration: configuration.map(|c| c.to_string()),
        }),
        partition: None,
        boot_sets: Some(sets.into_iter().map(|(n, s)| (n.to_string(), s)).collect()),
        link: None,
    }
}

fn check_common(t: &RequestTemplate, name: &str, configuration: Option<&str>) -> Property {
    assert_eq!(t.name, name);
    assert!(t.template_url.is_none() && t.description.is_none());
    assert!(t.cfs_url.is_none() && t.cfs_branch.is_none() && t.partition.is_none());
    assert!(t.links.is_none());
    assert_eq!(t.enable_cfs, Some(true));
    let cfs = t.cfs.as_ref().unwrap();
    assert_eq!(cfs.configuration.as_deref(), configuration);
    assert!(cfs.clone_url.is_none() && cfs.branch.is_none());
    assert!(cfs.commit.is_none() && cfs.playbook.is_none());
    let sets = t.boot_sets.as_ref().unwrap();
    assert!(sets.uan.is_none());
    let p = sets.compute.as_ref().unwrap();
    assert_eq!(p.boot_ordinal, Some(2));
    assert!(p.shutdown_ordinal.is_none());
    assert_eq!(p.kernel_parameters.as_deref(), Some(KERNEL_PARAMETERS));
    assert_eq!(p.network.as_deref(), Some("nmn"));
    assert!(p.node_roles_groups.is_none());
    assert_eq!(p.rootfs_provider.as_deref(), Some("cpss3"));
    assert_eq!(
        p.rootfs_provider_passthrough.as_deref(),
        Some("dvs:api-gw-service-nmn.local:300:nmn0")
    );
    Property {
        name: p.name.clone(),
        path: p.path.clone(),
        type_prop: p.type_prop.clone(),
        etag: p.etag.clone(),
        node_list: p.node_list.clone(),
        node_groups: p.node_groups.clone(),
        ..Property::default()
    }
}

#[test]
fn template_for_a_node_list() {
    let t = RequestTemplate::new_for_node_list(
        "tpl".to_string(),
        Some("config".to_string()),
        Some("image".to_string()),
        Some("s3://boot-images/1/rootfs".to_string()),
        None,
        Some("etag".to_string()),
        Some(strings(&["x1", "x2"])),
    );
    let p = check_common(&t, "tpl", Some("config"));
    assert_eq!(p.name.as_deref(), Some("image"));
    assert_eq!(p.path.as_deref(), Some("s3://boot-images/1/rootfs"));
    assert_eq!(p.type_prop, None);
    assert_eq!(p.etag.as_deref(), Some("etag"));
    assert_eq!(p.node_list, Some(strings(&["x1", "x2"])));
    assert_eq!(p.node_groups, None);
    let none = RequestTemplate::new_for_node_list("t".to_string(), None, None, None, None, None, None);
    let p = check_common(&none, "t", None);
    assert!(p.name.is_none() && p.path.is_none() && p.node_list.is_none());
}

#[test]
fn template_for_a_group() {
    let t = RequestTemplate::new_for_hsm_group(
        "config".to_string(),
        "tpl".to_string(),
        "image".to_string(),
        "path".to_string(),
        "s3".to_string(),
        "etag".to_string(),
        &"zinal".to_string(),
    );
    let p = check_common(&t, "tpl", Some("config"));
    assert_eq!(p.name.as_deref(), Some("image"));
    assert_eq!(p.path.as_deref(), Some("path"));
    assert_eq!(p.type_prop.as_deref(), Some("s3"));
    assert_eq!(p.etag.as_deref(), Some("etag"));
    assert_eq!(p.node_list, None);
    assert_eq!(p.node_groups, Some(strings(&["zinal"])));
}

#[test]
fn request_defaults_are_empty() {
    let p = Property::default();
    assert!(p.name.is_none() && p.boot_ordinal.is_none() && p.kernel_parameters.is_none());
    let b = RequestBootSet::default();
    assert!(b.compute.is_none() && b.uan.is_none());
    let c = RequestCfs::default();
    assert!(c.configuration.is_none() && c.clone_url.is_none());
    let _link = Link::default();
}

#[test]
fn response_targets_are_gathered_over_the_boot_sets() {
    let t = template(
        vec![
            ("compute", boot_set(Some("p1"), Some(&["g1", "g2"]), None)),
            ("uan", boot_set(None, None, Some(&["x1"]))),
            ("other", boot_set(Some("p3"), Some(&["g3"]), Some(&["x2", "x3"]))),
        ],
        Some("config"),
    );
    assert_eq!(t.get_target_hsm(), strings(&["g1", "g2", "g3"]));
    assert_eq!(t.get_target_xname(), strings(&["x1", "x2", "x3"]));
    assert_eq!(t.get_path(), strings(&["p1", "", "p3"]));
    assert_eq!(t.get_confguration(), Some("config".to_string()));
    let empty = template(vec![], None);
    assert_eq!(empty.get_target_hsm(), Vec::<String>::new());
    assert_eq!(empty.get_target_xname(), Vec::<String>::new());
    assert_eq!(empty.get_path(), Vec::<String>::new());
    assert_eq!(empty.get_confguration(), None);
}
