use mesa::cfs::session::mesa::types::{Ansible, CfsSessionGetResponse, Group, Target};
use mesa::common::json::{JsonNumber, JsonValue, MalformedDocument};
use mesa::hsm::group::mesa::utils as typed;
use mesa::hsm::group::shasta::utils::{
    get_hsm_group_from_bos_sessiontimplate_related_to_cfs_configuration,
    get_hsm_group_from_cfs_session_related_to_cfs_configuration, get_hsm_group_from_xname,
    get_hsm_group_vec, get_hsm_group_vec_from_xname_vec, get_member_vec_from_hsm_group_value,
    get_member_vec_from_hsm_group_value_vec, get_member_vec_from_hsm_name_vec,
    group_members_by_hsm_group_from_hsm_groups_value,
};
use mesa::hsm::hw_components::{ArtifactSummary, ArtifactType, NodeSummary, PartKind};
use mesa::hsm::hw_inventory::shasta::utils::{
    get_list_accelerator_model_from_hw_inventory_value,
    get_list_hsn_nics_model_from_hw_inventory_value,
    get_list_memory_capacity_from_hw_inventory_value,
    get_list_processor_model_from_hw_inventory_value,
};
use mesa::hsm::types::{HsmGroup, Member};
use mesa::shasta::hsm::utils as documents;

fn text(t: &str) -> JsonValue {
    JsonValue::String(t.to_string())
}

fn num(n: u64) -> JsonValue {
    JsonValue::Number(JsonNumber::Unsigned(n))
}

fn arr(items: Vec<JsonValue>) -> JsonValue {
    JsonValue::Array(items)
}

fn obj(entries: Vec<(&str, JsonValue)>) -> JsonValue {
    JsonValue::Object(entries.into_iter().map(|(k, v)| (k.to_string(), v)).collect())
}

fn strings(items: &[&str]) -> Vec<String> {
    items.iter().map(|s| s.to_string()).collect()
}

fn group(label: &str, ids: &[&str]) -> JsonValue {
    obj(vec![
        ("label", text(label)),
        ("members", obj(vec![("ids", arr(ids.iter().map(|i| text(i)).collect()))])),
    ])
}

fn groups() -> Vec<JsonValue> {
    vec![
        group("tenant_a", &["x1003c1s7b0n0", "x1003c1s7b0n1"]),
        group("tenant_b", &["x1003c1s7b1n0", "x1003c1s7b0n0"]),
        group("tenant_ab_cn", &[]),
    ]
}

#[test]
fn members_of_a_group_document() {
    assert_eq!(
        get_member_vec_from_hsm_group_value(&groups()[0]),
        Ok(strings(&["x1003c1s7b0n0", "x1003c1s7b0n1"]))
    );
    assert_eq!(get_member_vec_from_hsm_group_value(&obj(vec![])), Ok(vec![]));
    assert_eq!(get_member_vec_from_hsm_group_value(&JsonValue::Null), Ok(vec![]));
    assert_eq!(
        get_member_vec_from_hsm_group_value(&obj(vec![("members", obj(vec![("ids", text("x"))]))])),
        Ok(vec![])
    );
    assert_eq!(
        get_member_vec_from_hsm_group_value(&obj(vec![(
            "members",
            obj(vec![("ids", arr(vec![text("x1"), num(2)]))])
        )])),
        Err(MalformedDocument)
    );
}

#[test]
fn members_of_several_groups_are_listed_once() {
    assert_eq!(
        get_member_vec_from_hsm_group_value_vec(&groups()),
        Ok(strings(&["x1003c1s7b0n0", "x1003c1s7b0n1", "x1003c1s7b1n0"]))
    );
    assert_eq!(
        get_member_vec_from_hsm_name_vec(&groups(), &strings(&["tenant_a", "tenant_b"])),
        Ok(strings(&["x1003c1s7b0n0", "x1003c1s7b0n1", "x1003c1s7b1n0"]))
    );
    assert_eq!(
        get_member_vec_from_hsm_name_vec(&groups(), &strings(&["tenant_b"])),
        Ok(strings(&["x1003c1s7b1n0", "x1003c1s7b0n0"]))
    );
    assert_eq!(get_member_vec_from_hsm_name_vec(&groups(), &[]), Ok(vec![]));
    let mut unlabelled = groups();
    unlabelled.push(obj(vec![]));
    assert_eq!(
        get_member_vec_from_hsm_name_vec(&unlabelled, &strings(&["tenant_a"])),
        Err(MalformedDocument)
    );
    assert_eq!(
        get_member_vec_from_hsm_group_value_vec(&unlabelled).map(|v| v.len()),
        Ok(3)
    );
}

#[test]
fn groups_are_found_by_a_part_of_their_label() {
    let name = "tenant_a".to_string();
    let found = get_hsm_group_vec(groups(), Some(&name)).unwrap();
    let labels: Vec<_> = found.iter().map(|g| g.get_str("label").unwrap().to_string()).collect();
    assert_eq!(labels, strings(&["tenant_a", "tenant_ab_cn"]));
    assert_eq!(get_hsm_group_vec(groups(), None).unwrap().len(), 0);
    let all = get_hsm_group_vec(groups(), Some(&String::new())).unwrap();
    assert_eq!(all.len(), 3);
    assert!(get_hsm_group_vec(vec![obj(vec![])], Some(&name)).is_err());
}

#[test]
fn nodes_are_mapped_to_their_groups() {
    assert_eq!(
        group_members_by_hsm_group_from_hsm_groups_value(&groups()),
        Ok(vec![
            ("x1003c1s7b0n0".to_string(), strings(&["tenant_a", "tenant_b"])),
            ("x1003c1s7b0n1".to_string(), strings(&["tenant_a"])),
            ("x1003c1s7b1n0".to_string(), strings(&["tenant_b"])),
        ])
    );
    assert_eq!(group_members_by_hsm_group_from_hsm_groups_value(&vec![]), Ok(vec![]));
    assert_eq!(
        group_members_by_hsm_group_from_hsm_groups_value(&vec![obj(vec![])]),
        Err(MalformedDocument)
    );
}

#[test]
fn group_of_a_node_is_the_first_that_lists_it() {
    assert_eq!(
        get_hsm_group_from_xname(&groups(), "x1003c1s7b0n0"),
        Ok(Some("tenant_a".to_string()))
    );
    assert_eq!(
        get_hsm_group_from_xname(&groups(), "x1003c1s7b1n0"),
        Ok(Some("tenant_b".to_string()))
    );
    assert_eq!(get_hsm_group_from_xname(&groups(), "x9"), Ok(None));
    assert_eq!(get_hsm_group_from_xname(&[obj(vec![])], "x9"), Err(MalformedDocument));
    assert_eq!(
        get_hsm_group_vec_from_xname_vec(&groups(), &strings(&["x1003c1s7b0n0", "x7"])),
        Ok(strings(&["tenant_a", "tenant_b"]))
    );
    assert_eq!(get_hsm_group_vec_from_xname_vec(&groups(), &strings(&["x7"])), Ok(vec![]));
    assert_eq!(
        get_hsm_group_vec_from_xname_vec(&[obj(vec![("label", text("l"))])], &strings(&["x7"])),
        Err(MalformedDocument)
    );
}

fn session_doc(configuration: &str, group_names: &[&str]) -> JsonValue {
    obj(vec![
        ("configuration", obj(vec![("name", text(configuration))])),
        (
            "target",
            obj(vec![(
                "groups",
                arr(group_names.iter().map(|g| obj(vec![("name", text(g))])).collect()),
            )]),
        ),
    ])
}

#[test]
fn groups_related_to_a_configuration_are_sorted_and_distinct() {
    let sessions = vec![
        session_doc("cos", &["zinal", "alps"]),
        session_doc("other", &["ignored"]),
        session_doc("cos", &["alps", "Eiger", "zinal_cn"]),
    ];
    assert_eq!(
        get_hsm_group_from_cfs_session_related_to_cfs_configuration(&sessions, "cos"),
        Ok(strings(&["Eiger", "alps", "zinal", "zinal_cn"]))
    );
    assert_eq!(
        get_hsm_group_from_cfs_session_related_to_cfs_configuration(&sessions, "none"),
        Ok(vec![])
    );
    let broken = vec![session_doc("cos", &["a"]), obj(vec![])];
    assert_eq!(
        get_hsm_group_from_cfs_session_related_to_cfs_configuration(&broken, "cos"),
        Err(MalformedDocument)
    );
    let no_target = vec![obj(vec![("configuration", obj(vec![("name", text("cos"))]))])];
    assert_eq!(
        get_hsm_group_from_cfs_session_related_to_cfs_configuration(&no_target, "cos"),
        Err(MalformedDocument)
    );
    assert_eq!(
        get_hsm_group_from_cfs_session_related_to_cfs_configuration(&no_target, "other"),
        Ok(vec![])
    );
}

fn template_doc(configuration: &str, compute: &[&str], uan: Option<&[&str]>) -> JsonValue {
    let list = |names: &[&str]| obj(vec![("node_groups", arr(names.iter().map(|n| text(n)).collect()))]);
    let mut sets = vec![("compute", list(compute))];
    if let Some(names) = uan {
        sets.push(("uan", list(names)));
    }
    obj(vec![("cfs", obj(vec![("configuration", text(configuration))])), ("boot_sets", obj(sets))])
}

#[test]
fn groups_booted_with_a_configuration_are_sorted_and_distinct() {
    let templates = vec![
        template_doc("cos", &["zinal"], Some(&["uan_b", "zinal"])),
        template_doc("other", &["ignored"], None),
        template_doc("cos", &["alps"], None),
    ];
    assert_eq!(
        get_hsm_group_from_bos_sessiontimplate_related_to_cfs_configuration(&templates, "cos"),
        Ok(strings(&["alps", "uan_b", "zinal"]))
    );
    let no_compute = vec![obj(vec![
        ("cfs", obj(vec![("configuration", text("cos"))])),
        ("boot_sets", obj(vec![])),
    ])];
    assert_eq!(
        get_hsm_group_from_bos_sessiontimplate_related_to_cfs_configuration(&no_compute, "cos"),
        Err(MalformedDocument)
    );
}

#[test]
fn access_is_granted_by_group_or_by_members() {
    let session = |groups: Option<&[&str]>, limit: Option<&str>| CfsSessionGetResponse {
        name: None,
        configuration: None,
        ansible: Some(Ansible {
            config: None,
            limit: limit.map(|l| l.to_string()),
            verbosity: None,
            passthrough: None,
        }),
        target: Some(Target {
            definition: None,
            groups: groups.map(|g| {
                g.iter().map(|n| Group { name: n.to_string(), members: vec![] }).collect()
            }),
        }),
        status: None,
        tags: None,
    };
    let zinal = "zinal".to_string();
    let members = strings(&["x1", "x2"]);
    let check = |s: CfsSessionGetResponse| {
        typed::validate_config_hsm_group_and_hsm_group_accessed(Some(&zinal), &members, &[s])
    };
    assert!(check(session(Some(&["alps", "zinal"]), None)));
    assert!(check(session(Some(&["alps"]), Some("x2,x1"))));
    assert!(check(session(None, Some("x1"))));
    assert!(!check(session(None, Some("x1, x2"))));
    assert!(!check(session(Some(&["alps"]), Some("x1,x3"))));
    assert!(!check(session(None, None)));
    assert!(typed::validate_config_hsm_group_and_hsm_group_accessed(None, &members, &[]));
    assert!(typed::is_all_within(&strings(&[]), &[]));
}

#[test]
fn access_is_granted_for_session_documents_alike() {
    let doc = |groups: Option<&[&str]>, limit: Option<&str>| {
        let mut entries = vec![];
        if let Some(names) = groups {
            entries.push((
                "target",
                obj(vec![("groups", arr(names.iter().map(|n| obj(vec![("name", text(n))])).collect()))]),
            ));
        }
        if let Some(l) = limit {
            entries.push(("ansible", obj(vec![("limit", text(l))])));
        }
        obj(entries)
    };
    let zinal = "zinal".to_string();
    let members = strings(&["x1", "x2"]);
    let check = |d: JsonValue| {
        documents::validate_config_hsm_group_and_hsm_group_accessed(Some(&zinal), &members, &[d])
    };
    assert_eq!(check(doc(Some(&["zinal"]), None)), Ok(true));
    assert_eq!(check(doc(Some(&["alps"]), Some("x1,x2"))), Ok(true));
    assert_eq!(check(doc(None, Some("x1,x9"))), Ok(false));
    assert_eq!(check(doc(None, None)), Ok(false));
    assert_eq!(
        check(obj(vec![("target", obj(vec![("groups", arr(vec![obj(vec![])]))]))])),
        Err(MalformedDocument)
    );
    assert_eq!(
        documents::validate_config_hsm_group_and_hsm_group_accessed(None, &members, &[]),
        Ok(true)
    );
    assert_eq!(
        documents::get_member_vec_from_hsm_group_value(&group("g", &["x1"])),
        Ok(strings(&["x1"]))
    );
}

fn inventory() -> JsonValue {
    let fru = |info: &str, key: &str, value: JsonValue| {
        obj(vec![("PopulatedFRU", obj(vec![(info, obj(vec![(key, value)]))]))])
    };
    obj(vec![(
        "Nodes",
        arr(vec![obj(vec![
            ("ID", text("x1000c0s0b0n0")),
            ("Type", text("Node")),
            (
                "Processors",
                arr(vec![
                    fru("ProcessorFRUInfo", "Model", text("AMD EPYC 7742")),
                    fru("ProcessorFRUInfo", "Model", text("AMD EPYC 7713")),
                ]),
            ),
            (
                "Memory",
                arr(vec![fru("MemoryFRUInfo", "CapacityMiB", num(16384)), obj(vec![])]),
            ),
            (
                "NodeHsnNics",
                arr(vec![obj(vec![(
                    "NodeHsnNicLocationInfo",
                    obj(vec![("Description", text("Slingshot 11"))]),
                )])]),
            ),
        ])]),
    )])
}

#[test]
fn inventory_lists_are_read_from_the_first_node() {
    let inv = inventory();
    assert_eq!(
        get_list_processor_model_from_hw_inventory_value(&inv),
        Ok(Some(strings(&["AMD EPYC 7742", "AMD EPYC 7713"])))
    );
    assert_eq!(get_list_accelerator_model_from_hw_inventory_value(&inv), Ok(None));
    assert_eq!(
        get_list_hsn_nics_model_from_hw_inventory_value(&inv),
        Ok(Some(strings(&["Slingshot 11"])))
    );
    assert_eq!(
        get_list_memory_capacity_from_hw_inventory_value(&inv),
        Ok(Some(vec![16384, 0]))
    );
    assert_eq!(
        get_list_processor_model_from_hw_inventory_value(&obj(vec![("Nodes", arr(vec![]))])),
        Err(MalformedDocument)
    );
    assert_eq!(
        get_list_memory_capacity_from_hw_inventory_value(&obj(vec![])),
        Err(MalformedDocument)
    );
    let no_model = obj(vec![("Nodes", arr(vec![obj(vec![("Processors", arr(vec![obj(vec![])]))])]))]);
    assert_eq!(get_list_processor_model_from_hw_inventory_value(&no_model), Err(MalformedDocument));
    let bad_capacity = obj(vec![(
        "Nodes",
        arr(vec![obj(vec![(
            "Memory",
            arr(vec![obj(vec![(
                "PopulatedFRU",
                obj(vec![("MemoryFRUInfo", obj(vec![("CapacityMiB", text("16384"))]))]),
            )])]),
        )])]),
    )]);
    assert_eq!(
        get_list_memory_capacity_from_hw_inventory_value(&bad_capacity),
        Err(MalformedDocument)
    );
}

#[test]
fn artifact_types_go_by_their_names() {
    let all = [
        (ArtifactType::Memory, "Memory"),
        (ArtifactType::Processor, "Processor"),
        (ArtifactType::NodeAccel, "NodeAccel"),
        (ArtifactType::NodeHsnNic, "NodeHsnNic"),
        (ArtifactType::Drive, "Drive"),
        (ArtifactType::CabinetPDU, "CabinetPDU"),
        (ArtifactType::CabinetPDUPowerConnector, "CabinetPDUPowerConnector"),
        (ArtifactType::CMMRectifier, "CMMRectifier"),
        (ArtifactType::NodeAccelRiser, "NodeAccelRiser"),
        (ArtifactType::NodeEnclosurePowerSupplie, "NodeEnclosurePowerSupplie"),
        (ArtifactType::NodeBMC, "NodeBMC"),
        (ArtifactType::RouterBMC, "RouterBMC"),
    ];
    for (kind, name) in all {
        assert_eq!(kind.name(), name);
        assert_eq!(ArtifactType::from_name(name), Some(kind));
    }
    assert_eq!(ArtifactType::from_name("memory"), None);
    assert_eq!(ArtifactType::from_name(""), None);
    assert_eq!(ArtifactType::from_name("NodeBMC "), None);
}

#[test]
fn node_summary_is_read_from_its_document() {
    let part = |id: &str, kind: &str, extra: Vec<(&str, JsonValue)>| {
        let mut entries = vec![("ID", text(id)), ("Type", text(kind))];
        entries.extend(extra);
        obj(entries)
    };
    let fru = |info: &str, key: &str, value: JsonValue| {
        ("PopulatedFRU", obj(vec![(info, obj(vec![(key, value)]))]))
    };
    let node = obj(vec![
        ("ID", text("x1000c0s0b0n0")),
        ("Type", text("Node")),
        (
            "Processors",
            arr(vec![
                part("x1000c0s0b0n0p0", "Processor", vec![fru("ProcessorFRUInfo", "Model", text("EPYC"))]),
                part("x1000c0s0b0n0p1", "Processor", vec![]),
            ]),
        ),
        (
            "Memory",
            arr(vec![
                part("x1000c0s0b0n0d0", "Memory", vec![fru("MemoryFRUInfo", "CapacityMiB", num(16384))]),
                part(
                    "x1000c0s0b0n0d1",
                    "Memory",
                    vec![fru(
                        "MemoryFRUInfo",
                        "CapacityMiB",
                        JsonValue::Number(JsonNumber::Negative(-5)),
                    )],
                ),
                part(
                    "x1000c0s0b0n0d2",
                    "Memory",
                    vec![fru(
                        "MemoryFRUInfo",
                        "CapacityMiB",
                        JsonValue::Number(JsonNumber::Other("1.5".to_string())),
                    )],
                ),
            ]),
        ),
        (
            "NodeHsnNics",
            arr(vec![part(
                "x1000c0s0b0n0h0",
                "NodeHsnNic",
                vec![("NodeHsnNicLocationInfo", obj(vec![("Description", text("Slingshot"))]))],
            )]),
        ),
    ]);
    let summary = NodeSummary::from_csm_value(&node).unwrap();
    assert_eq!(summary.xname, "x1000c0s0b0n0");
    assert_eq!(summary.node_type, "Node");
    assert_eq!(summary.processors.len(), 2);
    assert_eq!(summary.processors[0].xname, "x1000c0s0b0n0p0");
    assert_eq!(summary.processors[0].artifact_type, ArtifactType::Processor);
    assert_eq!(summary.processors[0].info.as_deref(), Some("EPYC"));
    assert_eq!(summary.processors[1].info, None);
    let memory: Vec<_> = summary.memory.iter().map(|m| m.info.clone().unwrap()).collect();
    assert_eq!(memory, strings(&["16384 MiB", "-5 MiB", "1.5 MiB"]));
    assert!(summary.node_accels.is_empty());
    assert_eq!(summary.node_hsn_nics[0].info.as_deref(), Some("Slingshot"));
    assert_eq!(summary.node_hsn_nics[0].artifact_type, ArtifactType::NodeHsnNic);

    assert!(NodeSummary::from_csm_value(&obj(vec![("ID", text("x"))])).is_err());
    let bad_type = obj(vec![
        ("ID", text("x")),
        ("Type", text("Node")),
        ("Processors", arr(vec![part("p", "Cpu", vec![])])),
    ]);
    assert!(NodeSummary::from_csm_value(&bad_type).is_err());
    let accel = part("a", "NodeAccel", vec![fru("NodeAccelFRUInfo", "Model", text("A100"))]);
    assert_eq!(
        ArtifactSummary::from_nodeaccel_value(&accel).unwrap().info.as_deref(),
        Some("A100")
    );
    assert_eq!(ArtifactSummary::from_value(&accel, PartKind::Processor).unwrap().info, None);
    assert!(ArtifactSummary::from_processor_value(&obj(vec![])).is_err());
    assert!(ArtifactSummary::from_memory_value(&part(
        "m",
        "Memory",
        vec![fru("MemoryFRUInfo", "CapacityMiB", text("many"))]
    ))
    .is_err());
    assert!(ArtifactSummary::from_nodehsnnics_value(&part("h", "NodeHsnNic", vec![])).is_ok());
}

#[test]
fn group_to_create_holds_its_members() {
    let group = HsmGroup::with_members(
        "blue",
        strings(&["x1c0s1b0n0", "x1c0s1b0n1"]),
        "optional_excl_group",
        "This is the blue group",
        strings(&["optional_tag1"]),
    );
    assert_eq!(group.label, "blue");
    assert_eq!(group.description.as_deref(), Some("This is the blue group"));
    assert_eq!(group.tags, Some(strings(&["optional_tag1"])));
    assert_eq!(group.exclusive_group.as_deref(), Some("optional_excl_group"));
    assert_eq!(group.members.unwrap().ids, Some(strings(&["x1c0s1b0n0", "x1c0s1b0n1"])));
    assert!(Member::default().ids.is_none());
}
