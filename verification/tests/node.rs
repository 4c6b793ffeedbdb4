use mesa::common::json::{JsonNumber, JsonValue, MalformedDocument};
use mesa::node::utils::{get_node_detail, get_node_details, validate_xname_format, validate_xnames};

fn text(t: &str) -> JsonValue {
    JsonValue::String(t.to_string())
}

fn num(n: u64) -> JsonValue {
    JsonValue::Number(JsonNumber::Unsigned(n))
}

fn arr(items: Vec<JsonValue>) -> JsonValue {
    JsonValue::Array(items)
}

fn obj(entries: Vec<(&str, JsonValue)>) -> JsonValue {
    JsonValue::Object(entries.into_iter().map(|(k, v)| (k.to_string(), v)).collect())
}

#[test]
fn xname_format_is_checked() {
    for good in ["x1000c0s0b0n0", "x9999c7s64b1n7", "x1005c1s2b0n0", "x0000c3s59b1n4", "x1234c5s9b0n3"] {
        assert!(validate_xname_format(good), "{}", good);
    }
    for bad in [
        "",
        "x100c0s0b0n0",
        "x10000c0s0b0n0",
        "x1000c8s0b0n0",
        "x1000c0s65b0n0",
        "x1000c0s0b2n0",
        "x1000c0s0b0n8",
        "x1000c0s0b0n0 ",
        " x1000c0s0b0n0",
        "X1000c0s0b0n0",
        "x1000c0s00b0n0",
        "x1000c0s0b0",
        "nid001234",
    ] {
        assert!(!validate_xname_format(bad), "{}", bad);
    }
}

#[test]
fn xnames_must_be_valid_and_members() {
    let members: Vec<String> = vec!["x1000c0s0b0n0".to_string(), "x1000c0s0b0n1".to_string()];
    assert!(validate_xnames(&["x1000c0s0b0n0", "x1000c0s0b0n1"], &members));
    assert!(!validate_xnames(&["x1000c0s0b0n0", "x1000c0s0b0n2"], &members));
    assert!(validate_xnames(&["x1000c0s0b0n0", "x1000c0s0b0n2"], &[]));
    assert!(!validate_xnames(&["x1000c0s0b0n0", "bad"], &[]));
    assert!(validate_xnames(&[], &members));
}

fn components() -> Vec<JsonValue> {
    vec![
        obj(vec![
            ("id", text("x1000c0s0b0n1")),
            ("desiredConfig", text("other-config")),
        ]),
        obj(vec![
            ("id", text("x1000c0s0b0n0")),
            ("desiredConfig", text("cos-config")),
            ("configurationStatus", text("configured")),
            ("enabled", JsonValue::Bool(true)),
            ("errorCount", num(3)),
        ]),
        obj(vec![
            ("id", text("x1000c0s0b0n2")),
            ("errorCount", JsonValue::Number(JsonNumber::Negative(-1))),
            ("enabled", text("yes")),
        ]),
    ]
}

fn boot_params() -> Vec<JsonValue> {
    vec![
        obj(vec![
            ("hosts", arr(vec![text("x1000c0s0b0n1")])),
            ("kernel", text("s3://boot-images/other/kernel")),
        ]),
        obj(vec![
            ("hosts", arr(vec![text("x1000c0s0b0n9"), text("x1000c0s0b0n0")])),
            ("kernel", text("s3://boot-images/s3://boot-images/4bf91021-8d99/kernel/kernel")),
        ]),
        obj(vec![
            ("hosts", arr(vec![text("x1000c0s0b0n2")])),
            ("kernel", text("file:///boot/vmlinuz")),
        ]),
    ]
}

fn hsm_info() -> JsonValue {
    obj(vec![(
        "Components",
        arr(vec![
            obj(vec![("ID", text("x1000c0s0b0n0")), ("State", text("Ready")), ("NID", num(1234))]),
            obj(vec![("ID", text("x1000c0s0b0n1")), ("State", text("off")), ("NID", num(1234567))]),
            obj(vec![("ID", text("x1000c0s0b0n2")), ("State", text("stra\u{df}e")), ("NID", num(0))]),
        ]),
    )])
}

#[test]
fn node_details_are_gathered_from_the_three_documents() {
    let d = get_node_detail("x1000c0s0b0n0", &components(), &boot_params(), &hsm_info()).unwrap();
    assert_eq!(d.xname, "x1000c0s0b0n0");
    assert_eq!(d.nid, "nid001234");
    assert_eq!(d.power_status, "READY");
    assert_eq!(d.desired_configuration, "cos-config");
    assert_eq!(d.configuration_status, "configured");
    assert_eq!(d.enabled, "true");
    assert_eq!(d.error_count, "3");
    assert_eq!(d.boot_image_id, "4bf91021-8d99");

    let d = get_node_detail("x1000c0s0b0n1", &components(), &boot_params(), &hsm_info()).unwrap();
    assert_eq!(d.nid, "nid1234567");
    assert_eq!(d.power_status, "OFF");
    assert_eq!(d.configuration_status, "");
    assert_eq!(d.enabled, "false");
    assert_eq!(d.error_count, "0");
    assert_eq!(d.boot_image_id, "other");

    let d = get_node_detail("x1000c0s0b0n2", &components(), &boot_params(), &hsm_info()).unwrap();
    assert_eq!(d.nid, "nid000000");
    assert_eq!(d.power_status, "STRASSE");
    assert_eq!(d.desired_configuration, "");
    assert_eq!(d.enabled, "false");
    assert_eq!(d.error_count, "-1");
    assert_eq!(d.boot_image_id, "file:///boot/vmlinuz");
}

#[test]
fn node_details_fail_for_a_node_that_is_not_known() {
    assert_eq!(
        get_node_detail("x1", &components(), &boot_params(), &hsm_info()).err(),
        Some(MalformedDocument)
    );
    assert!(get_node_detail("x1000c0s0b0n0", &vec![], &boot_params(), &hsm_info()).is_err());
    assert!(get_node_detail("x1000c0s0b0n0", &components(), &vec![], &hsm_info()).is_err());
    assert!(get_node_detail("x1000c0s0b0n0", &components(), &boot_params(), &obj(vec![])).is_err());
    let nameless = vec![obj(vec![]), components().remove(1)];
    assert!(get_node_detail("x1000c0s0b0n0", &nameless, &boot_params(), &hsm_info()).is_err());
}

#[test]
fn node_details_come_in_the_order_of_the_nodes() {
    let nodes = vec!["x1000c0s0b0n1".to_string(), "x1000c0s0b0n0".to_string()];
    let details = get_node_details(&nodes, &components(), &boot_params(), &hsm_info()).unwrap();
    assert_eq!(
        details.iter().map(|d| d.nid.as_str()).collect::<Vec<_>>(),
        vec!["nid1234567", "nid001234"]
    );
    let unknown = vec!["x1000c0s0b0n1".to_string(), "x7".to_string()];
    assert!(get_node_details(&unknown, &components(), &boot_params(), &hsm_info()).is_err());
    assert_eq!(
        get_node_details(&vec![], &components(), &boot_params(), &hsm_info()).unwrap().len(),
        0
    );
}
