use mesa::cfs::session::shasta::utils::{
    filter, filter_by_hsm, get_image_id_cfs_configuration_target_tuple_vec,
    get_image_id_from_cfs_session_vec, is_session_kept, sort_by_start_time,
};
use mesa::common::endpoints::{
    bos_v1_template_url, bos_v2_template_url, bos_v2_templates_url, cfs_sessions_url,
    hsm_components_url, hsm_groups_url, hsm_inventory_url, resource_url,
};
use mesa::common::json::{
    field_strings_of, find_with_text, string_if_present, strings_of, JsonNumber, JsonValue,
    MalformedDocument,
};
use mesa::common::sorting::{keep_flagged, keep_last, sort_by_keys};
use mesa::common::text::{
    bool_to_string, contains_string, extend_with_clones, insert_all_ascending, insert_ascending,
    last_char_index, pad_with_zeros, push_all_new, push_new, shares_string,
};
use mesa::mesa::cfs::session::get_response_struct::GetResponse;

fn text(t: &str) -> JsonValue {
    JsonValue::String(t.to_string())
}

fn num(n: u64) -> JsonValue {
    JsonValue::Number(JsonNumber::Unsigned(n))
}

fn arr(items: Vec<JsonValue>) -> JsonValue {
    JsonValue::Array(items)
}

fn obj(entries: Vec<(&str, JsonValue)>) -> JsonValue {
    JsonValue::Object(entries.into_iter().map(|(k, v)| (k.to_string(), v)).collect())
}

fn strings(items: &[&str]) -> Vec<String> {
    items.iter().map(|s| s.to_string()).collect()
}

fn session(
    name: &str,
    groups: Option<&[&str]>,
    limit: Option<&str>,
    start: Option<&str>,
    result: Option<&str>,
    definition: &str,
    succeeded: Option<&str>,
) -> JsonValue {
    let mut target = vec![("definition", text(definition))];
    if let Some(names) = groups {
        target.push(("groups", arr(names.iter().map(|n| obj(vec![("name", text(n))])).collect())));
    }
    let mut run = vec![];
    if let Some(t) = start {
        run.push(("startTime", text(t)));
    }
    if let Some(s) = succeeded {
        run.push(("succeeded", text(s)));
    }
    let artifacts = match result {
        Some(id) => vec![obj(vec![("result_id", text(id))]), obj(vec![("result_id", text("no"))])],
        None => vec![],
    };
    let mut entries = vec![
        ("name", text(name)),
        ("configuration", obj(vec![("name", text("cos-config"))])),
        ("target", obj(target)),
        ("status", obj(vec![("artifacts", arr(artifacts)), ("session", obj(run))])),
    ];
    if let Some(l) = limit {
        entries.push(("ansible", obj(vec![("limit", text(l))])));
    }
    obj(entries)
}

fn names(list: &Vec<JsonValue>) -> Vec<String> {
    list.iter().map(|s| s.get_str("name").unwrap().to_string()).collect()
}

#[test]
fn document_accessors_answer_by_shape() {
    let doc = obj(vec![
        ("a", obj(vec![("b", obj(vec![("c", num(7))]))])),
        ("t", text("x")),
        ("n", JsonValue::Number(JsonNumber::Negative(-3))),
        ("big", JsonValue::Number(JsonNumber::Unsigned(u64::MAX))),
        ("f", JsonValue::Bool(true)),
        ("a", text("shadowed")),
    ]);
    assert_eq!(doc.get3("a", "b", "c").and_then(|v| v.as_u64()), Some(7));
    assert_eq!(doc.get2("a", "b").map(|v| v.as_object().is_some()), Some(true));
    assert!(doc.get2("a", "x").is_none());
    assert!(doc.get2("t", "b").is_none());
    assert!(doc.get("missing").is_none());
    assert_eq!(doc.get_str("t"), Some("x"));
    assert_eq!(doc.get_str("n"), None);
    assert_eq!(doc.get("n").unwrap().as_i64(), Some(-3));
    assert_eq!(doc.get("n").unwrap().as_u64(), None);
    assert_eq!(doc.get("big").unwrap().as_i64(), None);
    assert_eq!(doc.get("big").unwrap().as_u64(), Some(u64::MAX));
    assert_eq!(doc.get("f").unwrap().as_bool(), Some(true));
    assert_eq!(doc.get("t").unwrap().as_bool(), None);
    assert!(doc.get("t").unwrap().as_array().is_none());
    assert!(JsonValue::Null.get("a").is_none());
    assert_eq!(strings_of(&vec![text("a"), text("b")]), Some(strings(&["a", "b"])));
    assert_eq!(strings_of(&vec![text("a"), JsonValue::Null]), None);
    assert_eq!(strings_of(&vec![]), Some(vec![]));
    assert_eq!(
        field_strings_of(&vec![obj(vec![("k", text("v"))]), obj(vec![("k", text("w"))])], "k"),
        Some(strings(&["v", "w"]))
    );
    assert_eq!(field_strings_of(&vec![obj(vec![])], "k"), None);
    assert_eq!(string_if_present(None), Ok(None));
    assert_eq!(string_if_present(Some(&text("v"))), Ok(Some("v".to_string())));
    assert_eq!(string_if_present(Some(&JsonValue::Null)), Err(MalformedDocument));
    let items = vec![obj(vec![("id", text("a"))]), obj(vec![("id", text("b")), ("n", num(1))])];
    assert_eq!(
        find_with_text(&items, "id", "b").unwrap().unwrap().get("n").unwrap().as_u64(),
        Some(1)
    );
    assert!(find_with_text(&items, "id", "c").unwrap().is_none());
    assert!(find_with_text(&items, "name", "a").is_err());
}

#[test]
fn session_documents_are_kept_by_group_or_limit() {
    let groups = strings(&["zinal"]);
    let members = strings(&["x1", "x2"]);
    let kept = |s: JsonValue| is_session_kept(&s, &groups, &members);
    assert_eq!(kept(session("a", Some(&["alps", "zinal"]), None, None, None, "image", None)), Ok(true));
    assert_eq!(kept(session("a", Some(&["alps"]), Some("x1, x2"), None, None, "image", None)), Ok(true));
    assert_eq!(kept(session("a", Some(&["alps"]), Some("x1,x3"), None, None, "image", None)), Ok(false));
    assert_eq!(kept(session("a", None, None, None, None, "image", None)), Ok(false));
    assert_eq!(
        kept(obj(vec![("target", obj(vec![("groups", arr(vec![obj(vec![])]))]))])),
        Err(MalformedDocument)
    );
    assert_eq!(
        kept(obj(vec![(
            "target",
            obj(vec![("groups", arr(vec![obj(vec![("name", text("zinal"))]), obj(vec![])]))])
        )])),
        Ok(true)
    );
}

#[test]
fn session_documents_are_filtered_sorted_and_limited() {
    let all = || {
        vec![
            session("late", Some(&["zinal"]), None, Some("2023-10-10T08:36:40"), None, "image", None),
            session("out", Some(&["alps"]), Some("x9"), Some("2023-01-01T00:00:00"), None, "image", None),
            session("early", None, Some("x1"), Some("2023-02-02T00:00:00"), None, "dynamic", None),
            session("mid", Some(&["zinal"]), None, Some("2023-05-05T00:00:00"), None, "image", None),
        ]
    };
    let groups = strings(&["zinal"]);
    let members = strings(&["x1", "x2"]);
    assert_eq!(
        names(&filter_by_hsm(all(), &groups, &members, None).unwrap()),
        strings(&["early", "mid", "late"])
    );
    assert_eq!(
        names(&filter(all(), &groups, &members, Some(&2)).unwrap()),
        strings(&["mid", "late"])
    );
    assert_eq!(names(&filter(all(), &groups, &members, Some(&0)).unwrap()), strings(&[]));
    assert_eq!(filter_by_hsm(vec![], &groups, &members, Some(&3)).unwrap().len(), 0);
    let mut untimed = all();
    untimed.push(session("untimed", Some(&["zinal"]), None, None, None, "image", None));
    assert!(filter_by_hsm(untimed, &groups, &members, None).is_err());
    let single = vec![session("untimed", Some(&["zinal"]), None, None, None, "image", None)];
    assert_eq!(names(&filter_by_hsm(single, &groups, &members, None).unwrap()), strings(&["untimed"]));
    assert_eq!(
        names(&sort_by_start_time(all()).unwrap()),
        strings(&["out", "early", "mid", "late"])
    );
}

#[test]
fn session_document_rows_and_images() {
    let sessions = vec![
        session("a", Some(&["zinal", "alps"]), None, None, Some("img-1"), "image", Some("true")),
        session("b", None, None, None, None, "dynamic", Some("true")),
        session("c", Some(&["alps"]), None, None, Some("img-3"), "image", Some("false")),
        session("d", Some(&["alps"]), None, None, Some("img-4"), "image", None),
        session("e", Some(&["alps"]), None, None, Some("img-5"), "dynamic", Some("true")),
    ];
    assert_eq!(get_image_id_from_cfs_session_vec(&sessions), Ok(strings(&["img-1"])));
    assert_eq!(
        get_image_id_from_cfs_session_vec(&[obj(vec![("target", obj(vec![]))])]),
        Err(MalformedDocument)
    );
    let rows = get_image_id_cfs_configuration_target_tuple_vec(sessions).unwrap();
    assert_eq!(rows[0], ("img-1".to_string(), "cos-config".to_string(), strings(&["zinal", "alps"])));
    assert_eq!(rows[1], (String::new(), String::new(), vec![]));
    assert_eq!(rows[2], ("img-3".to_string(), "cos-config".to_string(), strings(&["alps"])));
    assert_eq!(rows.len(), 5);
    let limited = obj(vec![
        ("configuration", obj(vec![("name", text("c"))])),
        ("ansible", obj(vec![("limit", arr(vec![text("x1"), text("x2")]))])),
        ("status", obj(vec![("artifacts", arr(vec![obj(vec![("result_id", text("r"))])]))])),
    ]);
    assert_eq!(
        get_image_id_cfs_configuration_target_tuple_vec(vec![limited]),
        Ok(vec![("r".to_string(), "c".to_string(), strings(&["x1", "x2"]))])
    );
    let text_limit = obj(vec![
        ("configuration", obj(vec![("name", text("c"))])),
        ("ansible", obj(vec![("limit", text("x1,x2"))])),
        ("status", obj(vec![("artifacts", arr(vec![obj(vec![("result_id", text("r"))])]))])),
    ]);
    assert_eq!(
        get_image_id_cfs_configuration_target_tuple_vec(vec![text_limit]),
        Err(MalformedDocument)
    );
}

#[test]
fn flat_session_record_is_read_from_a_document() {
    let doc = obj(vec![
        (
            "ansible",
            obj(vec![
                ("config", text("cfs-default-ansible-cfg")),
                ("limit", text("x1005c1s2b0n0,x1005c0s3b0n0")),
                ("verbosity", num(0)),
            ]),
        ),
        ("name", text("batcher-e5c059a8-20c1-4779-9c0b-a270ff081d63")),
        (
            "status",
            obj(vec![
                (
                    "artifacts",
                    arr(vec![obj(vec![("image_id", text("i")), ("type", text("ims_customized_image"))])]),
                ),
                (
                    "session",
                    obj(vec![
                        ("completionTime", text("2023-10-10T08:46:34")),
                        ("job", text("cfs-298b9145-7504-4241-a985-7a2f301cdd9f")),
                        ("startTime", text("2023-10-10T08:36:40")),
                        ("status", text("complete")),
                        ("succeeded", text("true")),
                    ]),
                ),
            ]),
        ),
        ("tags", obj(vec![("bos_session", text("d452344f-4aad-4747-bfcb-8d016b5524bc"))])),
        (
            "target",
            obj(vec![
                ("definition", text("dynamic")),
                (
                    "groups",
                    arr(vec![
                        obj(vec![("name", text("Compute")), ("members", text("x1,x2"))]),
                        obj(vec![("members", text(""))]),
                    ]),
                ),
            ]),
        ),
    ]);
    let r = GetResponse::from_csm_api_json(&doc).unwrap();
    assert_eq!(r.name.as_deref(), Some("batcher-e5c059a8-20c1-4779-9c0b-a270ff081d63"));
    assert_eq!(r.configuration, None);
    let ansible = r.ansible.unwrap();
    assert_eq!(ansible.config.as_deref(), Some("cfs-default-ansible-cfg"));
    assert_eq!(ansible.limit.as_deref(), Some("x1005c1s2b0n0,x1005c0s3b0n0"));
    assert_eq!(ansible.verbosity, Some(0));
    assert_eq!(ansible.passthrough, None);
    let target = r.target.unwrap();
    assert_eq!(target.definition.as_deref(), Some("dynamic"));
    let groups = target.groups.unwrap();
    assert_eq!(groups[0].name.as_deref(), Some("Compute"));
    assert_eq!(groups[0].members, Some(strings(&["x1", "x2"])));
    assert_eq!(groups[1].name, None);
    assert_eq!(groups[1].members, Some(strings(&[""])));
    let status = r.status.unwrap();
    let artifacts = status.artifacts.unwrap();
    assert_eq!(artifacts.len(), 1);
    assert_eq!(artifacts[0].image_id.as_deref(), Some("i"));
    assert_eq!(artifacts[0].result_id, None);
    assert_eq!(artifacts[0].artifact_type.as_deref(), Some("ims_customized_image"));
    let run = status.session.unwrap();
    assert_eq!(run.job.as_deref(), Some("cfs-298b9145-7504-4241-a985-7a2f301cdd9f"));
    assert_eq!(run.completion_time.as_deref(), Some("2023-10-10T08:46:34"));
    assert_eq!(run.start_time.as_deref(), Some("2023-10-10T08:36:40"));
    assert_eq!(run.status.as_deref(), Some("complete"));
    assert_eq!(run.succeeded.as_deref(), Some("true"));
    let tags = r.tags.unwrap();
    assert_eq!(tags.len(), 1);
    assert_eq!(tags[0].key, "bos_session");
    assert_eq!(tags[0].value, "d452344f-4aad-4747-bfcb-8d016b5524bc");

    let empty = GetResponse::from_csm_api_json(&obj(vec![])).unwrap();
    assert!(empty.name.is_none());
    let run = empty.status.as_ref().unwrap().session.as_ref().unwrap();
    assert!(run.job.is_none() && run.start_time.is_none() && run.succeeded.is_none());
    assert_eq!(empty.target.unwrap().groups.map(|g| g.len()), Some(0));
    assert_eq!(empty.tags.map(|t| t.len()), Some(0));
    assert!(GetResponse::from_csm_api_json(&obj(vec![(
        "ansible",
        obj(vec![("passthrough", JsonValue::Null)])
    )]))
    .is_err());
    assert!(GetResponse::from_csm_api_json(&obj(vec![(
        "configuration",
        obj(vec![("name", text("c"))])
    )]))
    .is_err());
    assert!(GetResponse::from_csm_api_json(&obj(vec![(
        "target",
        obj(vec![("groups", JsonValue::Null)])
    )]))
    .is_err());
    assert!(GetResponse::from_csm_api_json(&obj(vec![("tags", obj(vec![("k", num(1))]))])).is_err());
}

#[test]
fn addresses_are_base_path_and_item() {
    let name = "batcher-1".to_string();
    assert_eq!(cfs_sessions_url("https://api", None), "https://api/cfs/v2/sessions");
    assert_eq!(cfs_sessions_url("https://api", Some(&name)), "https://api/cfs/v2/sessions/batcher-1");
    assert_eq!(hsm_groups_url("https://api", None), "https://api/smd/hsm/v2/groups");
    assert_eq!(hsm_groups_url("https://api", Some(&name)), "https://api/smd/hsm/v2/groups/batcher-1");
    assert_eq!(hsm_components_url("b", None), "b/smd/hsm/v2/State/Components");
    assert_eq!(hsm_components_url("b", Some("x1")), "b/smd/hsm/v2/State/Components/x1");
    assert_eq!(hsm_inventory_url("b", "x1"), "b/smd/hsm/v2/Inventory/Hardware/Query/x1");
    assert_eq!(bos_v1_template_url("b", None), "b/bos/v1/sessiontemplate");
    assert_eq!(bos_v1_template_url("b", Some(&name)), "b/bos/v1/sessiontemplate/batcher-1");
    assert_eq!(bos_v2_template_url("b", None), "b/bos/v2/sessiontemplate");
    assert_eq!(bos_v2_template_url("b", Some(&name)), "b/bos/v2/sessiontemplate/batcher-1");
    assert_eq!(bos_v2_templates_url("b", "t"), "b/bos/v2/sessiontemplates/t");
    assert_eq!(resource_url("", "", Some("")), "/");
}

#[test]
fn records_are_sorted_by_keys_and_ties_keep_their_order() {
    let keys = strings(&["b", "a", "b", "", "ab", "B", "\u{e9}", "a"]);
    let items: Vec<usize> = (0..keys.len()).collect();
    assert_eq!(sort_by_keys(items, &keys), vec![3, 5, 1, 7, 4, 0, 2, 6]);
    assert_eq!(sort_by_keys(Vec::<u8>::new(), &vec![]), Vec::<u8>::new());
    assert_eq!(keep_last(vec![1, 2, 3], 2), vec![2, 3]);
    assert_eq!(keep_last(vec![1, 2, 3], 3), vec![1, 2, 3]);
    assert_eq!(keep_last(vec![1, 2, 3], 9), vec![1, 2, 3]);
    assert_eq!(keep_last(vec![1, 2, 3], 0), Vec::<i32>::new());
    assert_eq!(keep_flagged(vec![1, 2, 3, 4], &vec![true, false, false, true]), vec![1, 4]);
}

#[test]
fn string_lists_are_kept_distinct_or_ascending() {
    let mut list = strings(&["b", "a"]);
    push_new(&mut list, "a");
    push_new(&mut list, "c");
    assert_eq!(list, strings(&["b", "a", "c"]));
    push_all_new(&mut list, &strings(&["d", "b", "d", "e"]));
    assert_eq!(list, strings(&["b", "a", "c", "d", "e"]));
    extend_with_clones(&mut list, &strings(&["a", "a"]));
    assert_eq!(list, strings(&["b", "a", "c", "d", "e", "a", "a"]));
    assert!(contains_string(&list, "e"));
    assert!(!contains_string(&list, "E"));
    assert!(shares_string(&strings(&["x", "c"]), &list));
    assert!(!shares_string(&strings(&["x", "y"]), &list));
    assert!(!shares_string(&[], &list));

    let mut sorted: Vec<String> = vec![];
    for item in ["m", "b", "z", "b", "a", "mm", "", "Z"] {
        insert_ascending(&mut sorted, item);
    }
    assert_eq!(sorted, strings(&["", "Z", "a", "b", "m", "mm", "z"]));
    insert_all_ascending(&mut sorted, &strings(&["c", "a", "\u{10348}", "\u{ff5e}"]));
    assert_eq!(
        sorted,
        strings(&["", "Z", "a", "b", "c", "m", "mm", "z", "\u{ff5e}", "\u{10348}"])
    );
}

#[test]
fn small_text_helpers() {
    assert_eq!(pad_with_zeros("1234", 6), "001234");
    assert_eq!(pad_with_zeros("1234567", 6), "1234567");
    assert_eq!(pad_with_zeros("", 3), "000");
    assert_eq!(pad_with_zeros("\u{e9}", 3), "00\u{e9}");
    assert_eq!(bool_to_string(true), "true");
    assert_eq!(bool_to_string(false), "false");
    assert_eq!(last_char_index("a/b/c", '/'), Some(3));
    assert_eq!(last_char_index("\u{e9}/\u{e9}", '/'), Some(1));
    assert_eq!(last_char_index("abc", '/'), None);
    assert_eq!(last_char_index("", '/'), None);
}

#[test]
fn flat_session_record_reads_the_session_section_where_it_stands() {
    let doc = obj(vec![(
        "status",
        obj(vec![(
            "session",
            obj(vec![
                ("job", text("j1")),
                ("startTime", text("t0")),
                ("completionTime", text("t1")),
                ("status", text("complete")),
                ("succeeded", text("true")),
            ]),
        )]),
    )]);
    let run = GetResponse::from_csm_api_json(&doc).unwrap().status.unwrap().session.unwrap();
    assert_eq!(run.job.as_deref(), Some("j1"));
    assert_eq!(run.completion_time.as_deref(), Some("t1"));
    assert_eq!(run.start_time.as_deref(), Some("t0"));
    assert_eq!(run.status.as_deref(), Some("complete"));
    assert_eq!(run.succeeded.as_deref(), Some("true"));
    let partial = obj(vec![("status", obj(vec![("session", obj(vec![("job", text("j1"))]))]))]);
    let run = GetResponse::from_csm_api_json(&partial).unwrap().status.unwrap().session.unwrap();
    assert_eq!(run.job.as_deref(), Some("j1"));
    assert_eq!(run.start_time, None);
    let by_path = obj(vec![("/status/session/job", text("j1"))]);
    let run = GetResponse::from_csm_api_json(&by_path).unwrap().status.unwrap().session.unwrap();
    assert_eq!(run.job, None);
    let wrong = obj(vec![("status", obj(vec![("session", obj(vec![("job", num(1))]))]))]);
    assert!(GetResponse::from_csm_api_json(&wrong).is_err());
}
