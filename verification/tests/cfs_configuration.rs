use mesa::cfs::configuration::mesa::types::cfs_configuration_request::{
    layer_for_repo, plan_layer, repo_api_path, repo_name, CfsConfigurationRequest,
    ConfigurationPlan, Layer, SatFileError,
};
use mesa::common::json::JsonValue;

fn text(t: &str) -> JsonValue {
    JsonValue::String(t.to_string())
}

fn obj(entries: Vec<(&str, JsonValue)>) -> JsonValue {
    JsonValue::Object(entries.into_iter().map(|(k, v)| (k.to_string(), v)).collect())
}

fn catalog() -> JsonValue {
    obj(vec![(
        "cos",
        obj(vec![
            ("2.3.101", obj(vec![("configuration", text("commit-of-cos"))])),
            ("2.4.0", obj(vec![("images", text("none"))])),
            ("2.5.0", obj(vec![("configuration", JsonValue::Null)])),
        ]),
    )])
}

#[test]
fn layer_new_keeps_every_field() {
    let layer = Layer::new(
        "url".to_string(),
        Some("commit".to_string()),
        "name".to_string(),
        "site.yml".to_string(),
        Some("branch".to_string()),
        Some("tag".to_string()),
    );
    assert_eq!(layer.clone_url, "url");
    assert_eq!(layer.commit.as_deref(), Some("commit"));
    assert_eq!(layer.name, "name");
    assert_eq!(layer.playbook(), "site.yml");
    assert_eq!(layer.branch.as_deref(), Some("branch"));
    assert_eq!(layer.tag.as_deref(), Some("tag"));
    let moved = layer.with_commit(None);
    assert_eq!(moved.commit, None);
    assert_eq!(moved.clone_url, "url");
    assert_eq!(moved.playbook(), "site.yml");
}

#[test]
fn configuration_request_collects_layers_in_order() {
    let mut request = CfsConfigurationRequest::new();
    assert_eq!(request.name, "");
    assert!(request.layers.is_empty());
    request.name = "config".to_string();
    for name in ["first", "second"] {
        request.add_layer(Layer::new(
            "u".to_string(),
            None,
            name.to_string(),
            "p".to_string(),
            None,
            None,
        ));
    }
    assert_eq!(request.name, "config");
    assert_eq!(
        request.layers.iter().map(|l| l.name.clone()).collect::<Vec<_>>(),
        vec!["first".to_string(), "second".to_string()]
    );
    let default = CfsConfigurationRequest::default();
    assert!(default.name.is_empty() && default.layers.is_empty());
}

#[test]
fn git_layer_takes_commit_before_tag_before_branch() {
    let layer = |git: Vec<(&str, JsonValue)>| {
        obj(vec![("name", text("layer")), ("playbook", text("site.yml")), ("git", obj(git))])
    };
    let plan = plan_layer(
        &layer(vec![
            ("url", text("https://vcs/repo.git")),
            ("commit_id", text("abc")),
            ("tag", text("v1")),
            ("branch", text("main")),
        ]),
        &catalog(),
    )
    .unwrap();
    assert_eq!(plan.layer.clone_url, "https://vcs/repo.git");
    assert_eq!(plan.layer.commit.as_deref(), Some("abc"));
    assert_eq!(plan.layer.name, "layer");
    assert_eq!(plan.layer.playbook(), "site.yml");
    assert_eq!(plan.layer.branch.as_deref(), Some("main"));
    assert_eq!(plan.layer.tag, None);
    assert_eq!(plan.tag, None);

    let plan = plan_layer(
        &layer(vec![("url", text("u")), ("tag", text("v1"))]),
        &catalog(),
    )
    .unwrap();
    assert_eq!(plan.layer.commit, None);
    assert_eq!(plan.tag.as_deref(), Some("v1"));
    assert_eq!(plan.layer.branch, None);

    let plan = plan_layer(&layer(vec![("url", text("u")), ("branch", text("dev"))]), &catalog())
        .unwrap();
    assert_eq!(plan.layer.commit, None);
    assert_eq!(plan.tag, None);
    assert_eq!(plan.layer.branch.as_deref(), Some("dev"));

    let no_playbook = obj(vec![("name", text("layer")), ("git", obj(vec![("url", text("u"))]))]);
    assert_eq!(plan_layer(&no_playbook, &catalog()).unwrap().layer.playbook(), "");
    assert_eq!(
        plan_layer(&layer(vec![("commit_id", text("abc"))]), &catalog()).err(),
        Some(SatFileError::Malformed)
    );
}

#[test]
fn product_layer_takes_its_commit_from_the_catalog() {
    let layer = |product: Vec<(&str, JsonValue)>| {
        obj(vec![
            ("name", text("cos-integration")),
            ("playbook", text("cos.yml")),
            ("product", obj(product)),
        ])
    };
    let plan = plan_layer(
        &layer(vec![("name", text("cos")), ("version", text("2.3.101"))]),
        &catalog(),
    )
    .unwrap();
    assert_eq!(
        plan.layer.clone_url,
        "https://api-gw-service-nmn.local/vcs/cray/cos-integration-config-management.git"
    );
    assert_eq!(plan.layer.commit.as_deref(), Some("commit-of-cos"));
    assert_eq!(plan.layer.name, "cos");
    assert_eq!(plan.layer.playbook(), "cos.yml");
    assert_eq!(plan.layer.branch, None);
    assert_eq!(plan.tag, None);

    let plan = plan_layer(
        &layer(vec![
            ("name", text("cos")),
            ("version", text("2.3.101")),
            ("branch", text("integration")),
        ]),
        &catalog(),
    )
    .unwrap();
    assert_eq!(plan.layer.commit, None);
    assert_eq!(plan.layer.branch.as_deref(), Some("integration"));

    assert_eq!(
        plan_layer(&layer(vec![("name", text("slurm")), ("version", text("1"))]), &catalog()).err(),
        Some(SatFileError::ProductNotFound)
    );
    assert_eq!(
        plan_layer(&layer(vec![("name", text("cos")), ("version", text("9.9"))]), &catalog()).err(),
        Some(SatFileError::ProductDetailsNotFound)
    );
    assert_eq!(
        plan_layer(&layer(vec![("name", text("cos")), ("version", text("2.4.0"))]), &catalog())
            .err(),
        Some(SatFileError::ProductDetailsNotFound)
    );
    assert_eq!(
        plan_layer(&layer(vec![("name", text("cos")), ("version", text("2.5.0"))]), &catalog())
            .err(),
        Some(SatFileError::Malformed)
    );
    assert_eq!(
        plan_layer(&layer(vec![("name", text("cos"))]), &catalog()).err(),
        Some(SatFileError::Malformed)
    );
}

#[test]
fn layer_of_unknown_kind_is_refused() {
    assert_eq!(
        plan_layer(&obj(vec![("name", text("x"))]), &catalog()).err(),
        Some(SatFileError::UnknownLayerKind)
    );
    assert_eq!(plan_layer(&JsonValue::Null, &catalog()).err(), Some(SatFileError::UnknownLayerKind));
}

#[test]
fn configuration_is_planned_and_resolved() {
    let description = obj(vec![
        ("name", text("my-config")),
        (
            "layers",
            JsonValue::Array(vec![
                obj(vec![
                    ("name", text("tagged")),
                    ("git", obj(vec![("url", text("https://vcs/a.git")), ("tag", text("v2"))])),
                ]),
                obj(vec![
                    ("name", text("cos-layer")),
                    ("playbook", text("cos.yml")),
                    ("product", obj(vec![("name", text("cos")), ("version", text("2.3.101"))])),
                ]),
                obj(vec![
                    ("name", text("pinned")),
                    ("git", obj(vec![("url", text("https://vcs/b.git")), ("commit_id", text("c0"))])),
                ]),
            ]),
        ),
    ]);
    let plan = ConfigurationPlan::from_sat_file(&description, &catalog()).unwrap();
    assert_eq!(plan.name, "my-config");
    assert_eq!(plan.layers.len(), 3);
    assert_eq!(
        plan.pending_tags(),
        vec![Some(("https://vcs/a.git".to_string(), "v2".to_string())), None, None]
    );
    let request =
        plan.into_request(&vec![Some("sha-of-v2".to_string()), Some("ignored".to_string()), None]);
    assert_eq!(request.name, "my-config");
    let commits: Vec<Option<String>> = request.layers.iter().map(|l| l.commit.clone()).collect();
    assert_eq!(
        commits,
        vec![
            Some("sha-of-v2".to_string()),
            Some("commit-of-cos".to_string()),
            Some("c0".to_string())
        ]
    );
    assert_eq!(
        request.layers.iter().map(|l| l.name.as_str()).collect::<Vec<_>>(),
        vec!["tagged", "cos", "pinned"]
    );
}

#[test]
fn configuration_plan_fails_with_the_first_bad_layer() {
    let description = obj(vec![
        ("name", text("my-config")),
        (
            "layers",
            JsonValue::Array(vec![
                obj(vec![("name", text("ok")), ("git", obj(vec![("url", text("u"))]))]),
                obj(vec![
                    ("name", text("l")),
                    ("playbook", text("p")),
                    ("product", obj(vec![("name", text("slurm")), ("version", text("1"))])),
                ]),
                obj(vec![("name", text("neither"))]),
            ]),
        ),
    ]);
    assert_eq!(
        ConfigurationPlan::from_sat_file(&description, &catalog()).err(),
        Some(SatFileError::ProductNotFound)
    );
    assert_eq!(
        ConfigurationPlan::from_sat_file(&obj(vec![("name", text("n"))]), &catalog()).err(),
        Some(SatFileError::Malformed)
    );
    assert_eq!(
        ConfigurationPlan::from_sat_file(&obj(vec![("layers", JsonValue::Array(vec![]))]), &catalog())
            .err(),
        Some(SatFileError::Malformed)
    );
    let empty = ConfigurationPlan::from_sat_file(
        &obj(vec![("name", text("n")), ("layers", JsonValue::Array(vec![]))]),
        &catalog(),
    )
    .unwrap();
    assert!(empty.layers.is_empty());
}

#[test]
fn repository_name_is_what_follows_the_last_slash() {
    assert_eq!(repo_name("https://vcs.local/vcs/cray/my-repo.git"), Some("my-repo.git"));
    assert_eq!(repo_name("git@host:org/r\u{e9}po"), Some("r\u{e9}po"));
    assert_eq!(repo_name("d\u{e9}p\u{f4}t/\u{e4}/x"), Some("x"));
    assert_eq!(repo_name("trailing/"), Some(""));
    assert_eq!(repo_name("no-slash"), None);
    assert_eq!(repo_name(""), None);
    assert_eq!(repo_api_path("my-repo.git"), "cray/my-repo.git");
}

#[test]
fn layer_for_a_local_repository() {
    let layer = layer_for_repo(
        "https://vcs.local/vcs",
        "my-repo.git",
        "0a1b2c",
        "2023-10-10T08:36:40+02:00",
    );
    assert_eq!(layer.clone_url, "https://vcs.local/vcs/cray/my-repo.git");
    assert_eq!(layer.commit.as_deref(), Some("0a1b2c"));
    assert_eq!(layer.name, "my-repo.git-2023-10-10T08:36:40+02:00");
    assert_eq!(layer.playbook(), "site.yml");
    assert!(layer.branch.is_none() && layer.tag.is_none());
}
