use mesa::common::kubernetes::attach::{
    collect_output, derive_target_label, make_discovery_request, make_shell_request, AttachBridge,
    BridgeAction, BridgePosition, ExecFailure, Hop,
};
use mesa::common::kubernetes::locator::PodSummary;

fn pod(name: &str) -> Vec<PodSummary> {
    vec![PodSummary {
        name: name.to_string(),
        init_container_statuses: vec![],
        container_statuses: vec![],
    }]
}

fn fails_with(action: &BridgeAction, hop: Hop, failure: ExecFailure) -> bool {
    match action {
        BridgeAction::Fail(error) => {
            error.job == "batcher-001" && error.hop == hop && error.failure == failure
        }
        _ => false,
    }
}

#[test]
fn target_label_replaces_the_service_suffix() {
    assert_eq!(
        derive_target_label(
            "    ansible_host: cray-ims-8e5ff4c1-service.ims.svc.cluster.local\n"
        ),
        Some("cray-ims-8e5ff4c1-customize".to_string())
    );
    assert_eq!(
        derive_target_label("ansible_host: -service.ims.svc.cluster.local"),
        Some("-customize".to_string())
    );
}

#[test]
fn target_label_is_refused_for_other_output() {
    assert_eq!(derive_target_label(""), None);
    assert_eq!(derive_target_label("cray-ims-1-service.ims.svc.cluster.local"), None);
    assert_eq!(derive_target_label("ansible_host: cray-ims-1.ims.svc.cluster.local"), None);
    assert_eq!(derive_target_label("ansible_host:cray-ims-1-service.ims.svc.cluster.local"), None);
    assert_eq!(
        derive_target_label("ansible_host: cray-ims-1-service.ims.svc.cluster.local trailing"),
        None
    );
}

#[test]
fn exec_requests_carry_the_fixed_names_and_flags() {
    let discovery = make_discovery_request("operator-pod");
    assert_eq!(discovery.namespace, "services");
    assert_eq!(discovery.pod, "operator-pod");
    assert_eq!(discovery.container, "cray-console-operator");
    assert_eq!(
        discovery.command,
        vec![
            "sh".to_string(),
            "-c".to_string(),
            "cat /inventory/hosts/01-cfs-generated.yaml | grep cray-ims- | head -n 1".to_string()
        ]
    );
    assert_eq!(
        (discovery.stdin, discovery.stdout, discovery.stderr, discovery.tty),
        (false, true, false, false)
    );
    let shell = make_shell_request("target-pod");
    assert_eq!(shell.namespace, "ims");
    assert_eq!(shell.pod, "target-pod");
    assert_eq!(shell.container, "sshd");
    assert_eq!(shell.command, vec!["bash".to_string()]);
    assert_eq!((shell.stdin, shell.stdout, shell.stderr, shell.tty), (true, true, false, true));
}

#[test]
fn bridge_walks_both_hops() {
    let mut bridge = AttachBridge::new("batcher-001");
    assert_eq!(bridge.position(), BridgePosition::LocatingOperator);
    match bridge.current_action() {
        BridgeAction::ListPods { namespace, label_selector } => {
            assert_eq!(namespace, "services");
            assert_eq!(label_selector, "cfsession=batcher-001");
        }
        other => panic!("unexpected action {:?}", other),
    }
    match bridge.on_listing(&vec![]) {
        BridgeAction::Retry { delay_secs, namespace, label_selector } => {
            assert_eq!(delay_secs, 2);
            assert_eq!(namespace, "services");
            assert_eq!(label_selector, "cfsession=batcher-001");
        }
        other => panic!("unexpected action {:?}", other),
    }
    match bridge.on_listing(&pod("operator-pod")) {
        BridgeAction::Exec(request) => {
            assert_eq!(request.pod, "operator-pod");
            assert_eq!(request.container, "cray-console-operator");
        }
        other => panic!("unexpected action {:?}", other),
    }
    assert_eq!(bridge.position(), BridgePosition::Discovering);
    match bridge.on_discovered("ansible_host: cray-ims-77-service.ims.svc.cluster.local\n") {
        BridgeAction::ListPods { namespace, label_selector } => {
            assert_eq!(namespace, "ims");
            assert_eq!(label_selector, "job-name=cray-ims-77-customize");
        }
        other => panic!("unexpected action {:?}", other),
    }
    assert_eq!(bridge.position(), BridgePosition::LocatingTarget);
    match bridge.on_listing(&pod("customize-pod")) {
        BridgeAction::Exec(request) => {
            assert_eq!(request.namespace, "ims");
            assert_eq!(request.pod, "customize-pod");
            assert_eq!(request.container, "sshd");
            assert!(request.tty && request.stdin);
        }
        other => panic!("unexpected action {:?}", other),
    }
    assert_eq!(bridge.position(), BridgePosition::Attaching);
    assert!(matches!(bridge.on_attached(), BridgeAction::Done));
    assert_eq!(bridge.position(), BridgePosition::Attached);
    assert!(matches!(bridge.on_command_failed(), BridgeAction::Done));
    assert_eq!(bridge.position(), BridgePosition::Attached);
}

#[test]
fn bridge_fails_at_the_first_hop() {
    let mut bridge = AttachBridge::new("batcher-001");
    for _ in 0..3 {
        assert!(matches!(bridge.on_listing(&vec![]), BridgeAction::Retry { .. }));
    }
    let action = bridge.on_listing(&vec![]);
    assert!(fails_with(&action, Hop::Discovery, ExecFailure::PodNotReady));
    assert_eq!(bridge.position(), BridgePosition::Failed);
    assert!(fails_with(&bridge.on_listing(&pod("late")), Hop::Discovery, ExecFailure::PodNotReady));

    let mut bridge = AttachBridge::new("batcher-001");
    assert!(fails_with(&bridge.on_listing_failed(), Hop::Discovery, ExecFailure::ListingFailed));

    let mut bridge = AttachBridge::new("batcher-001");
    bridge.on_listing(&pod("operator-pod"));
    assert!(fails_with(&bridge.on_command_failed(), Hop::Discovery, ExecFailure::CommandFailed));

    let mut bridge = AttachBridge::new("batcher-001");
    bridge.on_listing(&pod("operator-pod"));
    assert!(fails_with(
        &bridge.on_discovered("no such file"),
        Hop::Discovery,
        ExecFailure::UnexpectedOutput
    ));
}

#[test]
fn bridge_fails_at_the_second_hop() {
    let start = || {
        let mut bridge = AttachBridge::new("batcher-001");
        bridge.on_listing(&pod("operator-pod"));
        bridge.on_discovered("ansible_host: cray-ims-77-service.ims.svc.cluster.local");
        bridge
    };
    let mut bridge = start();
    for _ in 0..3 {
        assert!(matches!(bridge.on_listing(&vec![]), BridgeAction::Retry { .. }));
    }
    assert!(fails_with(&bridge.on_listing(&vec![]), Hop::Attach, ExecFailure::PodNotReady));
    let mut bridge = start();
    assert!(fails_with(&bridge.on_listing_failed(), Hop::Attach, ExecFailure::ListingFailed));
    let mut bridge = start();
    bridge.on_listing(&pod("customize-pod"));
    assert!(fails_with(&bridge.on_command_failed(), Hop::Attach, ExecFailure::CommandFailed));
    assert!(fails_with(&bridge.on_attached(), Hop::Attach, ExecFailure::CommandFailed));
}

#[test]
fn collected_output_leaves_out_chunks_that_are_not_text() {
    let chunks = vec![b"ansible_".to_vec(), vec![0xff, 0xfe], b"host: x\n".to_vec(), vec![]];
    assert_eq!(collect_output(&chunks), "ansible_host: x\n");
    assert_eq!(collect_output(&vec![]), "");
}

#[test]
fn bridge_cancelled_fails_the_hop_in_progress() {
    let mut bridge = AttachBridge::new("batcher-001");
    assert!(fails_with(&bridge.cancel(), Hop::Discovery, ExecFailure::Cancelled));
    assert_eq!(bridge.position(), BridgePosition::Failed);
    assert!(fails_with(&bridge.on_listing(&pod("p")), Hop::Discovery, ExecFailure::Cancelled));
    let mut bridge = AttachBridge::new("batcher-001");
    bridge.on_listing(&pod("operator-pod"));
    bridge.on_discovered("ansible_host: cray-ims-77-service.ims.svc.cluster.local");
    bridge.on_listing(&pod("customize-pod"));
    assert!(fails_with(&bridge.cancel(), Hop::Attach, ExecFailure::Cancelled));
    let mut bridge = AttachBridge::new("batcher-001");
    bridge.on_listing(&pod("operator-pod"));
    bridge.on_discovered("ansible_host: cray-ims-77-service.ims.svc.cluster.local");
    bridge.on_listing(&pod("customize-pod"));
    bridge.on_attached();
    assert!(matches!(bridge.cancel(), BridgeAction::Done));
    assert_eq!(bridge.position(), BridgePosition::Attached);
}
