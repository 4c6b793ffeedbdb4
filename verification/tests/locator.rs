use mesa::common::kubernetes::locator::{
    configmap_selector, container_phase, is_ready_phase, is_target_satisfied, job_selector,
    observe_phase, session_selector, wait_for_any_pod, wait_for_container_running_or_terminated,
    ContainerPhase, ContainerStatusEntry, PodSummary, PollTarget, ReportedState, ResourceKind,
    WaitStep,
};
use mesa::common::kubernetes::poller::{PollPolicy, PollStatus};

fn entry(name: &str, state: Option<ReportedState>) -> ContainerStatusEntry {
    ContainerStatusEntry { name: name.to_string(), state }
}

fn pod(name: &str, init: Vec<ContainerStatusEntry>, main: Vec<ContainerStatusEntry>) -> PodSummary {
    PodSummary {
        name: name.to_string(),
        init_container_statuses: init,
        container_statuses: main,
    }
}

#[test]
fn container_phase_of_absent_status_is_unknown_absent() {
    let p = pod("p", vec![], vec![entry("other", Some(ReportedState::Running))]);
    assert_eq!(container_phase(&p, "ansible"), ContainerPhase::UnknownAbsent);
    assert_eq!(container_phase(&pod("q", vec![], vec![]), "ansible"), ContainerPhase::UnknownAbsent);
}

#[test]
fn container_phase_reads_the_reported_state() {
    let p = pod(
        "p",
        vec![entry("git-clone", Some(ReportedState::Terminated))],
        vec![
            entry("inventory", Some(ReportedState::Waiting)),
            entry("ansible", Some(ReportedState::Running)),
            entry("stateless", None),
        ],
    );
    assert_eq!(container_phase(&p, "git-clone"), ContainerPhase::Terminated);
    assert_eq!(container_phase(&p, "inventory"), ContainerPhase::Waiting);
    assert_eq!(container_phase(&p, "ansible"), ContainerPhase::Running);
    assert_eq!(container_phase(&p, "stateless"), ContainerPhase::Waiting);
    assert_eq!(container_phase(&p, "ansibl"), ContainerPhase::UnknownAbsent);
}

#[test]
fn container_phase_takes_the_first_entry_of_a_name() {
    let p = pod(
        "p",
        vec![],
        vec![
            entry("ansible", Some(ReportedState::Waiting)),
            entry("ansible", Some(ReportedState::Running)),
        ],
    );
    assert_eq!(container_phase(&p, "ansible"), ContainerPhase::Waiting);
}

#[test]
fn absent_status_is_as_little_ready_as_waiting() {
    assert!(!is_ready_phase(ContainerPhase::UnknownAbsent));
    assert!(!is_ready_phase(ContainerPhase::Waiting));
    assert!(is_ready_phase(ContainerPhase::Running));
    assert!(is_ready_phase(ContainerPhase::Terminated));
    let target = PollTarget {
        namespace: "services".to_string(),
        label_selector: "cfsession=s".to_string(),
        container: Some("ansible".to_string()),
    };
    let absent = vec![pod("p", vec![], vec![])];
    let waiting = vec![pod("p", vec![], vec![entry("ansible", Some(ReportedState::Waiting))])];
    let running = vec![pod("p", vec![], vec![entry("ansible", Some(ReportedState::Running))])];
    assert!(!is_target_satisfied(&target, &absent));
    assert!(!is_target_satisfied(&target, &waiting));
    assert!(is_target_satisfied(&target, &running));
    assert!(!is_target_satisfied(&target, &vec![]));
    assert_eq!(observe_phase(&target, &absent), ContainerPhase::UnknownAbsent);
    assert_eq!(observe_phase(&target, &waiting), ContainerPhase::Waiting);
    assert_eq!(observe_phase(&target, &vec![]), ContainerPhase::UnknownAbsent);
}

#[test]
fn pod_target_is_satisfied_by_any_pod() {
    let target = PollTarget {
        namespace: "services".to_string(),
        label_selector: "cfsession=s".to_string(),
        container: None,
    };
    assert!(!is_target_satisfied(&target, &vec![]));
    assert!(is_target_satisfied(&target, &vec![pod("p", vec![], vec![])]));
}

#[test]
fn selectors_follow_the_label_conventions() {
    assert_eq!(session_selector("batcher-001"), "cfsession=batcher-001");
    assert_eq!(job_selector("cray-ims-1-customize"), "job-name=cray-ims-1-customize");
    assert_eq!(configmap_selector("cray-product-catalog"), "metadata.name=cray-product-catalog");
}

#[test]
fn wait_for_any_pod_fails_with_resource_not_ready() {
    let mut wait = wait_for_any_pod(
        "batcher-001",
        "services",
        "cfsession=batcher-001",
        PollPolicy { max_attempts: 2, delay_secs: 3 },
    );
    assert!(matches!(wait.start(), WaitStep::List));
    assert_eq!(wait.poll_policy(), PollPolicy { max_attempts: 2, delay_secs: 3 });
    assert_eq!(wait.target().namespace, "services");
    assert_eq!(wait.target().label_selector, "cfsession=batcher-001");
    assert!(wait.target().container.is_none());
    assert!(matches!(wait.observe(&vec![]), WaitStep::Retry { delay_secs: 3 }));
    match wait.observe(&vec![]) {
        WaitStep::Failed(error) => {
            assert_eq!(error.job, "batcher-001");
            assert_eq!(error.namespace, "services");
            assert_eq!(error.kind, ResourceKind::Pod);
            assert_eq!(error.last_phase, ContainerPhase::UnknownAbsent);
        }
        other => panic!("unexpected step {:?}", other),
    }
    assert_eq!(wait.attempts(), 2);
    assert_eq!(wait.pauses(), 1);
    assert_eq!(wait.status(), PollStatus::TimedOut);
    assert!(matches!(wait.observe(&vec![pod("late", vec![], vec![])]), WaitStep::Failed(_)));
    assert_eq!(wait.attempts(), 2);
}

#[test]
fn wait_for_container_fails_with_the_last_phase() {
    let mut wait = wait_for_container_running_or_terminated(
        "batcher-001",
        "services",
        "cfsession=batcher-001",
        "ansible",
        PollPolicy { max_attempts: 1, delay_secs: 2 },
    );
    let waiting = vec![pod("p", vec![], vec![entry("ansible", Some(ReportedState::Waiting))])];
    match wait.observe(&waiting) {
        WaitStep::Failed(error) => {
            assert_eq!(error.kind, ResourceKind::Container);
            assert_eq!(error.last_phase, ContainerPhase::Waiting);
            assert_eq!(error.job, "batcher-001");
        }
        other => panic!("unexpected step {:?}", other),
    }
}

#[test]
fn wait_reports_the_located_pod_again_when_asked_again() {
    let mut wait = wait_for_any_pod("j", "ns", "sel", PollPolicy { max_attempts: 3, delay_secs: 2 });
    match wait.observe(&vec![pod("first", vec![], vec![]), pod("second", vec![], vec![])]) {
        WaitStep::Ready { pod } => assert_eq!(pod, "first"),
        other => panic!("unexpected step {:?}", other),
    }
    match wait.observe(&vec![]) {
        WaitStep::Ready { pod } => assert_eq!(pod, "first"),
        other => panic!("unexpected step {:?}", other),
    }
    assert_eq!(wait.attempts(), 1);
    assert_eq!(wait.pauses(), 0);
}

#[test]
fn batcher_001_succeeds_on_the_sixth_combined_attempt() {
    let job = "batcher-001";
    let waiting = || vec![pod("batcher-pod", vec![], vec![entry("ansible", Some(ReportedState::Waiting))])];
    let running = || vec![pod("batcher-pod", vec![], vec![entry("ansible", Some(ReportedState::Running))])];
    let listings: Vec<Vec<PodSummary>> =
        vec![vec![], vec![], waiting(), waiting(), waiting(), running(), running()];
    let mut wait = wait_for_container_running_or_terminated(
        job,
        "services",
        "cfsession=batcher-001",
        "ansible",
        PollPolicy { max_attempts: 30, delay_secs: 2 },
    );
    let mut attempts = 0u32;
    let mut located = None;
    for listing in &listings {
        attempts += 1;
        match wait.observe(listing) {
            WaitStep::Retry { delay_secs } => assert_eq!(delay_secs, 2),
            WaitStep::Ready { pod } => {
                located = Some(pod);
                break;
            }
            other => panic!("unexpected step {:?}", other),
        }
    }
    assert_eq!(attempts, 6);
    assert_eq!(wait.attempts(), 6);
    assert_eq!(wait.pauses(), 5);
    assert_eq!(located.as_deref(), Some("batcher-pod"));
}

#[test]
fn wait_cancelled_stays_cancelled() {
    let mut wait = wait_for_any_pod("j", "ns", "sel", PollPolicy { max_attempts: 3, delay_secs: 2 });
    assert!(matches!(wait.observe(&vec![]), WaitStep::Retry { delay_secs: 2 }));
    assert!(matches!(wait.cancel(), WaitStep::Cancelled));
    assert_eq!(wait.status(), PollStatus::Cancelled);
    assert!(matches!(wait.observe(&vec![pod("late", vec![], vec![])]), WaitStep::Cancelled));
    assert!(matches!(wait.start(), WaitStep::Cancelled));
    assert_eq!(wait.attempts(), 1);
    let mut found = wait_for_any_pod("j", "ns", "sel", PollPolicy { max_attempts: 3, delay_secs: 2 });
    found.observe(&vec![pod("p", vec![], vec![])]);
    assert!(matches!(found.cancel(), WaitStep::Ready { .. }));
}
