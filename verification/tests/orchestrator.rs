use mesa::common::kubernetes::locator::{
    ContainerPhase, ContainerStatusEntry, PodSummary, ReportedState, ResourceKind,
};
use mesa::common::kubernetes::log_stream::StreamError;
use mesa::common::kubernetes::orchestrator::{
    LogAction, PhaseResult, Position, SessionLogOrchestrator,
};

fn pod_with(init: Option<ReportedState>, main: Option<ReportedState>) -> Vec<PodSummary> {
    let mut init_statuses = vec![];
    if let Some(state) = init {
        init_statuses.push(ContainerStatusEntry { name: "git-clone".to_string(), state: Some(state) });
    }
    let mut statuses = vec![];
    if let Some(state) = main {
        statuses.push(ContainerStatusEntry { name: "ansible".to_string(), state: Some(state) });
    }
    vec![PodSummary {
        name: "cfs-pod".to_string(),
        init_container_statuses: init_statuses,
        container_statuses: statuses,
    }]
}

fn is_list(action: &LogAction) -> bool {
    match action {
        LogAction::ListPods { namespace, label_selector } => {
            namespace == "services" && label_selector == "cfsession=batcher-001"
        }
        _ => false,
    }
}

fn is_retry(action: &LogAction) -> bool {
    match action {
        LogAction::Retry { delay_secs, namespace, label_selector } => {
            *delay_secs == 2 && namespace == "services" && label_selector == "cfsession=batcher-001"
        }
        _ => false,
    }
}

fn follows(action: &LogAction, container: &str) -> bool {
    match action {
        LogAction::FollowLog(request) => {
            request.namespace == "services"
                && request.pod == "cfs-pod"
                && request.container == container
                && request.follow
        }
        _ => false,
    }
}

#[test]
fn orchestrator_walks_both_phases_in_order() {
    let mut orchestrator = SessionLogOrchestrator::new("batcher-001");
    assert_eq!(orchestrator.position(), Position::InitLocatingPod);
    assert!(is_list(&orchestrator.current_action()));
    assert!(is_retry(&orchestrator.on_listing(&vec![])));
    assert_eq!(orchestrator.position(), Position::InitLocatingPod);
    assert!(is_retry(&orchestrator.on_listing(&pod_with(Some(ReportedState::Waiting), None))));
    assert_eq!(orchestrator.position(), Position::InitAwaitingContainer);
    let action = orchestrator.on_listing(&pod_with(Some(ReportedState::Running), None));
    assert!(follows(&action, "git-clone"));
    assert_eq!(orchestrator.position(), Position::InitDraining);
    assert!(follows(&orchestrator.on_listing(&vec![]), "git-clone"));
    assert_eq!(orchestrator.position(), Position::InitDraining);
    assert!(is_list(&orchestrator.on_stream_ended(None)));
    assert_eq!(orchestrator.position(), Position::MainAwaitingContainer);
    assert_eq!(orchestrator.init_result(), PhaseResult::Streamed);
    assert_eq!(orchestrator.main_result(), PhaseResult::Pending);
    assert!(is_retry(&orchestrator.on_listing(&pod_with(
        Some(ReportedState::Terminated),
        Some(ReportedState::Waiting)
    ))));
    let action = orchestrator
        .on_listing(&pod_with(Some(ReportedState::Terminated), Some(ReportedState::Terminated)));
    assert!(follows(&action, "ansible"));
    assert_eq!(orchestrator.position(), Position::MainDraining);
    assert!(matches!(
        orchestrator.on_stream_ended(Some(StreamError::InvalidUtf8)),
        LogAction::Finish
    ));
    assert_eq!(orchestrator.position(), Position::Finished);
    assert_eq!(orchestrator.main_result(), PhaseResult::StreamFailed(StreamError::InvalidUtf8));
    assert_eq!(orchestrator.init_result(), PhaseResult::Streamed);
    assert!(matches!(orchestrator.on_listing(&vec![]), LogAction::Finish));
    assert!(matches!(orchestrator.on_stream_ended(None), LogAction::Finish));
    assert_eq!(orchestrator.position(), Position::Finished);
}

#[test]
fn orchestrator_attempts_main_phase_after_initialization_wait_is_exhausted() {
    let mut orchestrator = SessionLogOrchestrator::new("batcher-001");
    let mut action = orchestrator.current_action();
    let mut listings = 0;
    while orchestrator.position() == Position::InitLocatingPod {
        assert!(is_list(&action) || is_retry(&action));
        action = orchestrator.on_listing(&vec![]);
        listings += 1;
    }
    assert_eq!(listings, 4);
    assert_eq!(orchestrator.position(), Position::MainAwaitingContainer);
    assert!(is_list(&action));
    assert_eq!(
        orchestrator.init_result(),
        PhaseResult::NotReady(ResourceKind::Pod, ContainerPhase::UnknownAbsent)
    );
    assert_eq!(orchestrator.main_result(), PhaseResult::Pending);
    let action = orchestrator.on_listing(&pod_with(None, Some(ReportedState::Running)));
    assert!(follows(&action, "ansible"));
    assert!(matches!(orchestrator.on_stream_ended(None), LogAction::Finish));
    assert_eq!(orchestrator.main_result(), PhaseResult::Streamed);
}

#[test]
fn orchestrator_attempts_main_phase_after_init_container_never_starts() {
    let mut orchestrator = SessionLogOrchestrator::new("batcher-001");
    let waiting = pod_with(Some(ReportedState::Waiting), None);
    let mut action = orchestrator.on_listing(&waiting);
    let mut listings = 1;
    while orchestrator.position() == Position::InitAwaitingContainer {
        assert!(is_retry(&action));
        action = orchestrator.on_listing(&waiting);
        listings += 1;
    }
    assert_eq!(listings, 300);
    assert!(is_list(&action));
    assert_eq!(orchestrator.position(), Position::MainAwaitingContainer);
    assert_eq!(
        orchestrator.init_result(),
        PhaseResult::NotReady(ResourceKind::Container, ContainerPhase::Waiting)
    );
    assert_eq!(orchestrator.attempts(), 0);
}

#[test]
fn orchestrator_records_failures_of_listing_and_opening() {
    let mut orchestrator = SessionLogOrchestrator::new("batcher-001");
    assert!(is_list(&orchestrator.on_listing_failed()));
    assert_eq!(orchestrator.init_result(), PhaseResult::ListingFailed);
    assert_eq!(orchestrator.position(), Position::MainAwaitingContainer);
    let action = orchestrator.on_listing(&pod_with(None, Some(ReportedState::Running)));
    assert!(follows(&action, "ansible"));
    assert!(matches!(orchestrator.on_stream_refused(), LogAction::Finish));
    assert_eq!(orchestrator.main_result(), PhaseResult::OpenFailed);
    assert_eq!(orchestrator.position(), Position::Finished);

    let mut other = SessionLogOrchestrator::new("batcher-001");
    other.on_listing(&pod_with(Some(ReportedState::Running), None));
    assert_eq!(other.position(), Position::InitDraining);
    assert!(follows(&other.on_listing_failed(), "git-clone"));
    assert!(is_list(&other.on_stream_refused()));
    assert_eq!(other.init_result(), PhaseResult::OpenFailed);
    assert!(matches!(other.on_listing_failed(), LogAction::Finish));
    assert_eq!(other.main_result(), PhaseResult::ListingFailed);
}

#[test]
fn orchestrator_finishes_when_main_container_never_starts() {
    let mut orchestrator = SessionLogOrchestrator::new("batcher-001");
    orchestrator.on_listing_failed();
    let mut action = orchestrator.current_action();
    let mut listings = 0;
    while orchestrator.position() == Position::MainAwaitingContainer {
        assert!(is_list(&action) || is_retry(&action));
        action = orchestrator.on_listing(&vec![]);
        listings += 1;
    }
    assert_eq!(listings, 300);
    assert!(matches!(action, LogAction::Finish));
    assert_eq!(
        orchestrator.main_result(),
        PhaseResult::NotReady(ResourceKind::Container, ContainerPhase::UnknownAbsent)
    );
}

#[test]
fn orchestrator_follows_the_log_at_the_sixth_listing_for_batcher_001() {
    let mut orchestrator = SessionLogOrchestrator::new("batcher-001");
    let listings = vec![
        vec![],
        vec![],
        pod_with(Some(ReportedState::Waiting), None),
        pod_with(Some(ReportedState::Waiting), None),
        pod_with(Some(ReportedState::Waiting), None),
        pod_with(Some(ReportedState::Running), None),
    ];
    let mut made = 0;
    let mut action = orchestrator.current_action();
    for listing in &listings {
        assert!(is_list(&action) || is_retry(&action));
        action = orchestrator.on_listing(listing);
        made += 1;
    }
    assert_eq!(made, 6);
    assert!(follows(&action, "git-clone"));
    assert_eq!(orchestrator.position(), Position::InitDraining);
    assert_eq!(orchestrator.attempts(), 4);
}

#[test]
fn orchestrator_cancelled_ends_the_walk_where_it_stands() {
    let mut orchestrator = SessionLogOrchestrator::new("batcher-001");
    orchestrator.on_listing(&vec![]);
    assert!(matches!(orchestrator.cancel(), LogAction::Finish));
    assert_eq!(orchestrator.position(), Position::Cancelled);
    assert_eq!(orchestrator.init_result(), PhaseResult::Cancelled);
    assert_eq!(orchestrator.main_result(), PhaseResult::Pending);
    let running = pod_with(Some(ReportedState::Running), Some(ReportedState::Running));
    assert!(matches!(orchestrator.on_listing(&running), LogAction::Finish));
    assert!(matches!(orchestrator.on_stream_ended(None), LogAction::Finish));
    assert!(matches!(orchestrator.on_listing_failed(), LogAction::Finish));
    assert!(matches!(orchestrator.current_action(), LogAction::Finish));
    assert_eq!(orchestrator.position(), Position::Cancelled);
    assert_eq!(orchestrator.main_result(), PhaseResult::Pending);

    let mut draining = SessionLogOrchestrator::new("batcher-001");
    draining.on_listing(&pod_with(Some(ReportedState::Running), None));
    draining.on_stream_ended(None);
    draining.on_listing(&pod_with(None, Some(ReportedState::Running)));
    assert_eq!(draining.position(), Position::MainDraining);
    assert!(matches!(draining.cancel(), LogAction::Finish));
    assert_eq!(draining.init_result(), PhaseResult::Streamed);
    assert_eq!(draining.main_result(), PhaseResult::Cancelled);

    let mut finished = SessionLogOrchestrator::new("batcher-001");
    finished.on_listing_failed();
    finished.on_listing_failed();
    assert_eq!(finished.position(), Position::Finished);
    assert!(matches!(finished.cancel(), LogAction::Finish));
    assert_eq!(finished.position(), Position::Finished);
    assert_eq!(finished.main_result(), PhaseResult::ListingFailed);
}
