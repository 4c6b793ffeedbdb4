//! The order in which a session's logs are shown.
//!
//! A session runs in one pod: an initialization container fetches the
//! configuration, then the main container applies it. The orchestrator
//! walks through both phases in that order: locate the pod, wait for the
//! phase's container to start, follow its log to the end. It decides only;
//! the caller lists pods, pauses and reads logs, and reports what happened.
//! A phase that fails is recorded and the next one is still attempted.
//! Between any two steps the caller may give up with
//! [`SessionLogOrchestrator::cancel`]; the orchestrator holds nothing that
//! would have to be released.

use vstd::prelude::*;
use vstd::string::StringExecFns;
use crate::common::kubernetes::locator::{
    session_label_selector,
    session_selector,
    wait_for_any_pod,
    wait_for_container_running_or_terminated,
    wait_cancel,
    wait_observe,
    wait_start,
    ContainerPhase,
    PodSummary,
    ReadinessWait,
    ResourceKind,
    TargetView,
    WaitState,
    WaitStep,
    SESSION_NAMESPACE,
};
use crate::common::kubernetes::log_stream::StreamError;
use crate::common::kubernetes::poller::{
    container_start_policy,
    pod_appearance_policy,
    PollPolicy,
    PollStatus,
    CONTAINER_START_ATTEMPTS,
    POD_APPEARANCE_ATTEMPTS,
    POLL_DELAY_SECS,
};

verus! {

/// The container of the initialization phase.
pub const INIT_CONTAINER: &'static str = "git-clone";

/// The container of the main phase.
pub const MAIN_CONTAINER: &'static str = "ansible";

/// The two phases of a session, in the order in which they run.
#[derive(Clone, Copy, Debug, PartialEq, Eq, Structural)]
pub enum LogPhase {
    Initialization,
    Main,
}

/// Where the orchestrator stands. The positions are passed in the order in
/// which they are listed, up to `Finished`, and none is entered twice;
/// `Cancelled` can follow any of the others.
#[derive(Clone, Copy, Debug, PartialEq, Eq, Structural)]
pub enum Position {
    InitLocatingPod,
    InitAwaitingContainer,
    InitDraining,
    MainAwaitingContainer,
    MainDraining,
    Finished,
    /// The caller gave up before the walk had finished.
    Cancelled,
}

/// How a phase ended.
#[derive(Clone, Copy, Debug, PartialEq, Eq, Structural)]
pub enum PhaseResult {
    /// The phase has not ended yet.
    Pending,
    /// The log was followed to its end.
    Streamed,
    /// The log was followed until an error ended the stream.
    StreamFailed(StreamError),
    /// The pod or the container was not ready within the attempts granted;
    /// with the phase seen last.
    NotReady(ResourceKind, ContainerPhase),
    /// A pod listing could not be obtained.
    ListingFailed,
    /// The log could not be opened.
    OpenFailed,
    /// The caller gave up during the phase.
    Cancelled,
}

/// A request to follow the log of one container.
#[derive(Clone, Debug)]
pub struct LogRequest {
    pub namespace: String,
    pub pod: String,
    pub container: String,
    /// Keep the log open while the container produces output.
    pub follow: bool,
}

/// What the caller of the orchestrator does next.
#[derive(Clone, Debug)]
pub enum LogAction {
    /// List the pods under the selector, and report the listing.
    ListPods { namespace: String, label_selector: String },
    /// Pause, then list the pods under the selector, and report the listing.
    Retry { delay_secs: u64, namespace: String, label_selector: String },
    /// Open the log, hand every line to the consumer until the stream ends,
    /// and report how it ended.
    FollowLog(LogRequest),
    /// Stop: the walk has ended.
    Finish,
}

/// An action as mathematical value.
pub enum LogActionView {
    ListPods { namespace: Seq<char>, label_selector: Seq<char> },
    Retry { delay_secs: u64, namespace: Seq<char>, label_selector: Seq<char> },
    FollowLog { namespace: Seq<char>, pod: Seq<char>, container: Seq<char>, follow: bool },
    Finish,
}

impl View for LogAction {
    type V = LogActionView;

    open spec fn view(&self) -> LogActionView {
        match *self {
            LogAction::ListPods { namespace, label_selector } => LogActionView::ListPods {
                namespace: namespace@,
                label_selector: label_selector@,
            },
            LogAction::Retry { delay_secs, namespace, label_selector } => LogActionView::Retry {
                delay_secs,
                namespace: namespace@,
                label_selector: label_selector@,
            },
            LogAction::FollowLog(request) => LogActionView::FollowLog {
                namespace: request.namespace@,
                pod: request.pod@,
                container: request.container@,
                follow: request.follow,
            },
            LogAction::Finish => LogActionView::Finish,
        }
    }
}

/// The mathematical state of the orchestrator.
pub struct SessionLogState {
    pub position: Position,
    /// What the wait that is running, or ran last, looks for.
    pub target: TargetView,
    /// The policy of that wait.
    pub policy: PollPolicy,
    /// The state of that wait.
    pub wait: WaitState,
    /// The pod whose log is followed or was followed last.
    pub pod: Option<Seq<char>>,
    pub init: PhaseResult,
    pub main: PhaseResult,
}

/// The policy of the wait for the session's pod.
pub open spec fn pod_policy() -> PollPolicy {
    PollPolicy { max_attempts: POD_APPEARANCE_ATTEMPTS, delay_secs: POLL_DELAY_SECS }
}

/// The policy of the wait for a container to start.
pub open spec fn container_policy() -> PollPolicy {
    PollPolicy { max_attempts: CONTAINER_START_ATTEMPTS, delay_secs: POLL_DELAY_SECS }
}

/// What a wait of the session `job` looks for.
pub open spec fn session_target(job: Seq<char>, container: Option<Seq<char>>) -> TargetView {
    TargetView {
        namespace: SESSION_NAMESPACE@,
        label_selector: session_label_selector(job),
        container,
    }
}

/// The container whose log a phase shows.
pub open spec fn phase_container(phase: LogPhase) -> Seq<char> {
    match phase {
        LogPhase::Initialization => INIT_CONTAINER@,
        LogPhase::Main => MAIN_CONTAINER@,
    }
}

/// The state in which the orchestrator starts.
pub open spec fn session_start(job: Seq<char>) -> SessionLogState {
    SessionLogState {
        position: Position::InitLocatingPod,
        target: session_target(job, None),
        policy: pod_policy(),
        wait: wait_start(pod_policy()),
        pod: None,
        init: PhaseResult::Pending,
        main: PhaseResult::Pending,
    }
}

/// The action that lists the session's pods.
pub open spec fn list_action(job: Seq<char>) -> LogActionView {
    LogActionView::ListPods {
        namespace: SESSION_NAMESPACE@,
        label_selector: session_label_selector(job),
    }
}

/// The action that follows the log of a phase's container in `pod`.
pub open spec fn follow_action(pod: Seq<char>, phase: LogPhase) -> LogActionView {
    LogActionView::FollowLog {
        namespace: SESSION_NAMESPACE@,
        pod,
        container: phase_container(phase),
        follow: true,
    }
}

/// The action that a position asks for when nothing new was learnt.
pub open spec fn pending_action(job: Seq<char>, state: SessionLogState) -> LogActionView {
    match state.position {
        Position::InitLocatingPod
        | Position::InitAwaitingContainer
        | Position::MainAwaitingContainer => list_action(job),
        Position::InitDraining => match state.pod {
            Some(pod) => follow_action(pod, LogPhase::Initialization),
            None => LogActionView::Finish,
        },
        Position::MainDraining => match state.pod {
            Some(pod) => follow_action(pod, LogPhase::Main),
            None => LogActionView::Finish,
        },
        Position::Finished | Position::Cancelled => LogActionView::Finish,
    }
}

/// The end of a phase: its result is recorded; after the initialization
/// phase the main phase begins with a fresh listing, after the main phase
/// the orchestrator is finished.
pub open spec fn phase_over(
    job: Seq<char>,
    state: SessionLogState,
    phase: LogPhase,
    result: PhaseResult,
) -> (SessionLogState, LogActionView) {
    match phase {
        LogPhase::Initialization => (
            SessionLogState {
                position: Position::MainAwaitingContainer,
                target: session_target(job, Some(MAIN_CONTAINER@)),
                policy: container_policy(),
                wait: wait_start(container_policy()),
                pod: None,
                init: result,
                main: state.main,
            },
            list_action(job),
        ),
        LogPhase::Main => (
            SessionLogState { position: Position::Finished, main: result, ..state },
            LogActionView::Finish,
        ),
    }
}

/// One listing judged by the wait for a phase's container, which looks for
/// `target` under `policy` and whose state before the listing is `wait`.
pub open spec fn container_stage(
    job: Seq<char>,
    state: SessionLogState,
    phase: LogPhase,
    target: TargetView,
    policy: PollPolicy,
    wait: WaitState,
    pods: Seq<PodSummary>,
) -> (SessionLogState, LogActionView) {
    let after = wait_observe(target, policy, wait, pods);
    let judged = SessionLogState {
        position: match phase {
            LogPhase::Initialization => Position::InitAwaitingContainer,
            LogPhase::Main => Position::MainAwaitingContainer,
        },
        target,
        policy,
        wait: after,
        ..state
    };
    match after.poll.status {
        PollStatus::Ready => (
            SessionLogState {
                position: match phase {
                    LogPhase::Initialization => Position::InitDraining,
                    LogPhase::Main => Position::MainDraining,
                },
                pod: after.located,
                ..judged
            },
            match after.located {
                Some(pod) => follow_action(pod, phase),
                None => LogActionView::Finish,
            },
        ),
        PollStatus::Evaluating => (
            judged,
            LogActionView::Retry {
                delay_secs: policy.delay_secs,
                namespace: SESSION_NAMESPACE@,
                label_selector: session_label_selector(job),
            },
        ),
        PollStatus::TimedOut => phase_over(
            job,
            judged,
            phase,
            PhaseResult::NotReady(ResourceKind::Container, after.last_phase),
        ),
        PollStatus::Cancelled => phase_over(job, judged, phase, PhaseResult::Cancelled),
    }
}

/// The step on a pod listing.
pub open spec fn session_on_listing(job: Seq<char>, state: SessionLogState, pods: Seq<PodSummary>)
    -> (SessionLogState, LogActionView) {
    match state.position {
        Position::InitLocatingPod => {
            let after = wait_observe(state.target, state.policy, state.wait, pods);
            match after.poll.status {
                PollStatus::Ready => container_stage(
                    job,
                    state,
                    LogPhase::Initialization,
                    session_target(job, Some(INIT_CONTAINER@)),
                    container_policy(),
                    wait_start(container_policy()),
                    pods,
                ),
                PollStatus::Evaluating => (
                    SessionLogState { wait: after, ..state },
                    LogActionView::Retry {
                        delay_secs: state.policy.delay_secs,
                        namespace: SESSION_NAMESPACE@,
                        label_selector: session_label_selector(job),
                    },
                ),
                PollStatus::TimedOut => phase_over(
                    job,
                    SessionLogState { wait: after, ..state },
                    LogPhase::Initialization,
                    PhaseResult::NotReady(ResourceKind::Pod, after.last_phase),
                ),
                PollStatus::Cancelled => phase_over(
                    job,
                    SessionLogState { wait: after, ..state },
                    LogPhase::Initialization,
                    PhaseResult::Cancelled,
                ),
            }
        },
        Position::InitAwaitingContainer => container_stage(
            job,
            state,
            LogPhase::Initialization,
            state.target,
            state.policy,
            state.wait,
            pods,
        ),
        Position::MainAwaitingContainer => container_stage(
            job,
            state,
            LogPhase::Main,
            state.target,
            state.policy,
            state.wait,
            pods,
        ),
        Position::InitDraining
        | Position::MainDraining
        | Position::Finished
        | Position::Cancelled => (state, pending_action(job, state)),
    }
}

/// The step on a listing that could not be obtained: the phase that was
/// waiting is over.
pub open spec fn session_on_listing_failed(job: Seq<char>, state: SessionLogState) -> (
    SessionLogState,
    LogActionView,
) {
    match state.position {
        Position::InitLocatingPod | Position::InitAwaitingContainer => phase_over(
            job,
            state,
            LogPhase::Initialization,
            PhaseResult::ListingFailed,
        ),
        Position::MainAwaitingContainer => phase_over(
            job,
            state,
            LogPhase::Main,
            PhaseResult::ListingFailed,
        ),
        Position::InitDraining
        | Position::MainDraining
        | Position::Finished
        | Position::Cancelled => (state, pending_action(job, state)),
    }
}

/// The step on the end of a log: the phase whose log was followed is over.
pub open spec fn session_on_stream_end(job: Seq<char>, state: SessionLogState, result: PhaseResult)
    -> (SessionLogState, LogActionView) {
    match state.position {
        Position::InitDraining => phase_over(job, state, LogPhase::Initialization, result),
        Position::MainDraining => phase_over(job, state, LogPhase::Main, result),
        Position::InitLocatingPod
        | Position::InitAwaitingContainer
        | Position::MainAwaitingContainer
        | Position::Finished
        | Position::Cancelled => (state, pending_action(job, state)),
    }
}

/// The step on the caller giving up: the phase in progress is recorded as
/// cancelled and the walk ends; a walk that has ended stays as it is.
pub open spec fn session_cancel(state: SessionLogState) -> (SessionLogState, LogActionView) {
    match position_phase(state.position) {
        Some(LogPhase::Initialization) => (
            SessionLogState {
                position: Position::Cancelled,
                wait: wait_cancel(state.wait),
                init: PhaseResult::Cancelled,
                ..state
            },
            LogActionView::Finish,
        ),
        Some(LogPhase::Main) => (
            SessionLogState {
                position: Position::Cancelled,
                wait: wait_cancel(state.wait),
                main: PhaseResult::Cancelled,
                ..state
            },
            LogActionView::Finish,
        ),
        None => (state, LogActionView::Finish),
    }
}

/// How a followed log's end is recorded.
pub open spec fn stream_result(error: Option<StreamError>) -> PhaseResult {
    match error {
        None => PhaseResult::Streamed,
        Some(e) => PhaseResult::StreamFailed(e),
    }
}

/// The place of a position in the order of the walk.
pub open spec fn position_rank(position: Position) -> nat {
    match position {
        Position::InitLocatingPod => 0,
        Position::InitAwaitingContainer => 1,
        Position::InitDraining => 2,
        Position::MainAwaitingContainer => 3,
        Position::MainDraining => 4,
        Position::Finished | Position::Cancelled => 5,
    }
}

/// The phase that a position belongs to, if it belongs to one.
pub open spec fn position_phase(position: Position) -> Option<LogPhase> {
    match position {
        Position::InitLocatingPod
        | Position::InitAwaitingContainer
        | Position::InitDraining => Some(LogPhase::Initialization),
        Position::MainAwaitingContainer | Position::MainDraining => Some(LogPhase::Main),
        Position::Finished | Position::Cancelled => None,
    }
}

/// What the caller can report.
pub enum SessionEvent {
    Listed(Seq<PodSummary>),
    ListingFailed,
    /// The followed log ended, or could not be opened.
    StreamEnded(PhaseResult),
    /// The caller gives up.
    Cancelled,
}

/// The step on any event.
pub open spec fn session_step(job: Seq<char>, state: SessionLogState, event: SessionEvent) -> (
    SessionLogState,
    LogActionView,
) {
    match event {
        SessionEvent::Listed(pods) => session_on_listing(job, state, pods),
        SessionEvent::ListingFailed => session_on_listing_failed(job, state),
        SessionEvent::StreamEnded(result) => session_on_stream_end(job, state, result),
        SessionEvent::Cancelled => session_cancel(state),
    }
}

/// Whether a position is one in which a wait is running.
pub open spec fn is_waiting(position: Position) -> bool {
    position == Position::InitLocatingPod || position == Position::InitAwaitingContainer
        || position == Position::MainAwaitingContainer
}

/// What holds of every state that the orchestrator reaches.
pub open spec fn session_state_valid(state: SessionLogState) -> bool {
    &&& (state.position == Position::InitDraining || state.position == Position::MainDraining)
        ==> state.pod is Some
    &&& is_waiting(state.position) ==> state.wait.poll.status == PollStatus::Evaluating
    &&& position_phase(state.position) == Some(LogPhase::Initialization) ==> state.init
        == PhaseResult::Pending
    &&& position_phase(state.position) != None::<LogPhase> ==> state.main == PhaseResult::Pending
    &&& position_phase(state.position) != Some(LogPhase::Initialization) ==> state.init
        != PhaseResult::Pending
    &&& state.position == Position::Finished ==> state.main != PhaseResult::Pending
}

/// The orchestrator starts in a valid state, and no step leaves the valid
/// states, whatever is reported, as long as a log's end is not reported as
/// pending.
pub proof fn lemma_session_stays_valid(job: Seq<char>, state: SessionLogState, event: SessionEvent)
    requires
        session_state_valid(state),
        event != SessionEvent::StreamEnded(PhaseResult::Pending),
    ensures
        session_state_valid(session_start(job)),
        session_state_valid(session_step(job, state, event).0),
{
}

/// The walk is sequential. No step goes back to an earlier position. The
/// main phase is entered only at its first position and only once the
/// initialization phase has a result, and the walk finishes only from the
/// main phase, with a result for it: no phase is skipped and none is entered
/// again. Only the caller's giving up ends the walk earlier.
pub proof fn lemma_session_walks_in_order(
    job: Seq<char>,
    state: SessionLogState,
    event: SessionEvent,
)
    requires
        session_state_valid(state),
        event != SessionEvent::StreamEnded(PhaseResult::Pending),
    ensures
        ({
            let next = session_step(job, state, event).0;
            &&& position_rank(state.position) <= position_rank(next.position)
            &&& position_phase(state.position) == Some(LogPhase::Initialization)
                ==> position_phase(next.position) == Some(LogPhase::Initialization)
                || next.position == Position::MainAwaitingContainer || (event
                == SessionEvent::Cancelled && next.position == Position::Cancelled)
            &&& next.position == Position::Cancelled ==> state.position == Position::Cancelled
                || event == SessionEvent::Cancelled
            &&& position_phase(next.position) == Some(LogPhase::Main) ==> next.init
                != PhaseResult::Pending
            &&& next.position == Position::Finished ==> position_phase(state.position) != Some(
                LogPhase::Initialization,
            ) && next.main != PhaseResult::Pending
            &&& state.init != PhaseResult::Pending ==> next.init == state.init
            &&& state.main != PhaseResult::Pending ==> next.main == state.main
        }),
{
}

/// A failure of the initialization phase does not end the walk. Whether its
/// wait runs out of attempts, its listing fails, or its log fails or cannot
/// be opened: the failure is recorded and the next action lists the pods for
/// the main phase.
pub proof fn lemma_failed_initialization_still_runs_main(
    job: Seq<char>,
    state: SessionLogState,
    event: SessionEvent,
)
    requires
        session_state_valid(state),
        position_phase(state.position) == Some(LogPhase::Initialization),
        event != SessionEvent::StreamEnded(PhaseResult::Pending),
        event != SessionEvent::Cancelled,
        session_step(job, state, event).0.init != PhaseResult::Pending,
    ensures
        session_step(job, state, event).0.position == Position::MainAwaitingContainer,
        session_step(job, state, event).0.main == PhaseResult::Pending,
        session_step(job, state, event).0.wait == wait_start(container_policy()),
        session_step(job, state, event).1 == list_action(job),
{
}

/// A walk that was cancelled stays cancelled: whatever is reported later,
/// nothing changes and nothing is asked for. And cancelling ends every walk.
pub proof fn lemma_cancelled_session_stays(
    job: Seq<char>,
    state: SessionLogState,
    event: SessionEvent,
)
    ensures
        position_phase(session_cancel(state).0.position) == None::<LogPhase>,
        session_cancel(state).1 == LogActionView::Finish,
        state.position == Position::Cancelled ==> session_step(job, state, event) == (
            state,
            LogActionView::Finish,
        ),
{
}

/// A wait of the initialization phase that runs out of attempts is such a
/// failure: the listing that uses up the last attempt without satisfying
/// the wait leads to the main phase.
pub proof fn lemma_exhausted_initialization_wait_runs_main(
    job: Seq<char>,
    state: SessionLogState,
    pods: Seq<PodSummary>,
)
    requires
        session_state_valid(state),
        state.position == Position::InitLocatingPod || state.position
            == Position::InitAwaitingContainer,
        wait_observe(state.target, state.policy, state.wait, pods).poll.status
            == PollStatus::TimedOut,
    ensures
        session_on_listing(job, state, pods).0.position == Position::MainAwaitingContainer,
        session_on_listing(job, state, pods).0.init == PhaseResult::NotReady(
            if state.position == Position::InitLocatingPod {
                ResourceKind::Pod
            } else {
                ResourceKind::Container
            },
            wait_observe(state.target, state.policy, state.wait, pods).last_phase,
        ),
        session_on_listing(job, state, pods).1 == list_action(job),
{
}

/// The walk through the two phases of one session's logs.
#[derive(Debug)]
pub struct SessionLogOrchestrator {
    job: String,
    position: Position,
    wait: ReadinessWait,
    pod: Option<String>,
    init: PhaseResult,
    main: PhaseResult,
}

impl View for SessionLogOrchestrator {
    type V = SessionLogState;

    closed spec fn view(&self) -> SessionLogState {
        SessionLogState {
            position: self.position,
            target: self.wait.spec_target(),
            policy: self.wait.policy(),
            wait: self.wait@,
            pod: match self.pod {
                Some(name) => Some(name@),
                None => None,
            },
            init: self.init,
            main: self.main,
        }
    }
}

impl SessionLogOrchestrator {
    /// The session whose logs are shown.
    pub closed spec fn job(&self) -> Seq<char> {
        self.job@
    }

    /// An orchestrator for the session `job`, before its first step.
    pub fn new(job: &str) -> (orchestrator: SessionLogOrchestrator)
        ensures
            orchestrator@ == session_start(job@),
            orchestrator.job() == job@,
    {
        let selector = session_selector(job);
        let wait = wait_for_any_pod(
            job,
            SESSION_NAMESPACE,
            selector.as_str(),
            pod_appearance_policy(),
        );
        SessionLogOrchestrator {
            job: job.to_owned(),
            position: Position::InitLocatingPod,
            wait,
            pod: None,
            init: PhaseResult::Pending,
            main: PhaseResult::Pending,
        }
    }

    /// Where the orchestrator stands.
    pub fn position(&self) -> (position: Position)
        ensures
            position == self@.position,
    {
        self.position
    }

    /// How the initialization phase ended, if it has.
    pub fn init_result(&self) -> (result: PhaseResult)
        ensures
            result == self@.init,
    {
        self.init
    }

    /// How the main phase ended, if it has.
    pub fn main_result(&self) -> (result: PhaseResult)
        ensures
            result == self@.main,
    {
        self.main
    }

    /// How many listings the wait that is running, or ran last, has judged.
    pub fn attempts(&self) -> (n: u32)
        ensures
            n == self@.wait.poll.evaluations,
    {
        self.wait.attempts()
    }

    fn list(&self) -> (action: LogAction)
        ensures
            action@ == list_action(self.job()),
    {
        LogAction::ListPods {
            namespace: String::from_str(SESSION_NAMESPACE),
            label_selector: session_selector(self.job.as_str()),
        }
    }

    fn retry(&self, delay_secs: u64) -> (action: LogAction)
        ensures
            action@ == (LogActionView::Retry {
                delay_secs,
                namespace: SESSION_NAMESPACE@,
                label_selector: session_label_selector(self.job()),
            }),
    {
        LogAction::Retry {
            delay_secs,
            namespace: String::from_str(SESSION_NAMESPACE),
            label_selector: session_selector(self.job.as_str()),
        }
    }

    fn follow(pod: &String, phase: LogPhase) -> (action: LogAction)
        ensures
            action@ == follow_action(pod@, phase),
    {
        LogAction::FollowLog(
            LogRequest {
                namespace: String::from_str(SESSION_NAMESPACE),
                pod: pod.clone(),
                container: String::from_str(
                    match phase {
                        LogPhase::Initialization => INIT_CONTAINER,
                        LogPhase::Main => MAIN_CONTAINER,
                    },
                ),
                follow: true,
            },
        )
    }

    /// The action to begin with, and the one to repeat when the caller has
    /// nothing to report.
    pub fn current_action(&self) -> (action: LogAction)
        ensures
            action@ == pending_action(self.job(), self@),
    {
        match self.position {
            Position::InitLocatingPod
            | Position::InitAwaitingContainer
            | Position::MainAwaitingContainer => self.list(),
            Position::InitDraining => match &self.pod {
                Some(pod) => Self::follow(pod, LogPhase::Initialization),
                None => LogAction::Finish,
            },
            Position::MainDraining => match &self.pod {
                Some(pod) => Self::follow(pod, LogPhase::Main),
                None => LogAction::Finish,
            },
            Position::Finished | Position::Cancelled => LogAction::Finish,
        }
    }

    fn end_phase(&mut self, phase: LogPhase, result: PhaseResult) -> (action: LogAction)
        requires
            position_phase(old(self)@.position) == Some(phase),
            result != PhaseResult::Pending,
        ensures
            (final(self)@, action@) == phase_over(old(self).job(), old(self)@, phase, result),
            final(self).job() == old(self).job(),
    {
        match phase {
            LogPhase::Initialization => {
                let selector = session_selector(self.job.as_str());
                let wait = wait_for_container_running_or_terminated(
                    self.job.as_str(),
                    SESSION_NAMESPACE,
                    selector.as_str(),
                    MAIN_CONTAINER,
                    container_start_policy(),
                );
                let action = self.list();
                self.init = result;
                self.pod = None;
                self.wait = wait;
                self.position = Position::MainAwaitingContainer;
                action
            },
            LogPhase::Main => {
                self.main = result;
                self.position = Position::Finished;
                LogAction::Finish
            },
        }
    }

    fn judge_container(&mut self, phase: LogPhase, pods: &Vec<PodSummary>) -> (action: LogAction)
        requires
            old(self)@.position == (match phase {
                LogPhase::Initialization => Position::InitAwaitingContainer,
                LogPhase::Main => Position::MainAwaitingContainer,
            }),
        ensures
            (final(self)@, action@) == container_stage(
                old(self).job(),
                old(self)@,
                phase,
                old(self)@.target,
                old(self)@.policy,
                old(self)@.wait,
                pods@,
            ),
            final(self).job() == old(self).job(),
    {
        let step = self.wait.observe(pods);
        match step {
            WaitStep::Ready { pod } => {
                let action = Self::follow(&pod, phase);
                self.pod = Some(pod);
                self.position = match phase {
                    LogPhase::Initialization => Position::InitDraining,
                    LogPhase::Main => Position::MainDraining,
                };
                action
            },
            WaitStep::Retry { delay_secs } => self.retry(delay_secs),
            WaitStep::Failed(error) => self.end_phase(
                phase,
                PhaseResult::NotReady(ResourceKind::Container, error.last_phase),
            ),
            WaitStep::Cancelled => self.end_phase(phase, PhaseResult::Cancelled),
            WaitStep::List => self.list(),
        }
    }

    /// Reports a listing of the session's pods.
    pub fn on_listing(&mut self, pods: &Vec<PodSummary>) -> (action: LogAction)
        ensures
            (final(self)@, action@) == session_on_listing(old(self).job(), old(self)@, pods@),
            final(self).job() == old(self).job(),
    {
        match self.position {
            Position::InitLocatingPod => {
                let step = self.wait.observe(pods);
                match step {
                    WaitStep::Ready { pod: _ } => {
                        let selector = session_selector(self.job.as_str());
                        let wait = wait_for_container_running_or_terminated(
                            self.job.as_str(),
                            SESSION_NAMESPACE,
                            selector.as_str(),
                            INIT_CONTAINER,
                            container_start_policy(),
                        );
                        self.wait = wait;
                        self.position = Position::InitAwaitingContainer;
                        self.judge_container(LogPhase::Initialization, pods)
                    },
                    WaitStep::Retry { delay_secs } => self.retry(delay_secs),
                    WaitStep::Failed(error) => self.end_phase(
                        LogPhase::Initialization,
                        PhaseResult::NotReady(ResourceKind::Pod, error.last_phase),
                    ),
                    WaitStep::Cancelled => self.end_phase(
                        LogPhase::Initialization,
                        PhaseResult::Cancelled,
                    ),
                    WaitStep::List => self.list(),
                }
            },
            Position::InitAwaitingContainer => self.judge_container(LogPhase::Initialization, pods),
            Position::MainAwaitingContainer => self.judge_container(LogPhase::Main, pods),
            Position::InitDraining
            | Position::MainDraining
            | Position::Finished
            | Position::Cancelled => self.current_action(),
        }
    }

    /// Reports that the pods could not be listed.
    pub fn on_listing_failed(&mut self) -> (action: LogAction)
        ensures
            (final(self)@, action@) == session_on_listing_failed(old(self).job(), old(self)@),
            final(self).job() == old(self).job(),
    {
        match self.position {
            Position::InitLocatingPod | Position::InitAwaitingContainer => self.end_phase(
                LogPhase::Initialization,
                PhaseResult::ListingFailed,
            ),
            Position::MainAwaitingContainer => self.end_phase(
                LogPhase::Main,
                PhaseResult::ListingFailed,
            ),
            Position::InitDraining
            | Position::MainDraining
            | Position::Finished
            | Position::Cancelled => self.current_action(),
        }
    }

    /// Reports that the followed log has ended, with the error that ended
    /// it, if one did.
    pub fn on_stream_ended(&mut self, error: Option<StreamError>) -> (action: LogAction)
        ensures
            (final(self)@, action@) == session_on_stream_end(
                old(self).job(),
                old(self)@,
                stream_result(error),
            ),
            final(self).job() == old(self).job(),
    {
        let result = match error {
            None => PhaseResult::Streamed,
            Some(e) => PhaseResult::StreamFailed(e),
        };
        self.finish_draining(result)
    }

    /// Reports that the log could not be opened.
    pub fn on_stream_refused(&mut self) -> (action: LogAction)
        ensures
            (final(self)@, action@) == session_on_stream_end(
                old(self).job(),
                old(self)@,
                PhaseResult::OpenFailed,
            ),
            final(self).job() == old(self).job(),
    {
        self.finish_draining(PhaseResult::OpenFailed)
    }

    fn finish_draining(&mut self, result: PhaseResult) -> (action: LogAction)
        requires
            result != PhaseResult::Pending,
        ensures
            (final(self)@, action@) == session_on_stream_end(old(self).job(), old(self)@, result),
            final(self).job() == old(self).job(),
    {
        match self.position {
            Position::InitDraining => self.end_phase(LogPhase::Initialization, result),
            Position::MainDraining => self.end_phase(LogPhase::Main, result),
            Position::InitLocatingPod
            | Position::InitAwaitingContainer
            | Position::MainAwaitingContainer
            | Position::Finished
            | Position::Cancelled => self.current_action(),
        }
    }

    /// Gives up: the phase in progress is recorded as cancelled and the
    /// walk ends. Whatever the caller was doing for the orchestrator, it
    /// need not be brought to an end.
    pub fn cancel(&mut self) -> (action: LogAction)
        ensures
            (final(self)@, action@) == session_cancel(old(self)@),
            final(self).job() == old(self).job(),
    {
        match self.position {
            Position::InitLocatingPod | Position::InitAwaitingContainer | Position::InitDraining => {
                let _ = self.wait.cancel();
                self.init = PhaseResult::Cancelled;
                self.position = Position::Cancelled;
            },
            Position::MainAwaitingContainer | Position::MainDraining => {
                let _ = self.wait.cancel();
                self.main = PhaseResult::Cancelled;
                self.position = Position::Cancelled;
            },
            Position::Finished | Position::Cancelled => {},
        }
        LogAction::Finish
    }
}

} // verus!
