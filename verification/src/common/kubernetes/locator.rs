//! Finding the pod and container behind a job, and waiting for them.
//!
//! A pod is held here as a plain summary of what the cluster reported. An
//! empty listing and a container without a status entry are ordinary
//! observations: they mean "not ready yet", never an error.

use vstd::prelude::*;
use vstd::string::StringExecFns;
use crate::common::kubernetes::poller::{
    poll_cancel,
    poll_observe,
    poll_start,
    PollPolicy,
    PollState,
    PollStatus,
    PollStep,
    Poller,
};
use crate::common::text::str_eq;

verus! {

/// The namespace in which configuration sessions run.
pub const SESSION_NAMESPACE: &'static str = "services";

/// The label that a session's pods carry, up to the session's name.
pub const SESSION_LABEL_PREFIX: &'static str = "cfsession=";

/// The namespace in which image customization jobs run.
pub const IMAGE_JOB_NAMESPACE: &'static str = "ims";

/// The label that a job's pods carry, up to the job's name.
pub const JOB_LABEL_PREFIX: &'static str = "job-name=";

/// The field by which a config map is selected, up to the map's name.
pub const CONFIGMAP_NAME_FIELD: &'static str = "metadata.name=";

/// The field selector that finds the config map `name`.
pub fn configmap_selector(name: &str) -> (selector: String)
    ensures
        selector@ == CONFIGMAP_NAME_FIELD@ + name@,
{
    String::from_str(CONFIGMAP_NAME_FIELD).concat(name)
}

/// The label selector that finds the pods of the session `name`.
pub open spec fn session_label_selector(name: Seq<char>) -> Seq<char> {
    SESSION_LABEL_PREFIX@ + name
}

/// The label selector that finds the pods of the job `name`.
pub open spec fn job_label_selector(name: Seq<char>) -> Seq<char> {
    JOB_LABEL_PREFIX@ + name
}

/// The label selector that finds the pods of the session `name`.
pub fn session_selector(name: &str) -> (selector: String)
    ensures
        selector@ == session_label_selector(name@),
{
    String::from_str(SESSION_LABEL_PREFIX).concat(name)
}

/// The label selector that finds the pods of the job `name`.
pub fn job_selector(name: &str) -> (selector: String)
    ensures
        selector@ == job_label_selector(name@),
{
    String::from_str(JOB_LABEL_PREFIX).concat(name)
}

/// The state that the cluster reports for a container.
#[derive(Clone, Copy, Debug, PartialEq, Eq, Structural)]
pub enum ReportedState {
    Waiting,
    Running,
    Terminated,
}

/// The lifecycle phase of a container as seen from a pod listing.
#[derive(Clone, Copy, Debug, PartialEq, Eq, Structural)]
pub enum ContainerPhase {
    Waiting,
    Running,
    Terminated,
    /// The pod has no status entry for the container yet.
    UnknownAbsent,
}

/// One entry of a pod's per-container status list.
#[derive(Clone, Debug)]
pub struct ContainerStatusEntry {
    pub name: String,
    /// What the cluster reports; an entry without a state counts as waiting.
    pub state: Option<ReportedState>,
}

/// What a pod listing tells about one pod.
#[derive(Clone, Debug)]
pub struct PodSummary {
    pub name: String,
    pub init_container_statuses: Vec<ContainerStatusEntry>,
    pub container_statuses: Vec<ContainerStatusEntry>,
}

/// What a wait looks for: the pods that a label selector matches in a
/// namespace, and optionally one container in the first of them.
#[derive(Clone, Debug)]
pub struct PollTarget {
    pub namespace: String,
    pub label_selector: String,
    pub container: Option<String>,
}

/// A target as mathematical value.
pub struct TargetView {
    pub namespace: Seq<char>,
    pub label_selector: Seq<char>,
    pub container: Option<Seq<char>>,
}

impl View for PollTarget {
    type V = TargetView;

    open spec fn view(&self) -> TargetView {
        TargetView {
            namespace: self.namespace@,
            label_selector: self.label_selector@,
            container: match self.container {
                Some(name) => Some(name@),
                None => None,
            },
        }
    }
}

/// The kind of resource that a wait was for.
#[derive(Clone, Copy, Debug, PartialEq, Eq, Structural)]
pub enum ResourceKind {
    Pod,
    Container,
}

/// A pod or container did not become ready within the attempts granted.
#[derive(Clone, Debug)]
pub struct ResourceNotReady {
    pub job: String,
    pub namespace: String,
    pub kind: ResourceKind,
    /// The phase seen at the last attempt; `UnknownAbsent` where there was
    /// no pod or no status entry to look at.
    pub last_phase: ContainerPhase,
}

/// The phase that a status entry's reported state stands for.
pub open spec fn reported_phase(state: Option<ReportedState>) -> ContainerPhase {
    match state {
        Some(ReportedState::Running) => ContainerPhase::Running,
        Some(ReportedState::Terminated) => ContainerPhase::Terminated,
        Some(ReportedState::Waiting) | None => ContainerPhase::Waiting,
    }
}

/// The phase given by the first entry named `name` at or after index `from`;
/// `UnknownAbsent` if there is none.
pub open spec fn phase_from(entries: Seq<ContainerStatusEntry>, name: Seq<char>, from: int)
    -> ContainerPhase
    decreases entries.len() - from,
{
    if from < 0 || from >= entries.len() {
        ContainerPhase::UnknownAbsent
    } else if entries[from].name@ == name {
        reported_phase(entries[from].state)
    } else {
        phase_from(entries, name, from + 1)
    }
}

/// Some entry is named `name`.
pub open spec fn has_status(entries: Seq<ContainerStatusEntry>, name: Seq<char>) -> bool {
    exists|i: int| 0 <= i < entries.len() && (#[trigger] entries[i]).name@ == name
}

/// The phase of the container `name` in `pod`: init containers are looked up
/// first, then the others.
pub open spec fn container_phase_of(pod: PodSummary, name: Seq<char>) -> ContainerPhase {
    match phase_from(pod.init_container_statuses@, name, 0) {
        ContainerPhase::UnknownAbsent => phase_from(pod.container_statuses@, name, 0),
        phase => phase,
    }
}

/// A container in this phase has started: its log can be followed.
pub open spec fn phase_is_ready(phase: ContainerPhase) -> bool {
    phase == ContainerPhase::Running || phase == ContainerPhase::Terminated
}

/// The phase that a listing shows for a target: that of the target's
/// container in the first pod, and `UnknownAbsent` where no pod or no
/// container is in question.
pub open spec fn observed_phase(target: TargetView, pods: Seq<PodSummary>) -> ContainerPhase {
    match target.container {
        Some(name) if pods.len() > 0 => container_phase_of(pods[0], name),
        _ => ContainerPhase::UnknownAbsent,
    }
}

/// A listing satisfies a target when it holds a pod and, if the target names
/// a container, that container is running or terminated in the first pod.
pub open spec fn target_satisfied(target: TargetView, pods: Seq<PodSummary>) -> bool {
    pods.len() > 0 && (target.container is Some ==> phase_is_ready(observed_phase(target, pods)))
}

/// The kind of resource a target waits for.
pub open spec fn target_kind(target: TargetView) -> ResourceKind {
    if target.container is Some {
        ResourceKind::Container
    } else {
        ResourceKind::Pod
    }
}

fn phase_in_entries(entries: &Vec<ContainerStatusEntry>, name: &str) -> (phase: ContainerPhase)
    ensures
        phase == phase_from(entries@, name@, 0),
{
    let mut i: usize = 0;
    while i < entries.len()
        invariant
            i <= entries.len(),
            phase_from(entries@, name@, 0) == phase_from(entries@, name@, i as int),
        decreases entries.len() - i,
    {
        if str_eq(entries[i].name.as_str(), name) {
            return match entries[i].state {
                Some(ReportedState::Running) => ContainerPhase::Running,
                Some(ReportedState::Terminated) => ContainerPhase::Terminated,
                Some(ReportedState::Waiting) | None => ContainerPhase::Waiting,
            };
        }
        i = i + 1;
    }
    ContainerPhase::UnknownAbsent
}

/// The phase of the container named `container_name` in `pod`, read from the
/// pod's status entries.
pub fn container_phase(pod: &PodSummary, container_name: &str) -> (phase: ContainerPhase)
    ensures
        phase == container_phase_of(*pod, container_name@),
        phase == ContainerPhase::UnknownAbsent <==> !has_status(
            pod.init_container_statuses@,
            container_name@,
        ) && !has_status(pod.container_statuses@, container_name@),
{
    proof {
        lemma_phase_from_absent(pod.init_container_statuses@, container_name@, 0);
        lemma_phase_from_absent(pod.container_statuses@, container_name@, 0);
    }
    match phase_in_entries(&pod.init_container_statuses, container_name) {
        ContainerPhase::UnknownAbsent => phase_in_entries(&pod.container_statuses, container_name),
        phase => phase,
    }
}

/// Whether a container in `phase` has started.
pub fn is_ready_phase(phase: ContainerPhase) -> (ready: bool)
    ensures
        ready == phase_is_ready(phase),
{
    match phase {
        ContainerPhase::Running | ContainerPhase::Terminated => true,
        ContainerPhase::Waiting | ContainerPhase::UnknownAbsent => false,
    }
}

/// The phase that `pods` shows for `target`.
pub fn observe_phase(target: &PollTarget, pods: &Vec<PodSummary>) -> (phase: ContainerPhase)
    ensures
        phase == observed_phase(target@, pods@),
{
    match &target.container {
        Some(name) => {
            if pods.len() > 0 {
                container_phase(&pods[0], name.as_str())
            } else {
                ContainerPhase::UnknownAbsent
            }
        },
        None => ContainerPhase::UnknownAbsent,
    }
}

/// Whether `pods` satisfies `target`.
pub fn is_target_satisfied(target: &PollTarget, pods: &Vec<PodSummary>) -> (satisfied: bool)
    ensures
        satisfied == target_satisfied(target@, pods@),
{
    if pods.len() == 0 {
        false
    } else if target.container.is_some() {
        is_ready_phase(observe_phase(target, pods))
    } else {
        true
    }
}

/// `phase_from` answers `UnknownAbsent` exactly when no entry at or after
/// `from` has the name.
pub proof fn lemma_phase_from_absent(entries: Seq<ContainerStatusEntry>, name: Seq<char>, from: int)
    requires
        0 <= from,
    ensures
        phase_from(entries, name, from) == ContainerPhase::UnknownAbsent <==> forall|i: int|
            from <= i < entries.len() ==> (#[trigger] entries[i]).name@ != name,
        from == 0 ==> (phase_from(entries, name, from) == ContainerPhase::UnknownAbsent
            <==> !has_status(entries, name)),
    decreases entries.len() - from,
{
    if from < entries.len() {
        lemma_phase_from_absent(entries, name, from + 1);
        if entries[from].name@ == name {
            assert(reported_phase(entries[from].state) != ContainerPhase::UnknownAbsent);
        }
    }
}

/// A container without a status entry is in phase `UnknownAbsent`, and a
/// wait for it is as little satisfied as by a container that is waiting.
pub proof fn lemma_absent_status_is_not_ready(target: TargetView, pods: Seq<PodSummary>)
    requires
        target.container is Some,
        pods.len() > 0,
        !has_status(pods[0].init_container_statuses@, target.container->0),
        !has_status(pods[0].container_statuses@, target.container->0),
    ensures
        container_phase_of(pods[0], target.container->0) == ContainerPhase::UnknownAbsent,
        !target_satisfied(target, pods),
        !phase_is_ready(ContainerPhase::Waiting),
{
    lemma_phase_from_absent(pods[0].init_container_statuses@, target.container->0, 0);
    lemma_phase_from_absent(pods[0].container_statuses@, target.container->0, 0);
}

/// The mathematical state of a wait.
pub struct WaitState {
    pub poll: PollState,
    /// The name of the pod that satisfied the wait, once it has.
    pub located: Option<Seq<char>>,
    /// The phase seen at the last attempt.
    pub last_phase: ContainerPhase,
}

/// The state of a wait before anything was listed.
pub open spec fn wait_start(policy: PollPolicy) -> WaitState {
    WaitState {
        poll: poll_start(policy),
        located: None,
        last_phase: ContainerPhase::UnknownAbsent,
    }
}

/// The state of a wait after one more listing was reported. A finished wait
/// stays as it is.
pub open spec fn wait_observe(
    target: TargetView,
    policy: PollPolicy,
    state: WaitState,
    pods: Seq<PodSummary>,
) -> WaitState {
    if state.poll.status != PollStatus::Evaluating {
        state
    } else {
        let poll = poll_observe(policy, state.poll, target_satisfied(target, pods));
        WaitState {
            poll,
            located: if poll.status == PollStatus::Ready {
                Some(pods[0].name@)
            } else {
                None
            },
            last_phase: observed_phase(target, pods),
        }
    }
}

/// The state of a wait after the caller gave up. A finished wait stays as
/// it is.
pub open spec fn wait_cancel(state: WaitState) -> WaitState {
    WaitState { poll: poll_cancel(state.poll), ..state }
}

/// What the caller of a wait does next.
#[derive(Clone, Debug)]
pub enum WaitStep {
    /// List the pods of the target and report them.
    List,
    /// Pause for so many seconds, then list the pods again and report them.
    Retry { delay_secs: u64 },
    /// Stop: the pod of this name satisfies the target.
    Ready { pod: String },
    /// Stop: the attempts are used up.
    Failed(ResourceNotReady),
    /// Stop: the wait was cancelled.
    Cancelled,
}

/// A bounded wait for a pod, or for a container in it, to become ready.
#[derive(Debug)]
pub struct ReadinessWait {
    job: String,
    target: PollTarget,
    poller: Poller,
    located: Option<String>,
    last_phase: ContainerPhase,
}

impl View for ReadinessWait {
    type V = WaitState;

    closed spec fn view(&self) -> WaitState {
        WaitState {
            poll: self.poller@,
            located: match self.located {
                Some(name) if self.poller@.status == PollStatus::Ready => Some(name@),
                _ => None,
            },
            last_phase: self.last_phase,
        }
    }
}

/// The step that a wait in `state` asks for after a listing was reported.
pub open spec fn wait_step_matches(
    job: Seq<char>,
    target: TargetView,
    policy: PollPolicy,
    state: WaitState,
    step: WaitStep,
) -> bool {
    match step {
        WaitStep::List => false,
        WaitStep::Retry { delay_secs } => state.poll.status == PollStatus::Evaluating && delay_secs
            == policy.delay_secs,
        WaitStep::Ready { pod } => state.poll.status == PollStatus::Ready && state.located == Some(
            pod@,
        ),
        WaitStep::Failed(error) => {
            &&& state.poll.status == PollStatus::TimedOut
            &&& error.job@ == job
            &&& error.namespace@ == target.namespace
            &&& error.kind == target_kind(target)
            &&& error.last_phase == state.last_phase
        },
        WaitStep::Cancelled => state.poll.status == PollStatus::Cancelled,
    }
}

impl ReadinessWait {
    /// The job on whose behalf the wait runs.
    pub closed spec fn job(&self) -> Seq<char> {
        self.job@
    }

    /// What the wait looks for.
    pub closed spec fn spec_target(&self) -> TargetView {
        self.target@
    }

    /// The policy that bounds the wait.
    pub closed spec fn policy(&self) -> PollPolicy {
        self.poller.spec_policy()
    }

    #[verifier::type_invariant]
    closed spec fn inv(&self) -> bool {
        self.poller@.status == PollStatus::Ready ==> self.located is Some
    }

    fn new(job: &str, target: PollTarget, policy: PollPolicy) -> (wait: ReadinessWait)
        ensures
            wait@ == wait_start(policy),
            wait.job() == job@,
            wait.spec_target() == target@,
            wait.policy() == policy,
    {
        let poller = Poller::new(policy);
        assert(poller@.status != PollStatus::Ready);
        ReadinessWait {
            job: job.to_owned(),
            target,
            poller,
            located: None,
            last_phase: ContainerPhase::UnknownAbsent,
        }
    }

    /// What the wait looks for.
    pub fn target(&self) -> (target: &PollTarget)
        ensures
            target@ == self.spec_target(),
    {
        &self.target
    }

    /// The policy that bounds the wait.
    pub fn poll_policy(&self) -> (policy: PollPolicy)
        ensures
            policy == self.policy(),
    {
        self.poller.policy()
    }

    /// How many listings the wait has judged.
    pub fn attempts(&self) -> (n: u32)
        ensures
            n == self@.poll.evaluations,
    {
        self.poller.evaluations()
    }

    /// How many pauses the wait has asked for.
    pub fn pauses(&self) -> (n: u32)
        ensures
            n == self@.poll.sleeps,
    {
        self.poller.sleeps()
    }

    /// Where the wait stands.
    pub fn status(&self) -> (status: PollStatus)
        ensures
            status == self@.poll.status,
    {
        self.poller.status()
    }

    fn not_ready(&self) -> (error: ResourceNotReady)
        ensures
            error.job@ == self.job(),
            error.namespace@ == self.spec_target().namespace,
            error.kind == target_kind(self.spec_target()),
            error.last_phase == self@.last_phase,
    {
        ResourceNotReady {
            job: self.job.clone(),
            namespace: self.target.namespace.clone(),
            kind: if self.target.container.is_some() {
                ResourceKind::Container
            } else {
                ResourceKind::Pod
            },
            last_phase: self.last_phase,
        }
    }

    /// The first step: list the pods, unless the policy grants no attempt.
    pub fn start(&self) -> (step: WaitStep)
        ensures
            self@.poll.status == PollStatus::Evaluating ==> step is List,
            self@.poll.status != PollStatus::Evaluating ==> wait_step_matches(
                self.job(),
                self.spec_target(),
                self.policy(),
                self@,
                step,
            ),
    {
        proof {
            use_type_invariant(self);
        }
        match self.poller.status() {
            PollStatus::Evaluating => WaitStep::List,
            PollStatus::Ready => match &self.located {
                Some(name) => WaitStep::Ready { pod: name.clone() },
                None => WaitStep::List,
            },
            PollStatus::TimedOut => WaitStep::Failed(self.not_ready()),
            PollStatus::Cancelled => WaitStep::Cancelled,
        }
    }

    /// Gives up: a wait that has not ended is cancelled.
    pub fn cancel(&mut self) -> (step: WaitStep)
        ensures
            final(self)@ == wait_cancel(old(self)@),
            final(self).job() == old(self).job(),
            final(self).spec_target() == old(self).spec_target(),
            final(self).policy() == old(self).policy(),
            wait_step_matches(
                old(self).job(),
                old(self).spec_target(),
                old(self).policy(),
                final(self)@,
                step,
            ),
    {
        proof {
            use_type_invariant(&*self);
        }
        let mut poller = self.poller;
        let _ = poller.cancel();
        self.poller = poller;
        self.start()
    }

    /// Reports one listing of the target's pods and says what to do next.
    pub fn observe(&mut self, pods: &Vec<PodSummary>) -> (step: WaitStep)
        ensures
            final(self)@ == wait_observe(
                old(self).spec_target(),
                old(self).policy(),
                old(self)@,
                pods@,
            ),
            final(self).job() == old(self).job(),
            final(self).spec_target() == old(self).spec_target(),
            final(self).policy() == old(self).policy(),
            wait_step_matches(
                old(self).job(),
                old(self).spec_target(),
                old(self).policy(),
                final(self)@,
                step,
            ),
    {
        proof {
            use_type_invariant(&*self);
        }
        match self.poller.status() {
            PollStatus::Evaluating => {
                let satisfied = is_target_satisfied(&self.target, pods);
                let last_phase = observe_phase(&self.target, pods);
                let mut poller = self.poller;
                let after = poller.observe(satisfied);
                self.last_phase = last_phase;
                match after {
                    PollStep::Ready => {
                        let name = pods[0].name.clone();
                        self.located = Some(name.clone());
                        self.poller = poller;
                        WaitStep::Ready { pod: name }
                    },
                    PollStep::TimedOut => {
                        self.poller = poller;
                        WaitStep::Failed(self.not_ready())
                    },
                    PollStep::Sleep(delay_secs) => {
                        self.poller = poller;
                        WaitStep::Retry { delay_secs }
                    },
                    PollStep::Evaluate => WaitStep::List,
                    PollStep::Cancelled => WaitStep::Cancelled,
                }
            },
            PollStatus::Ready => match &self.located {
                Some(name) => WaitStep::Ready { pod: name.clone() },
                None => WaitStep::List,
            },
            PollStatus::TimedOut => WaitStep::Failed(self.not_ready()),
            PollStatus::Cancelled => WaitStep::Cancelled,
        }
    }
}

/// A wait for any pod of `job` to appear under `label_selector` in
/// `namespace`.
pub fn wait_for_any_pod(job: &str, namespace: &str, label_selector: &str, policy: PollPolicy) -> (wait:
    ReadinessWait)
    ensures
        wait@ == wait_start(policy),
        wait.job() == job@,
        wait.policy() == policy,
        wait.spec_target() == (TargetView {
            namespace: namespace@,
            label_selector: label_selector@,
            container: None,
        }),
{
    let target = PollTarget {
        namespace: namespace.to_owned(),
        label_selector: label_selector.to_owned(),
        container: None,
    };
    ReadinessWait::new(job, target, policy)
}

/// A wait for the container `container_name`, in the first pod of `job`
/// under `label_selector` in `namespace`, to be running or terminated.
pub fn wait_for_container_running_or_terminated(
    job: &str,
    namespace: &str,
    label_selector: &str,
    container_name: &str,
    policy: PollPolicy,
) -> (wait: ReadinessWait)
    ensures
        wait@ == wait_start(policy),
        wait.job() == job@,
        wait.policy() == policy,
        wait.spec_target() == (TargetView {
            namespace: namespace@,
            label_selector: label_selector@,
            container: Some(container_name@),
        }),
{
    let target = PollTarget {
        namespace: namespace.to_owned(),
        label_selector: label_selector.to_owned(),
        container: Some(container_name.to_owned()),
    };
    ReadinessWait::new(job, target, policy)
}

} // verus!
