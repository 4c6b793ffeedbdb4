//! Opening an interactive shell in the container that a session
//! customizes, in two hops.
//!
//! The session's own pod knows where its target runs: a command run in its
//! operator container prints the target's service host. From that host name
//! the label of the target's job is derived, the job's pod is located in
//! the image namespace, and a shell is opened in its `sshd` container. The
//! bridge decides only; the caller lists pods, pauses, runs the commands,
//! and reports what happened. Between any two steps the caller may give up
//! with [`AttachBridge::cancel`].

use vstd::prelude::*;
use vstd::slice::slice_to_vec;
use vstd::string::StringExecFns;
use vstd::utf8::{decode_utf8, valid_utf8};
use crate::common::kubernetes::locator::{
    job_label_selector,
    job_selector,
    session_label_selector,
    session_selector,
    wait_cancel,
    wait_for_any_pod,
    wait_observe,
    wait_start,
    PodSummary,
    ReadinessWait,
    TargetView,
    WaitState,
    WaitStep,
    IMAGE_JOB_NAMESPACE,
    SESSION_NAMESPACE,
};
use crate::common::kubernetes::poller::{
    pod_appearance_policy,
    PollPolicy,
    PollStatus,
    POD_APPEARANCE_ATTEMPTS,
    POLL_DELAY_SECS,
};
use crate::common::text::{
    has_prefix,
    string_from_utf8,
    has_suffix,
    strip_prefix,
    strip_suffix,
    texts,
    trim,
    trimmed,
};

verus! {

/// The container of the session's pod in which the discovery command runs.
pub const OPERATOR_CONTAINER: &'static str = "cray-console-operator";

/// The container of the target's pod in which the shell is opened.
pub const SHELL_CONTAINER: &'static str = "sshd";

/// The shell that runs the discovery command.
pub const DISCOVERY_SHELL: &'static str = "sh";

/// The flag that makes the shell read the command from its argument.
pub const DISCOVERY_SHELL_FLAG: &'static str = "-c";

/// The discovery command: the first line of the generated inventory that
/// names an image service.
pub const DISCOVERY_SCRIPT: &'static str =
    "cat /inventory/hosts/01-cfs-generated.yaml | grep cray-ims- | head -n 1";

/// The program that is run interactively in the target.
pub const INTERACTIVE_SHELL: &'static str = "bash";

/// What precedes the host name in the discovery command's output.
pub const HOST_PREFIX: &'static str = "ansible_host: ";

/// The end of the host name of an image service.
pub const SERVICE_HOST_SUFFIX: &'static str = "-service.ims.svc.cluster.local";

/// The end of the name of the job that customizes an image.
pub const CUSTOMIZE_JOB_SUFFIX: &'static str = "-customize";

/// The two hops of the bridge.
#[derive(Clone, Copy, Debug, PartialEq, Eq, Structural)]
pub enum Hop {
    /// Finding the session's pod and asking it for the target.
    Discovery,
    /// Finding the target's pod and opening the shell in it.
    Attach,
}

/// What went wrong in a hop.
#[derive(Clone, Copy, Debug, PartialEq, Eq, Structural)]
pub enum ExecFailure {
    /// The pod did not appear within the attempts granted.
    PodNotReady,
    /// The pods could not be listed.
    ListingFailed,
    /// The command could not be run.
    CommandFailed,
    /// The discovery command printed something else than a service host.
    UnexpectedOutput,
    /// The caller gave up during the hop.
    Cancelled,
}

/// A hop of the bridge failed.
#[derive(Clone, Debug)]
pub struct ExecError {
    pub job: String,
    pub hop: Hop,
    pub failure: ExecFailure,
}

/// A command to run in a container.
#[derive(Clone, Debug)]
pub struct ExecRequest {
    pub namespace: String,
    pub pod: String,
    pub container: String,
    pub command: Vec<String>,
    pub stdin: bool,
    pub stdout: bool,
    pub stderr: bool,
    pub tty: bool,
}

/// An exec request as mathematical value.
pub struct ExecRequestView {
    pub namespace: Seq<char>,
    pub pod: Seq<char>,
    pub container: Seq<char>,
    pub command: Seq<Seq<char>>,
    pub stdin: bool,
    pub stdout: bool,
    pub stderr: bool,
    pub tty: bool,
}

impl View for ExecRequest {
    type V = ExecRequestView;

    open spec fn view(&self) -> ExecRequestView {
        ExecRequestView {
            namespace: self.namespace@,
            pod: self.pod@,
            container: self.container@,
            command: texts(self.command@),
            stdin: self.stdin,
            stdout: self.stdout,
            stderr: self.stderr,
            tty: self.tty,
        }
    }
}

/// The label of the job that customizes the target, derived from what the
/// discovery command printed: the host name between the host prefix and the
/// service suffix, with the job suffix in the place of the service suffix.
/// Nothing if the output, without surrounding white space, has another form.
pub open spec fn target_label_of(output: Seq<char>) -> Option<Seq<char>> {
    let line = trimmed(output);
    let host = line.subrange(HOST_PREFIX@.len() as int, line.len() as int);
    if has_prefix(line, HOST_PREFIX@) && has_suffix(host, SERVICE_HOST_SUFFIX@) {
        Some(host.subrange(0, host.len() - SERVICE_HOST_SUFFIX@.len()) + CUSTOMIZE_JOB_SUFFIX@)
    } else {
        None
    }
}

/// Derives the label of the target's job from the discovery command's
/// output.
pub fn derive_target_label(output: &str) -> (label: Option<String>)
    ensures
        label is Some == target_label_of(output@) is Some,
        label matches Some(text) ==> Some(text@) == target_label_of(output@),
{
    let line = trim(output);
    match strip_prefix(line, HOST_PREFIX) {
        Some(host) => match strip_suffix(host, SERVICE_HOST_SUFFIX) {
            Some(fragment) => Some(String::from_str(fragment).concat(CUSTOMIZE_JOB_SUFFIX)),
            None => None,
        },
        None => None,
    }
}

/// What a command printed, from the chunks in which its output arrived: the
/// texts of the chunks that are valid UTF-8, one after the other. A chunk
/// that is not valid is left out.
pub open spec fn output_text(chunks: Seq<Vec<u8>>) -> Seq<char>
    decreases chunks.len(),
{
    if chunks.len() == 0 {
        Seq::empty()
    } else {
        output_text(chunks.drop_last()) + (if valid_utf8(chunks.last()@) {
            decode_utf8(chunks.last()@)
        } else {
            Seq::empty()
        })
    }
}

/// Puts together what a command printed from the chunks in which its output
/// arrived.
pub fn collect_output(chunks: &Vec<Vec<u8>>) -> (text: String)
    ensures
        text@ == output_text(chunks@),
{
    let mut text = String::new();
    let mut i: usize = 0;
    assert(chunks@.subrange(0, 0) =~= Seq::empty());
    while i < chunks.len()
        invariant
            i <= chunks.len(),
            text@ == output_text(chunks@.subrange(0, i as int)),
        decreases chunks.len() - i,
    {
        assert(chunks@.subrange(0, i + 1).drop_last() =~= chunks@.subrange(0, i as int));
        assert(chunks@.subrange(0, i + 1).last() == chunks@[i as int]);
        match string_from_utf8(slice_to_vec(chunks[i].as_slice())) {
            Ok(piece) => {
                text.append(piece.as_str());
            },
            Err(_) => {
                assert(text@ + Seq::<char>::empty() =~= text@);
            },
        }
        i = i + 1;
    }
    assert(chunks@.subrange(0, i as int) =~= chunks@);
    text
}

/// The request that runs the discovery command in `pod`: output only, no
/// terminal.
pub open spec fn discovery_request(pod: Seq<char>) -> ExecRequestView {
    ExecRequestView {
        namespace: SESSION_NAMESPACE@,
        pod,
        container: OPERATOR_CONTAINER@,
        command: seq![DISCOVERY_SHELL@, DISCOVERY_SHELL_FLAG@, DISCOVERY_SCRIPT@],
        stdin: false,
        stdout: true,
        stderr: false,
        tty: false,
    }
}

/// The request that opens the interactive shell in `pod`: input and output
/// through a terminal. A terminal carries no separate error stream.
pub open spec fn shell_request(pod: Seq<char>) -> ExecRequestView {
    ExecRequestView {
        namespace: IMAGE_JOB_NAMESPACE@,
        pod,
        container: SHELL_CONTAINER@,
        command: seq![INTERACTIVE_SHELL@],
        stdin: true,
        stdout: true,
        stderr: false,
        tty: true,
    }
}

/// Builds the request that runs the discovery command in `pod`.
pub fn make_discovery_request(pod: &str) -> (request: ExecRequest)
    ensures
        request@ == discovery_request(pod@),
{
    let mut command: Vec<String> = Vec::new();
    command.push(String::from_str(DISCOVERY_SHELL));
    command.push(String::from_str(DISCOVERY_SHELL_FLAG));
    command.push(String::from_str(DISCOVERY_SCRIPT));
    let request = ExecRequest {
        namespace: String::from_str(SESSION_NAMESPACE),
        pod: String::from_str(pod),
        container: String::from_str(OPERATOR_CONTAINER),
        command,
        stdin: false,
        stdout: true,
        stderr: false,
        tty: false,
    };
    assert(request@.command =~= discovery_request(pod@).command);
    request
}

/// Builds the request that opens the interactive shell in `pod`.
pub fn make_shell_request(pod: &str) -> (request: ExecRequest)
    ensures
        request@ == shell_request(pod@),
{
    let mut command: Vec<String> = Vec::new();
    command.push(String::from_str(INTERACTIVE_SHELL));
    let request = ExecRequest {
        namespace: String::from_str(IMAGE_JOB_NAMESPACE),
        pod: String::from_str(pod),
        container: String::from_str(SHELL_CONTAINER),
        command,
        stdin: true,
        stdout: true,
        stderr: false,
        tty: true,
    };
    assert(request@.command =~= shell_request(pod@).command);
    request
}

/// Where the bridge stands. The positions are passed in the order in which
/// they are listed, up to `Attached`; `Failed` can follow any of the others.
#[derive(Clone, Copy, Debug, PartialEq, Eq, Structural)]
pub enum BridgePosition {
    LocatingOperator,
    Discovering,
    LocatingTarget,
    Attaching,
    Attached,
    Failed,
}

/// What the caller of the bridge does next.
#[derive(Clone, Debug)]
pub enum BridgeAction {
    /// List the pods under the selector, and report the listing.
    ListPods { namespace: String, label_selector: String },
    /// Pause, then list the pods under the selector, and report the listing.
    Retry { delay_secs: u64, namespace: String, label_selector: String },
    /// Run the command, and report its output or its failure.
    Exec(ExecRequest),
    /// Stop: the shell is open.
    Done,
    /// Stop: a hop failed.
    Fail(ExecError),
}

/// A bridge action as mathematical value.
pub enum BridgeActionView {
    ListPods { namespace: Seq<char>, label_selector: Seq<char> },
    Retry { delay_secs: u64, namespace: Seq<char>, label_selector: Seq<char> },
    Exec(ExecRequestView),
    Done,
    Fail { job: Seq<char>, hop: Hop, failure: ExecFailure },
}

impl View for BridgeAction {
    type V = BridgeActionView;

    open spec fn view(&self) -> BridgeActionView {
        match *self {
            BridgeAction::ListPods { namespace, label_selector } => BridgeActionView::ListPods {
                namespace: namespace@,
                label_selector: label_selector@,
            },
            BridgeAction::Retry {
                delay_secs,
                namespace,
                label_selector,
            } => BridgeActionView::Retry {
                delay_secs,
                namespace: namespace@,
                label_selector: label_selector@,
            },
            BridgeAction::Exec(request) => BridgeActionView::Exec(request@),
            BridgeAction::Done => BridgeActionView::Done,
            BridgeAction::Fail(error) => BridgeActionView::Fail {
                job: error.job@,
                hop: error.hop,
                failure: error.failure,
            },
        }
    }
}

/// The mathematical state of the bridge.
pub struct BridgeState {
    pub position: BridgePosition,
    /// What the wait that is running, or ran last, looks for.
    pub target: TargetView,
    /// The policy of that wait.
    pub policy: PollPolicy,
    /// The state of that wait.
    pub wait: WaitState,
    /// The pod in which the command of the current hop runs.
    pub pod: Option<Seq<char>>,
    /// The hop that failed and why, once one has.
    pub failure: Option<(Hop, ExecFailure)>,
}

/// The policy of both waits of the bridge.
pub open spec fn bridge_policy() -> PollPolicy {
    PollPolicy { max_attempts: POD_APPEARANCE_ATTEMPTS, delay_secs: POLL_DELAY_SECS }
}

/// The state in which the bridge starts.
pub open spec fn bridge_start(job: Seq<char>) -> BridgeState {
    BridgeState {
        position: BridgePosition::LocatingOperator,
        target: TargetView {
            namespace: SESSION_NAMESPACE@,
            label_selector: session_label_selector(job),
            container: None,
        },
        policy: bridge_policy(),
        wait: wait_start(bridge_policy()),
        pod: None,
        failure: None,
    }
}

/// The hop that a position belongs to.
pub open spec fn position_hop(position: BridgePosition) -> Hop {
    match position {
        BridgePosition::LocatingOperator | BridgePosition::Discovering => Hop::Discovery,
        _ => Hop::Attach,
    }
}

/// The failure of the hop in which the bridge stands.
pub open spec fn bridge_fail(job: Seq<char>, state: BridgeState, failure: ExecFailure) -> (
    BridgeState,
    BridgeActionView,
) {
    (
        BridgeState {
            position: BridgePosition::Failed,
            failure: Some((position_hop(state.position), failure)),
            ..state
        },
        BridgeActionView::Fail { job, hop: position_hop(state.position), failure },
    )
}

/// The action that a position asks for when nothing new was learnt.
pub open spec fn bridge_pending_action(job: Seq<char>, state: BridgeState) -> BridgeActionView {
    match state.position {
        BridgePosition::LocatingOperator | BridgePosition::LocatingTarget => {
            BridgeActionView::ListPods {
                namespace: state.target.namespace,
                label_selector: state.target.label_selector,
            }
        },
        BridgePosition::Discovering => match state.pod {
            Some(pod) => BridgeActionView::Exec(discovery_request(pod)),
            None => BridgeActionView::Done,
        },
        BridgePosition::Attaching => match state.pod {
            Some(pod) => BridgeActionView::Exec(shell_request(pod)),
            None => BridgeActionView::Done,
        },
        BridgePosition::Attached => BridgeActionView::Done,
        BridgePosition::Failed => match state.failure {
            Some((hop, failure)) => BridgeActionView::Fail { job, hop, failure },
            None => BridgeActionView::Done,
        },
    }
}

/// The step on a pod listing.
pub open spec fn bridge_on_listing(job: Seq<char>, state: BridgeState, pods: Seq<PodSummary>) -> (
    BridgeState,
    BridgeActionView,
) {
    if state.position == BridgePosition::LocatingOperator || state.position
        == BridgePosition::LocatingTarget {
        let after = wait_observe(state.target, state.policy, state.wait, pods);
        let judged = BridgeState { wait: after, ..state };
        match after.poll.status {
            PollStatus::Ready => {
                let found = BridgeState {
                    position: if state.position == BridgePosition::LocatingOperator {
                        BridgePosition::Discovering
                    } else {
                        BridgePosition::Attaching
                    },
                    pod: after.located,
                    ..judged
                };
                (found, bridge_pending_action(job, found))
            },
            PollStatus::Evaluating => (
                judged,
                BridgeActionView::Retry {
                    delay_secs: state.policy.delay_secs,
                    namespace: state.target.namespace,
                    label_selector: state.target.label_selector,
                },
            ),
            PollStatus::TimedOut => bridge_fail(job, judged, ExecFailure::PodNotReady),
            PollStatus::Cancelled => bridge_fail(job, judged, ExecFailure::Cancelled),
        }
    } else {
        (state, bridge_pending_action(job, state))
    }
}

/// The step on a listing that could not be obtained.
pub open spec fn bridge_on_listing_failed(job: Seq<char>, state: BridgeState) -> (
    BridgeState,
    BridgeActionView,
) {
    if state.position == BridgePosition::LocatingOperator || state.position
        == BridgePosition::LocatingTarget {
        bridge_fail(job, state, ExecFailure::ListingFailed)
    } else {
        (state, bridge_pending_action(job, state))
    }
}

/// The step on the output of the discovery command.
pub open spec fn bridge_on_discovered(job: Seq<char>, state: BridgeState, output: Seq<char>) -> (
    BridgeState,
    BridgeActionView,
) {
    if state.position == BridgePosition::Discovering {
        match target_label_of(output) {
            Some(label) => {
                let next = BridgeState {
                    position: BridgePosition::LocatingTarget,
                    target: TargetView {
                        namespace: IMAGE_JOB_NAMESPACE@,
                        label_selector: job_label_selector(label),
                        container: None,
                    },
                    policy: bridge_policy(),
                    wait: wait_start(bridge_policy()),
                    pod: None,
                    ..state
                };
                (next, bridge_pending_action(job, next))
            },
            None => bridge_fail(job, state, ExecFailure::UnexpectedOutput),
        }
    } else {
        (state, bridge_pending_action(job, state))
    }
}

/// The step on a command that could not be run.
pub open spec fn bridge_on_command_failed(job: Seq<char>, state: BridgeState) -> (
    BridgeState,
    BridgeActionView,
) {
    if state.position == BridgePosition::Discovering || state.position
        == BridgePosition::Attaching {
        bridge_fail(job, state, ExecFailure::CommandFailed)
    } else {
        (state, bridge_pending_action(job, state))
    }
}

/// The step on the shell being open.
pub open spec fn bridge_on_attached(job: Seq<char>, state: BridgeState) -> (
    BridgeState,
    BridgeActionView,
) {
    if state.position == BridgePosition::Attaching {
        (BridgeState { position: BridgePosition::Attached, ..state }, BridgeActionView::Done)
    } else {
        (state, bridge_pending_action(job, state))
    }
}

/// The step on the caller giving up: the hop in progress fails as
/// cancelled; a bridge that has attached or failed stays as it is.
pub open spec fn bridge_cancel(job: Seq<char>, state: BridgeState) -> (
    BridgeState,
    BridgeActionView,
) {
    if state.position == BridgePosition::Attached || state.position == BridgePosition::Failed {
        (state, bridge_pending_action(job, state))
    } else {
        bridge_fail(
            job,
            BridgeState { wait: wait_cancel(state.wait), ..state },
            ExecFailure::Cancelled,
        )
    }
}

/// The two-hop walk from a session to a shell in its target.
#[derive(Debug)]
pub struct AttachBridge {
    job: String,
    position: BridgePosition,
    wait: ReadinessWait,
    pod: Option<String>,
    failure: Option<(Hop, ExecFailure)>,
}

impl View for AttachBridge {
    type V = BridgeState;

    closed spec fn view(&self) -> BridgeState {
        BridgeState {
            position: self.position,
            target: self.wait.spec_target(),
            policy: self.wait.policy(),
            wait: self.wait@,
            pod: match self.pod {
                Some(name) => Some(name@),
                None => None,
            },
            failure: self.failure,
        }
    }
}

impl AttachBridge {
    /// The session whose target is looked for.
    pub closed spec fn job(&self) -> Seq<char> {
        self.job@
    }

    /// A bridge for the session `job`, before its first step.
    pub fn new(job: &str) -> (bridge: AttachBridge)
        ensures
            bridge@ == bridge_start(job@),
            bridge.job() == job@,
    {
        let selector = session_selector(job);
        let wait = wait_for_any_pod(
            job,
            SESSION_NAMESPACE,
            selector.as_str(),
            pod_appearance_policy(),
        );
        AttachBridge {
            job: job.to_owned(),
            position: BridgePosition::LocatingOperator,
            wait,
            pod: None,
            failure: None,
        }
    }

    /// Where the bridge stands.
    pub fn position(&self) -> (position: BridgePosition)
        ensures
            position == self@.position,
    {
        self.position
    }

    fn fail(&mut self, failure: ExecFailure) -> (action: BridgeAction)
        ensures
            (final(self)@, action@) == bridge_fail(old(self).job(), old(self)@, failure),
            final(self).job() == old(self).job(),
    {
        let hop = match self.position {
            BridgePosition::LocatingOperator | BridgePosition::Discovering => Hop::Discovery,
            _ => Hop::Attach,
        };
        self.failure = Some((hop, failure));
        self.position = BridgePosition::Failed;
        BridgeAction::Fail(ExecError { job: self.job.clone(), hop, failure })
    }

    /// The action to begin with, and the one to repeat when the caller has
    /// nothing to report.
    pub fn current_action(&self) -> (action: BridgeAction)
        ensures
            action@ == bridge_pending_action(self.job(), self@),
    {
        match self.position {
            BridgePosition::LocatingOperator | BridgePosition::LocatingTarget => {
                let target = self.wait.target();
                BridgeAction::ListPods {
                    namespace: target.namespace.clone(),
                    label_selector: target.label_selector.clone(),
                }
            },
            BridgePosition::Discovering => match &self.pod {
                Some(pod) => BridgeAction::Exec(make_discovery_request(pod.as_str())),
                None => BridgeAction::Done,
            },
            BridgePosition::Attaching => match &self.pod {
                Some(pod) => BridgeAction::Exec(make_shell_request(pod.as_str())),
                None => BridgeAction::Done,
            },
            BridgePosition::Attached => BridgeAction::Done,
            BridgePosition::Failed => match self.failure {
                Some((hop, failure)) => BridgeAction::Fail(
                    ExecError { job: self.job.clone(), hop, failure },
                ),
                None => BridgeAction::Done,
            },
        }
    }

    /// Reports a listing of the pods that the bridge asked for.
    pub fn on_listing(&mut self, pods: &Vec<PodSummary>) -> (action: BridgeAction)
        ensures
            (final(self)@, action@) == bridge_on_listing(old(self).job(), old(self)@, pods@),
            final(self).job() == old(self).job(),
    {
        match self.position {
            BridgePosition::LocatingOperator | BridgePosition::LocatingTarget => {
                let step = self.wait.observe(pods);
                match step {
                    WaitStep::Ready { pod } => {
                        self.pod = Some(pod);
                        self.position = match self.position {
                            BridgePosition::LocatingOperator => BridgePosition::Discovering,
                            _ => BridgePosition::Attaching,
                        };
                        self.current_action()
                    },
                    WaitStep::Retry { delay_secs } => {
                        let target = self.wait.target();
                        BridgeAction::Retry {
                            delay_secs,
                            namespace: target.namespace.clone(),
                            label_selector: target.label_selector.clone(),
                        }
                    },
                    WaitStep::Failed(_) => self.fail(ExecFailure::PodNotReady),
                    WaitStep::Cancelled => self.fail(ExecFailure::Cancelled),
                    WaitStep::List => self.current_action(),
                }
            },
            _ => self.current_action(),
        }
    }

    /// Reports that the pods could not be listed.
    pub fn on_listing_failed(&mut self) -> (action: BridgeAction)
        ensures
            (final(self)@, action@) == bridge_on_listing_failed(old(self).job(), old(self)@),
            final(self).job() == old(self).job(),
    {
        match self.position {
            BridgePosition::LocatingOperator | BridgePosition::LocatingTarget => self.fail(
                ExecFailure::ListingFailed,
            ),
            _ => self.current_action(),
        }
    }

    /// Reports what the discovery command printed.
    pub fn on_discovered(&mut self, output: &str) -> (action: BridgeAction)
        ensures
            (final(self)@, action@) == bridge_on_discovered(old(self).job(), old(self)@, output@),
            final(self).job() == old(self).job(),
    {
        match self.position {
            BridgePosition::Discovering => match derive_target_label(output) {
                Some(label) => {
                    let selector = job_selector(label.as_str());
                    let wait = wait_for_any_pod(
                        self.job.as_str(),
                        IMAGE_JOB_NAMESPACE,
                        selector.as_str(),
                        pod_appearance_policy(),
                    );
                    self.wait = wait;
                    self.pod = None;
                    self.position = BridgePosition::LocatingTarget;
                    self.current_action()
                },
                None => self.fail(ExecFailure::UnexpectedOutput),
            },
            _ => self.current_action(),
        }
    }

    /// Reports that the command of the current hop could not be run.
    pub fn on_command_failed(&mut self) -> (action: BridgeAction)
        ensures
            (final(self)@, action@) == bridge_on_command_failed(old(self).job(), old(self)@),
            final(self).job() == old(self).job(),
    {
        match self.position {
            BridgePosition::Discovering | BridgePosition::Attaching => self.fail(
                ExecFailure::CommandFailed,
            ),
            _ => self.current_action(),
        }
    }

    /// Gives up: the hop in progress fails as cancelled.
    pub fn cancel(&mut self) -> (action: BridgeAction)
        ensures
            (final(self)@, action@) == bridge_cancel(old(self).job(), old(self)@),
            final(self).job() == old(self).job(),
    {
        match self.position {
            BridgePosition::Attached | BridgePosition::Failed => self.current_action(),
            _ => {
                let _ = self.wait.cancel();
                self.fail(ExecFailure::Cancelled)
            },
        }
    }

    /// Reports that the shell is open.
    pub fn on_attached(&mut self) -> (action: BridgeAction)
        ensures
            (final(self)@, action@) == bridge_on_attached(old(self).job(), old(self)@),
            final(self).job() == old(self).job(),
    {
        match self.position {
            BridgePosition::Attaching => {
                self.position = BridgePosition::Attached;
                BridgeAction::Done
            },
            _ => self.current_action(),
        }
    }
}

} // verus!
