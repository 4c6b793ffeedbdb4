use mesa::common::kubernetes::poller::{
    container_start_policy, pod_appearance_policy, PollPolicy, PollStatus, PollStep, Poller,
};

fn run(policy: PollPolicy, outcomes: &[bool]) -> (Poller, Vec<PollStep>) {
    let mut poller = Poller::new(policy);
    let mut steps = vec![poller.first_step()];
    for outcome in outcomes {
        steps.push(poller.observe(*outcome));
    }
    (poller, steps)
}

#[test]
fn poller_times_out_after_all_attempts() {
    let mut poller = Poller::new(PollPolicy { max_attempts: 3, delay_secs: 2 });
    assert_eq!(poller.first_step(), PollStep::Evaluate);
    assert_eq!(poller.observe(false), PollStep::Sleep(2));
    assert_eq!(poller.observe(false), PollStep::Sleep(2));
    assert_eq!(poller.observe(false), PollStep::TimedOut);
    assert_eq!(poller.evaluations(), 3);
    assert_eq!(poller.sleeps(), 2);
    assert_eq!(poller.status(), PollStatus::TimedOut);
    assert_eq!(poller.observe(true), PollStep::TimedOut);
    assert_eq!(poller.evaluations(), 3);
}

#[test]
fn poller_never_ready_evaluates_exactly_max_attempts() {
    for n in 1u32..8 {
        let policy = PollPolicy { max_attempts: n, delay_secs: 1 };
        let outcomes = vec![false; (n + 5) as usize];
        let (poller, steps) = run(policy, &outcomes);
        assert_eq!(poller.status(), PollStatus::TimedOut);
        assert_eq!(poller.evaluations(), n);
        assert_eq!(poller.sleeps(), n - 1);
        let sleeps = steps.iter().filter(|s| matches!(s, PollStep::Sleep(_))).count();
        assert_eq!(sleeps as u32, n - 1);
        assert_eq!(steps[n as usize], PollStep::TimedOut);
    }
}

#[test]
fn poller_ready_on_attempt_k_stops_there() {
    let n = 6u32;
    for k in 1u32..=n {
        let mut outcomes = vec![false; (k - 1) as usize];
        outcomes.push(true);
        outcomes.extend(vec![false, true, false]);
        let (poller, steps) = run(PollPolicy { max_attempts: n, delay_secs: 7 }, &outcomes);
        assert_eq!(poller.status(), PollStatus::Ready);
        assert_eq!(poller.evaluations(), k);
        assert_eq!(poller.sleeps(), k - 1);
        assert_eq!(steps[k as usize], PollStep::Ready);
        for step in &steps[(k as usize + 1)..] {
            assert_eq!(*step, PollStep::Ready);
        }
        for step in &steps[1..k as usize] {
            assert_eq!(*step, PollStep::Sleep(7));
        }
    }
}

#[test]
fn poller_ready_on_last_attempt_is_ready_not_timed_out() {
    let (poller, _) = run(PollPolicy { max_attempts: 2, delay_secs: 1 }, &[false, true]);
    assert_eq!(poller.status(), PollStatus::Ready);
    assert_eq!(poller.evaluations(), 2);
    assert_eq!(poller.sleeps(), 1);
}

#[test]
fn poller_without_attempts_is_timed_out_at_once() {
    let mut poller = Poller::new(PollPolicy { max_attempts: 0, delay_secs: 2 });
    assert_eq!(poller.first_step(), PollStep::TimedOut);
    assert_eq!(poller.status(), PollStatus::TimedOut);
    assert_eq!(poller.observe(true), PollStep::TimedOut);
    assert_eq!(poller.evaluations(), 0);
    assert_eq!(poller.sleeps(), 0);
}

#[test]
fn named_policies_have_their_constants() {
    assert_eq!(pod_appearance_policy(), PollPolicy { max_attempts: 4, delay_secs: 2 });
    assert_eq!(container_start_policy(), PollPolicy { max_attempts: 300, delay_secs: 2 });
    assert_eq!(Poller::new(pod_appearance_policy()).policy(), pod_appearance_policy());
}

#[test]
fn poller_cancelled_asks_for_nothing_more() {
    let mut poller = Poller::new(PollPolicy { max_attempts: 5, delay_secs: 2 });
    assert_eq!(poller.observe(false), PollStep::Sleep(2));
    assert_eq!(poller.cancel(), PollStep::Cancelled);
    assert_eq!(poller.status(), PollStatus::Cancelled);
    assert_eq!(poller.observe(true), PollStep::Cancelled);
    assert_eq!(poller.first_step(), PollStep::Cancelled);
    assert_eq!(poller.evaluations(), 1);
    assert_eq!(poller.sleeps(), 1);
    let mut ready = Poller::new(PollPolicy { max_attempts: 5, delay_secs: 2 });
    ready.observe(true);
    assert_eq!(ready.cancel(), PollStep::Ready);
    let mut timed_out = Poller::new(PollPolicy { max_attempts: 1, delay_secs: 2 });
    timed_out.observe(false);
    assert_eq!(timed_out.cancel(), PollStep::TimedOut);
}
