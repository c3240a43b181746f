use hedge::call::{Action, CallState, Event, Outcome, Side, TimerOutcome};
use hedge::rotating::{Clear, Rotating, Size};
use hedge::{elapsed_ms, hedge_deadline, MIN_SAMPLES};

/// A latency buffer that keeps every sample.
struct Samples {
    values: Vec<u64>,
}

impl Samples {
    fn empty() -> Samples {
        Samples { values: Vec::new() }
    }

    fn median(&self) -> u64 {
        let mut v = self.values.clone();
        v.sort();
        v[(v.len() - 1) / 2]
    }
}

impl Clear for Samples {
    fn clear(&mut self) {
        self.values.clear();
    }
}

impl Size for Samples {
    fn size(&self) -> u64 {
        self.values.len() as u64
    }
}

fn drive(state: &mut CallState, events: &[Event]) -> Vec<Action> {
    let mut actions = Vec::new();
    for ev in events {
        assert!(state.accepts(*ev), "unexpected event {:?} in {:?}", ev, state);
        actions.push(state.on_event(*ev));
    }
    actions
}

/// One poll in which the original is pending and the delay has not fired.
const WAITING: [Event; 3] = [
    Event::Poll,
    Event::Original(Outcome::Pending),
    Event::Delay(TimerOutcome::Pending),
];

fn tracker_with(samples: u64, value: u64) -> Rotating<Samples> {
    let mut t = Rotating::new(60_000, 0, Samples::empty);
    for i in 0..samples {
        t.write(1 + i).values.push(value);
    }
    t
}

#[test]
fn scenario_a_hedge_answers_first() {
    let mut tracker = tracker_with(10, 100);
    let start: u64 = 60_000;
    let (n, buf) = tracker.threshold(start, MIN_SAMPLES);
    assert_eq!(n, 10);
    let threshold = buf.map(|b| b.median());
    assert_eq!(threshold, Some(100));
    assert_eq!(hedge_deadline(start, threshold), Some(60_100));

    let mut call = CallState::new(true, true);
    assert_eq!(drive(&mut call, &WAITING)[2], Action::Yield);
    let at_deadline = drive(
        &mut call,
        &[
            Event::Poll,
            Event::Original(Outcome::Pending),
            Event::Delay(TimerOutcome::Fired),
            Event::Readiness(Outcome::Ready),
            Event::Policy(true),
            Event::Issued(true),
            Event::Original(Outcome::Pending),
            Event::Hedge(Outcome::Pending),
        ],
    );
    assert_eq!(
        at_deadline,
        vec![
            Action::PollOriginal,
            Action::PollDelay,
            Action::PollReadiness,
            Action::AskPolicy,
            Action::IssueHedge,
            Action::PollOriginal,
            Action::PollHedge,
            Action::Yield,
        ]
    );
    let at_finish = drive(
        &mut call,
        &[
            Event::Poll,
            Event::Original(Outcome::Pending),
            Event::Hedge(Outcome::Ready),
        ],
    );
    assert_eq!(at_finish[2], Action::Complete(Side::Hedge));
    assert!(call.is_done());
    assert!(!call.accepts(Event::Poll));
    assert!(!call.accepts(Event::Original(Outcome::Ready)));

    let sample = elapsed_ms(start, 60_120);
    assert_eq!(sample, 120);
    tracker.write(60_120).values.push(sample);
    assert_eq!(tracker.write(60_120).values, vec![120]);
}

#[test]
fn scenario_b_too_few_samples_never_hedges() {
    let mut tracker = tracker_with(5, 100);
    let start: u64 = 60_000;
    let (n, buf) = tracker.threshold(start, MIN_SAMPLES);
    assert_eq!(n, 5);
    assert!(buf.is_none());
    assert_eq!(hedge_deadline(start, None), None);

    let mut call = CallState::new(true, false);
    for _ in 0..50 {
        let acts = drive(&mut call, &[Event::Poll, Event::Original(Outcome::Pending)]);
        assert_eq!(acts, vec![Action::PollOriginal, Action::Yield]);
    }
    let acts = drive(&mut call, &[Event::Poll, Event::Original(Outcome::Ready)]);
    assert_eq!(acts[1], Action::Complete(Side::Original));
    assert_eq!(elapsed_ms(start, start + 5_000), 5_000);
}

#[test]
fn scenario_c_no_duplicate_never_hedges() {
    let mut call = CallState::new(false, true);
    let acts = drive(
        &mut call,
        &[
            Event::Poll,
            Event::Original(Outcome::Pending),
            Event::Delay(TimerOutcome::Fired),
            Event::Readiness(Outcome::Ready),
        ],
    );
    assert_eq!(acts[3], Action::Yield);
    for _ in 0..10 {
        let acts = drive(
            &mut call,
            &[
                Event::Poll,
                Event::Original(Outcome::Pending),
                Event::Readiness(Outcome::Ready),
            ],
        );
        assert_eq!(acts, vec![Action::PollOriginal, Action::PollReadiness, Action::Yield]);
    }
    let acts = drive(&mut call, &[Event::Poll, Event::Original(Outcome::Failed)]);
    assert_eq!(acts[1], Action::Complete(Side::Original));
}

#[test]
fn original_answer_ends_the_race() {
    let mut call = CallState::new(true, true);
    drive(
        &mut call,
        &[
            Event::Poll,
            Event::Original(Outcome::Pending),
            Event::Delay(TimerOutcome::Fired),
            Event::Readiness(Outcome::Ready),
            Event::Policy(true),
            Event::Issued(false),
            Event::Original(Outcome::Pending),
            Event::Hedge(Outcome::Pending),
        ],
    );
    let acts = drive(&mut call, &[Event::Poll, Event::Original(Outcome::Ready)]);
    assert_eq!(acts[1], Action::Complete(Side::Original));
    assert!(call.is_done());
    assert!(!call.accepts(Event::Hedge(Outcome::Ready)));
}

#[test]
fn hedge_error_is_the_result_when_first() {
    let mut call = CallState::new(true, true);
    let acts = drive(
        &mut call,
        &[
            Event::Poll,
            Event::Original(Outcome::Pending),
            Event::Delay(TimerOutcome::Fired),
            Event::Readiness(Outcome::Ready),
            Event::Policy(true),
            Event::Issued(true),
            Event::Original(Outcome::Pending),
            Event::Hedge(Outcome::Failed),
        ],
    );
    assert_eq!(acts[7], Action::Complete(Side::Hedge));
    assert!(call.is_done());
}

#[test]
fn backpressure_defers_the_hedge() {
    let mut call = CallState::new(true, true);
    let acts = drive(
        &mut call,
        &[
            Event::Poll,
            Event::Original(Outcome::Pending),
            Event::Delay(TimerOutcome::Fired),
            Event::Readiness(Outcome::Pending),
        ],
    );
    assert_eq!(acts[3], Action::Yield);
    for _ in 0..10 {
        let acts = drive(
            &mut call,
            &[
                Event::Poll,
                Event::Original(Outcome::Pending),
                Event::Readiness(Outcome::Pending),
            ],
        );
        assert_eq!(acts, vec![Action::PollOriginal, Action::PollReadiness, Action::Yield]);
    }
    let acts = drive(&mut call, &[Event::Poll, Event::Original(Outcome::Ready)]);
    assert_eq!(acts[1], Action::Complete(Side::Original));
}

#[test]
fn readiness_error_ends_the_call() {
    let mut call = CallState::new(true, true);
    let acts = drive(
        &mut call,
        &[
            Event::Poll,
            Event::Original(Outcome::Pending),
            Event::Delay(TimerOutcome::Fired),
            Event::Readiness(Outcome::Failed),
        ],
    );
    assert_eq!(acts[3], Action::FailReadiness);
    assert!(call.is_done());
}

#[test]
fn denied_retry_is_asked_again_every_poll() {
    let mut call = CallState::new(true, true);
    let acts = drive(
        &mut call,
        &[
            Event::Poll,
            Event::Original(Outcome::Pending),
            Event::Delay(TimerOutcome::Fired),
            Event::Readiness(Outcome::Ready),
            Event::Policy(false),
        ],
    );
    assert_eq!(acts[4], Action::Yield);
    for _ in 0..20 {
        let acts = drive(
            &mut call,
            &[
                Event::Poll,
                Event::Original(Outcome::Pending),
                Event::Readiness(Outcome::Ready),
                Event::Policy(false),
            ],
        );
        assert_eq!(
            acts,
            vec![Action::PollOriginal, Action::PollReadiness, Action::AskPolicy, Action::Yield]
        );
    }
    let acts = drive(
        &mut call,
        &[
            Event::Poll,
            Event::Original(Outcome::Pending),
            Event::Readiness(Outcome::Ready),
            Event::Policy(true),
        ],
    );
    assert_eq!(acts[3], Action::IssueHedge);
}

#[test]
fn timer_failure_never_hedges() {
    let mut call = CallState::new(true, true);
    let acts = drive(
        &mut call,
        &[
            Event::Poll,
            Event::Original(Outcome::Pending),
            Event::Delay(TimerOutcome::Failed),
        ],
    );
    assert_eq!(acts[2], Action::Yield);
    for _ in 0..10 {
        let acts = drive(&mut call, &[Event::Poll, Event::Original(Outcome::Pending)]);
        assert_eq!(acts, vec![Action::PollOriginal, Action::Yield]);
    }
}

#[test]
fn rotation_retires_old_samples() {
    let mut tracker = Rotating::new(1_000, 0, Samples::empty);
    for i in 0..10 {
        tracker.write(10 + i).values.push(500);
    }
    // Nothing is readable until the first window closes.
    assert_eq!(tracker.threshold(999, MIN_SAMPLES).0, 0);
    let (n, buf) = tracker.threshold(1_000, MIN_SAMPLES);
    assert_eq!(n, 10);
    assert_eq!(buf.map(|b| b.median()), Some(500));
    // The buffer that now takes writes was cleared at the swap.
    assert_eq!(tracker.write(1_001).size(), 0);
    for i in 0..10 {
        tracker.write(1_100 + i).values.push(40);
    }
    assert_eq!(tracker.read(1_999).median(), 500);
    let (n, buf) = tracker.threshold(2_000, MIN_SAMPLES);
    assert_eq!(n, 10);
    assert_eq!(buf.map(|b| b.median()), Some(40));
    assert_eq!(tracker.read(2_001).values, vec![40; 10]);
    assert_eq!(tracker.write(2_001).size(), 0);
}

#[test]
fn rotation_waits_for_a_full_period() {
    let mut tracker = tracker_with(12, 7);
    assert_eq!(tracker.read(59_999).size(), 0);
    assert_eq!(tracker.write(59_999).size(), 12);
    assert_eq!(tracker.read(60_000).size(), 12);
    // An idle window leaves an empty read side after the next rotation.
    assert_eq!(tracker.threshold(120_000, MIN_SAMPLES).0, 0);
}

#[test]
fn elapsed_time_never_goes_negative() {
    assert_eq!(elapsed_ms(100, 350), 250);
    assert_eq!(elapsed_ms(100, 100), 0);
    assert_eq!(elapsed_ms(400, 100), 0);
}

#[test]
fn deadline_adds_threshold_and_saturates() {
    assert_eq!(hedge_deadline(1_000, Some(250)), Some(1_250));
    assert_eq!(hedge_deadline(1_000, Some(0)), Some(1_000));
    assert_eq!(hedge_deadline(u64::MAX - 1, Some(5)), Some(u64::MAX));
    assert_eq!(hedge_deadline(0, None), None);
}

#[test]
fn new_call_waits_for_a_poll() {
    let call = CallState::new(true, true);
    assert!(call.accepts(Event::Poll));
    assert!(!call.accepts(Event::Original(Outcome::Pending)));
    assert!(!call.is_done());
}

#[test]
fn recording_at_rotation_leaves_one_sample() {
    let mut tracker = tracker_with(10, 30);
    let start: u64 = 59_900;
    let sample = elapsed_ms(start, 60_050);
    assert_eq!(sample, 150);
    // This write is the access that rotates: the old window moves to the read
    // side and the new write buffer starts empty.
    tracker.write(60_050).values.push(sample);
    assert_eq!(tracker.write(60_051).values, vec![150]);
    assert_eq!(tracker.read(60_052).values, vec![30; 10]);
}

#[test]
fn no_threshold_before_first_rotation() {
    let mut tracker = tracker_with(25, 80);
    for now in [0u64, 100, 30_000, 59_999] {
        let (n, buf) = tracker.threshold(now, MIN_SAMPLES);
        assert_eq!(n, 0);
        assert!(buf.is_none());
        assert_eq!(hedge_deadline(now, buf.map(|b| b.median())), None);
    }
    let (n, buf) = tracker.threshold(60_000, MIN_SAMPLES);
    assert_eq!(n, 25);
    assert_eq!(hedge_deadline(60_000, buf.map(|b| b.median())), Some(60_080));
}
