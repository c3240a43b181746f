//! The decisions of one hedged call, as a transition function.  The driver
//! performs each [`Action`] on the real operations and reports what it saw as
//! the next [`Event`].
use vstd::prelude::*;

verus! {

/// What polling an operation (or the handler's readiness) gave.
#[derive(Clone, Copy, Debug, PartialEq, Eq, Structural)]
pub enum Outcome {
    Pending,
    Ready,
    Failed,
}

/// What polling the hedge delay gave.
#[derive(Clone, Copy, Debug, PartialEq, Eq, Structural)]
pub enum TimerOutcome {
    Pending,
    Fired,
    Failed,
}

/// Where the hedge delay stands.
#[derive(Clone, Copy, Debug, PartialEq, Eq, Structural)]
pub enum DelayState {
    /// No delay was built: the tracker had too few samples.
    Absent,
    /// The delay is waiting for its deadline.
    Armed,
    /// The deadline has passed; no timing gate is left.
    Fired,
    /// The timer failed; the call is never hedged.
    Failed,
}

/// Which attempt answered the call.
#[derive(Clone, Copy, Debug, PartialEq, Eq, Structural)]
pub enum Side {
    Original,
    Hedge,
}

/// What the state machine waits to hear about next.
#[derive(Clone, Copy, Debug, PartialEq, Eq, Structural)]
pub enum Stage {
    /// Between polls of the call.
    Idle,
    Original,
    Hedge,
    Delay,
    Readiness,
    Policy,
    Issue,
    /// The call has delivered its result.
    Done,
}

/// What the driver observed after performing the last action.
#[derive(Clone, Copy, Debug, PartialEq, Eq, Structural)]
pub enum Event {
    /// The call itself is polled.
    Poll,
    Original(Outcome),
    Hedge(Outcome),
    Delay(TimerOutcome),
    Readiness(Outcome),
    /// The policy's answer on retrying the retained duplicate.
    Policy(bool),
    /// The hedge was issued; tells whether the policy gave a fresh duplicate.
    Issued(bool),
}

/// What the driver does next.
#[derive(Clone, Copy, Debug, PartialEq, Eq, Structural)]
pub enum Action {
    PollOriginal,
    PollHedge,
    PollDelay,
    PollReadiness,
    /// Ask the policy whether the retained duplicate may be retried.
    AskPolicy,
    /// Take the retained duplicate, ask the policy for a fresh one, and call
    /// the handler with the taken one.
    IssueHedge,
    /// Record the elapsed time once and return this side's result.
    Complete(Side),
    /// Return the handler's readiness error.
    FailReadiness,
    /// Report "not ready" for this poll.
    Yield,
}

pub open spec fn is_terminal(a: Action) -> bool {
    a is Complete || a is FailReadiness
}

pub open spec fn resolved(o: Outcome) -> bool {
    o != Outcome::Pending
}

/// Per-call state: which operations exist and whether a duplicate request is
/// retained.
#[derive(Clone, Copy, Debug, PartialEq, Eq, Structural)]
pub struct CallState {
    pub stage: Stage,
    pub delay: DelayState,
    pub hedge_in_flight: bool,
    pub holds_request: bool,
}

impl CallState {
    pub open spec fn initial(holds_request: bool, has_delay: bool) -> CallState {
        CallState {
            stage: Stage::Idle,
            delay: if has_delay { DelayState::Armed } else { DelayState::Absent },
            hedge_in_flight: false,
            holds_request,
        }
    }

    pub open spec fn wf(self) -> bool {
        &&& self.hedge_in_flight ==> self.delay == DelayState::Fired
        &&& self.stage == Stage::Hedge ==> self.hedge_in_flight
        &&& self.stage == Stage::Delay ==> self.delay == DelayState::Armed
            && !self.hedge_in_flight
        &&& (self.stage == Stage::Readiness || self.stage == Stage::Policy || self.stage
            == Stage::Issue) ==> self.delay == DelayState::Fired && !self.hedge_in_flight
        &&& (self.stage == Stage::Policy || self.stage == Stage::Issue) ==> self.holds_request
    }

    /// The event that the driver may report in this state.
    pub open spec fn expects(self, ev: Event) -> bool {
        match self.stage {
            Stage::Idle => ev is Poll,
            Stage::Original => ev is Original,
            Stage::Hedge => ev is Hedge,
            Stage::Delay => ev is Delay,
            Stage::Readiness => ev is Readiness,
            Stage::Policy => ev is Policy,
            Stage::Issue => ev is Issued,
            Stage::Done => false,
        }
    }

    pub open spec fn with_stage(self, stage: Stage) -> CallState {
        CallState { stage, ..self }
    }

    /// After the original attempt is still pending: check the hedge, else the
    /// delay, else wait on the original alone.
    pub open spec fn after_original_pending(self) -> (CallState, Action) {
        if self.hedge_in_flight {
            (self.with_stage(Stage::Hedge), Action::PollHedge)
        } else {
            match self.delay {
                DelayState::Armed => (self.with_stage(Stage::Delay), Action::PollDelay),
                DelayState::Fired => (self.with_stage(Stage::Readiness), Action::PollReadiness),
                _ => (self.with_stage(Stage::Idle), Action::Yield),
            }
        }
    }

    /// One transition: the next state and action on an expected event.
    pub open spec fn next(self, ev: Event) -> (CallState, Action) {
        match ev {
            Event::Poll => (self.with_stage(Stage::Original), Action::PollOriginal),
            Event::Original(o) => if resolved(o) {
                (
                    CallState { stage: Stage::Done, holds_request: false, ..self },
                    Action::Complete(Side::Original),
                )
            } else {
                self.after_original_pending()
            },
            Event::Hedge(o) => if resolved(o) {
                (
                    CallState { stage: Stage::Done, holds_request: false, ..self },
                    Action::Complete(Side::Hedge),
                )
            } else {
                (self.with_stage(Stage::Idle), Action::Yield)
            },
            Event::Delay(t) => match t {
                TimerOutcome::Pending => (self.with_stage(Stage::Idle), Action::Yield),
                TimerOutcome::Failed => (
                    CallState { stage: Stage::Idle, delay: DelayState::Failed, ..self },
                    Action::Yield,
                ),
                TimerOutcome::Fired => (
                    CallState { stage: Stage::Readiness, delay: DelayState::Fired, ..self },
                    Action::PollReadiness,
                ),
            },
            Event::Readiness(o) => match o {
                Outcome::Pending => (self.with_stage(Stage::Idle), Action::Yield),
                Outcome::Failed => (
                    CallState { stage: Stage::Done, holds_request: false, ..self },
                    Action::FailReadiness,
                ),
                Outcome::Ready => if self.holds_request {
                    (self.with_stage(Stage::Policy), Action::AskPolicy)
                } else {
                    (self.with_stage(Stage::Idle), Action::Yield)
                },
            },
            Event::Policy(allowed) => if allowed {
                (self.with_stage(Stage::Issue), Action::IssueHedge)
            } else {
                (self.with_stage(Stage::Idle), Action::Yield)
            },
            Event::Issued(recloned) => (
                CallState {
                    stage: Stage::Original,
                    hedge_in_flight: true,
                    holds_request: recloned,
                    ..self
                },
                Action::PollOriginal,
            ),
        }
    }

    /// A new call that retains a duplicate when `holds_request`, and has a
    /// hedge delay when `has_delay`.
    pub fn new(holds_request: bool, has_delay: bool) -> (r: CallState)
        ensures
            r == CallState::initial(holds_request, has_delay),
            r.wf(),
    {
        CallState {
            stage: Stage::Idle,
            delay: if has_delay {
                DelayState::Armed
            } else {
                DelayState::Absent
            },
            hedge_in_flight: false,
            holds_request,
        }
    }

    /// Whether `ev` is the event this state waits for.
    pub fn accepts(&self, ev: Event) -> (r: bool)
        ensures
            r == self.expects(ev),
    {
        match self.stage {
            Stage::Idle => matches!(ev, Event::Poll),
            Stage::Original => matches!(ev, Event::Original(_)),
            Stage::Hedge => matches!(ev, Event::Hedge(_)),
            Stage::Delay => matches!(ev, Event::Delay(_)),
            Stage::Readiness => matches!(ev, Event::Readiness(_)),
            Stage::Policy => matches!(ev, Event::Policy(_)),
            Stage::Issue => matches!(ev, Event::Issued(_)),
            Stage::Done => false,
        }
    }

    /// Whether the call has delivered its result.
    pub fn is_done(&self) -> (r: bool)
        ensures
            r == (self.stage == Stage::Done),
    {
        self.stage == Stage::Done
    }

    fn original_pending(&mut self) -> (a: Action)
        ensures
            (*final(self), a) == old(self).after_original_pending(),
    {
        if self.hedge_in_flight {
            self.stage = Stage::Hedge;
            Action::PollHedge
        } else {
            match self.delay {
                DelayState::Armed => {
                    self.stage = Stage::Delay;
                    Action::PollDelay
                },
                DelayState::Fired => {
                    self.stage = Stage::Readiness;
                    Action::PollReadiness
                },
                _ => {
                    self.stage = Stage::Idle;
                    Action::Yield
                },
            }
        }
    }

    /// Takes the driver's observation and says what to do next.
    pub fn on_event(&mut self, ev: Event) -> (a: Action)
        requires
            old(self).expects(ev),
        ensures
            (*final(self), a) == old(self).next(ev),
            old(self).wf() ==> final(self).wf(),
    {
        match ev {
            Event::Poll => {
                self.stage = Stage::Original;
                Action::PollOriginal
            },
            Event::Original(o) => {
                if o != Outcome::Pending {
                    self.stage = Stage::Done;
                    self.holds_request = false;
                    Action::Complete(Side::Original)
                } else {
                    self.original_pending()
                }
            },
            Event::Hedge(o) => {
                if o != Outcome::Pending {
                    self.stage = Stage::Done;
                    self.holds_request = false;
                    Action::Complete(Side::Hedge)
                } else {
                    self.stage = Stage::Idle;
                    Action::Yield
                }
            },
            Event::Delay(t) => match t {
                TimerOutcome::Pending => {
                    self.stage = Stage::Idle;
                    Action::Yield
                },
                TimerOutcome::Failed => {
                    self.stage = Stage::Idle;
                    self.delay = DelayState::Failed;
                    Action::Yield
                },
                TimerOutcome::Fired => {
                    self.stage = Stage::Readiness;
                    self.delay = DelayState::Fired;
                    Action::PollReadiness
                },
            },
            Event::Readiness(o) => match o {
                Outcome::Pending => {
                    self.stage = Stage::Idle;
                    Action::Yield
                },
                Outcome::Failed => {
                    self.stage = Stage::Done;
                    self.holds_request = false;
                    Action::FailReadiness
                },
                Outcome::Ready => {
                    if self.holds_request {
                        self.stage = Stage::Policy;
                        Action::AskPolicy
                    } else {
                        self.stage = Stage::Idle;
                        Action::Yield
                    }
                },
            },
            Event::Policy(allowed) => {
                if allowed {
                    self.stage = Stage::Issue;
                    Action::IssueHedge
                } else {
                    self.stage = Stage::Idle;
                    Action::Yield
                }
            },
            Event::Issued(recloned) => {
                self.stage = Stage::Original;
                self.hedge_in_flight = true;
                self.holds_request = recloned;
                Action::PollOriginal
            },
        }
    }
}

/// The actions a call takes on the events `evs`, up to the first event it
/// does not expect (every event, once the call is done).
pub open spec fn run(s: CallState, evs: Seq<Event>) -> Seq<Action>
    decreases evs.len(),
{
    if evs.len() == 0 || !s.expects(evs[0]) {
        seq![]
    } else {
        seq![s.next(evs[0]).1] + run(s.next(evs[0]).0, evs.drop_first())
    }
}

proof fn lemma_run_unfold(s: CallState, evs: Seq<Event>)
    requires
        evs.len() > 0,
        s.expects(evs[0]),
    ensures
        ({
            let acts = run(s, evs);
            let rest = run(s.next(evs[0]).0, evs.drop_first());
            &&& acts.len() == rest.len() + 1
            &&& acts[0] == s.next(evs[0]).1
            &&& forall|i: int| 1 <= i < acts.len() ==> #[trigger] acts[i] == rest[i - 1]
        }),
{
}

proof fn lemma_run_len(s: CallState, evs: Seq<Event>)
    ensures
        run(s, evs).len() <= evs.len(),
    decreases evs.len(),
{
    if evs.len() > 0 && s.expects(evs[0]) {
        lemma_run_unfold(s, evs);
        lemma_run_len(s.next(evs[0]).0, evs.drop_first());
    }
}

proof fn lemma_terminal_is_last(s: CallState, evs: Seq<Event>)
    ensures
        forall|i: int|
            0 <= i < run(s, evs).len() && is_terminal(#[trigger] run(s, evs)[i]) ==> i == run(
                s,
                evs,
            ).len() - 1,
    decreases evs.len(),
{
    if evs.len() > 0 && s.expects(evs[0]) {
        let t = s.next(evs[0]).0;
        let rest = evs.drop_first();
        lemma_run_unfold(s, evs);
        lemma_terminal_is_last(t, rest);
        if is_terminal(s.next(evs[0]).1) {
            assert(t.stage == Stage::Done);
            assert(run(t, rest).len() == 0);
        }
        assert forall|i: int|
            0 <= i < run(s, evs).len() && is_terminal(#[trigger] run(s, evs)[i]) implies i == run(
                s,
                evs,
            ).len() - 1 by {
            if i >= 1 {
                assert(run(s, evs)[i] == run(t, rest)[i - 1]);
            }
        }
    }
}

proof fn lemma_complete_matches_event(s: CallState, evs: Seq<Event>)
    ensures
        forall|i: int|
            0 <= i < run(s, evs).len() ==> {
                &&& (#[trigger] run(s, evs)[i] == Action::Complete(Side::Original) <==> (
                evs[i] is Original && resolved(evs[i]->Original_0)))
                &&& (run(s, evs)[i] == Action::Complete(Side::Hedge) <==> (evs[i] is Hedge
                    && resolved(evs[i]->Hedge_0)))
            },
    decreases evs.len(),
{
    if evs.len() > 0 && s.expects(evs[0]) {
        let t = s.next(evs[0]).0;
        let rest = evs.drop_first();
        lemma_run_unfold(s, evs);
        lemma_complete_matches_event(t, rest);
        lemma_run_len(s, evs);
        assert forall|i: int| 0 <= i < run(s, evs).len() implies {
            &&& (#[trigger] run(s, evs)[i] == Action::Complete(Side::Original) <==> (
            evs[i] is Original && resolved(evs[i]->Original_0)))
            &&& (run(s, evs)[i] == Action::Complete(Side::Hedge) <==> (evs[i] is Hedge
                && resolved(evs[i]->Hedge_0)))
        } by {
            if i >= 1 {
                assert(run(s, evs)[i] == run(t, rest)[i - 1]);
                assert(evs[i] == rest[i - 1]);
            }
        }
    }
}

/// An action that starts or answers through a hedge attempt.
pub open spec fn uses_hedge(a: Action) -> bool {
    a == Action::IssueHedge || a == Action::Complete(Side::Hedge)
}

/// Shared induction: a state property `inv` that every allowed event keeps,
/// and under which no step touches a hedge, keeps the whole run clear of one.
proof fn lemma_no_hedge_under(
    s: CallState,
    evs: Seq<Event>,
    inv: spec_fn(CallState) -> bool,
    allowed: spec_fn(Event) -> bool,
)
    requires
        inv(s),
        forall|i: int| 0 <= i < evs.len() ==> allowed(#[trigger] evs[i]),
        forall|t: CallState, ev: Event|
            #![trigger inv(t), allowed(ev)]
            inv(t) && t.expects(ev) && allowed(ev) ==> inv(t.next(ev).0) && !uses_hedge(
                t.next(ev).1,
            ),
    ensures
        forall|i: int| 0 <= i < run(s, evs).len() ==> !uses_hedge(#[trigger] run(s, evs)[i]),
    decreases evs.len(),
{
    if evs.len() > 0 && s.expects(evs[0]) {
        let t = s.next(evs[0]).0;
        let rest = evs.drop_first();
        lemma_run_unfold(s, evs);
        assert(allowed(evs[0]));
        assert forall|i: int| 0 <= i < rest.len() implies allowed(#[trigger] rest[i]) by {
            assert(rest[i] == evs[i + 1]);
        }
        lemma_no_hedge_under(t, rest, inv, allowed);
        assert forall|i: int| 0 <= i < run(s, evs).len() implies !uses_hedge(
            #[trigger] run(s, evs)[i],
        ) by {
            if i >= 1 {
                assert(run(s, evs)[i] == run(t, rest)[i - 1]);
            }
        }
    }
}

/// A call built without a hedge delay (the tracker had too few samples) never
/// issues a hedge, whatever happens and however long it runs.
pub proof fn lemma_no_delay_never_hedges(holds_request: bool, evs: Seq<Event>)
    ensures
        forall|i: int|
            0 <= i < run(CallState::initial(holds_request, false), evs).len() ==> !uses_hedge(
                #[trigger] run(CallState::initial(holds_request, false), evs)[i],
            ),
{
    let inv = |t: CallState| t.wf() && t.delay == DelayState::Absent;
    let allowed = |ev: Event| true;
    lemma_no_hedge_under(CallState::initial(holds_request, false), evs, inv, allowed);
}

/// While the handler never reports itself ready, no hedge is issued and the
/// call can only be answered by the original attempt.
pub proof fn lemma_unready_handler_never_hedges(
    holds_request: bool,
    has_delay: bool,
    evs: Seq<Event>,
)
    requires
        forall|i: int| 0 <= i < evs.len() ==> #[trigger] evs[i] != Event::Readiness(Outcome::Ready),
    ensures
        forall|i: int|
            0 <= i < run(CallState::initial(holds_request, has_delay), evs).len() ==> !uses_hedge(
                #[trigger] run(CallState::initial(holds_request, has_delay), evs)[i],
            ),
{
    let inv = |t: CallState|
        t.wf() && !t.hedge_in_flight && t.stage != Stage::Policy && t.stage != Stage::Issue;
    let allowed = |ev: Event| ev != Event::Readiness(Outcome::Ready);
    lemma_no_hedge_under(CallState::initial(holds_request, has_delay), evs, inv, allowed);
}

/// While the policy denies every retry, no hedge is issued, however many polls
/// follow the delay, and the call can only be answered by the original attempt.
pub proof fn lemma_denying_policy_never_hedges(holds_request: bool, has_delay: bool, evs: Seq<Event>)
    requires
        forall|i: int| 0 <= i < evs.len() ==> #[trigger] evs[i] != Event::Policy(true),
    ensures
        forall|i: int|
            0 <= i < run(CallState::initial(holds_request, has_delay), evs).len() ==> !uses_hedge(
                #[trigger] run(CallState::initial(holds_request, has_delay), evs)[i],
            ),
{
    let inv = |t: CallState| t.wf() && !t.hedge_in_flight && t.stage != Stage::Issue;
    let allowed = |ev: Event| ev != Event::Policy(true);
    lemma_no_hedge_under(CallState::initial(holds_request, has_delay), evs, inv, allowed);
}

/// A call whose request could not be duplicated never issues a hedge, even
/// after its delay fires, and is answered by the original attempt alone.
pub proof fn lemma_no_duplicate_never_hedges(has_delay: bool, evs: Seq<Event>)
    ensures
        forall|i: int|
            0 <= i < run(CallState::initial(false, has_delay), evs).len() ==> !uses_hedge(
                #[trigger] run(CallState::initial(false, has_delay), evs)[i],
            ),
{
    let inv = |t: CallState| t.wf() && !t.hedge_in_flight && !t.holds_request;
    let allowed = |ev: Event| true;
    lemma_no_hedge_under(CallState::initial(false, has_delay), evs, inv, allowed);
}

/// A call delivers at most one result: its terminal action, whether a
/// response from one attempt (with its single latency record) or a
/// readiness error, is the last action it ever takes.  An attempt's result is
/// delivered exactly at the step where that attempt was seen resolved, so the
/// recorded latency is that of the attempt that resolved first.
pub proof fn lemma_single_delivery(holds_request: bool, has_delay: bool, evs: Seq<Event>)
    ensures
        ({
            let acts = run(CallState::initial(holds_request, has_delay), evs);
            &&& acts.len() <= evs.len()
            &&& forall|i: int| 0 <= i < acts.len() && is_terminal(#[trigger] acts[i]) ==> i
                == acts.len() - 1
            &&& forall|i: int|
                0 <= i < acts.len() ==> {
                    &&& (#[trigger] acts[i] == Action::Complete(Side::Original) <==> (
                    evs[i] is Original && resolved(evs[i]->Original_0)))
                    &&& (acts[i] == Action::Complete(Side::Hedge) <==> (evs[i] is Hedge
                        && resolved(evs[i]->Hedge_0)))
                }
        }),
{
    let s = CallState::initial(holds_request, has_delay);
    lemma_run_len(s, evs);
    lemma_terminal_is_last(s, evs);
    lemma_complete_matches_event(s, evs);
}

} // verus!
