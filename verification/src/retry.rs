//! The retry decisions of a call, as a state machine.
//!
//! The caller sends the request and reports what came of it as an [`Event`];
//! the machine answers with the [`Action`] to take: wait and send again, hand
//! the response on, or give up. Only failures of the transport are retried,
//! and no more attempts are made than the plan allows.

use crate::backoff::{BackoffPlan, Delay};
use crate::client::RawResponse;
use crate::error::{Cause, CustomError, Error, Kind};
use crate::text::{decimal, to_decimal};
use vstd::prelude::*;
use vstd::string::*;

verus! {

/// What came of one attempt.
#[derive(Debug)]
pub enum Event {
    /// The transport failed; the text is its report.
    Failed(String),
    /// The server answered.
    Responded(RawResponse),
}

/// What to do next.
#[derive(Debug)]
pub enum Action {
    /// Wait for the span, then send the request again.
    Wait(Delay),
    /// Hand the response on to be decoded; the call makes no further attempt.
    Deliver(RawResponse),
    /// Fail with the error; the call makes no further attempt.
    GiveUp(Error),
}

/// The report of one failed attempt, labelled with the number of the
/// attempt, counted from zero.
pub open spec fn labelled(index: nat, report: Seq<char>) -> Seq<char> {
    "Error "@ + decimal(index) + ": "@ + report
}

/// The reports of all failed attempts in one text: each labelled with its
/// number, in order, with a comma and a blank between two of them.
pub open spec fn summary(reports: Seq<Seq<char>>) -> Seq<char>
    decreases reports.len(),
{
    if reports.len() == 0 {
        Seq::empty()
    } else if reports.len() == 1 {
        labelled(0, reports[0])
    } else {
        summary(reports.drop_last()) + ", "@ + labelled(
            (reports.len() - 1) as nat,
            reports.last(),
        )
    }
}

/// Whether `err` is the error of a call that spent its attempts on the
/// failures reported: an internal error, caused by a custom error whose
/// message is the summary of the reports.
pub open spec fn exhausted(err: Error, reports: Seq<Seq<char>>) -> bool {
    &&& err.kind == Kind::InternalError
    &&& err.cause matches Some(Cause::Custom(custom))
    &&& custom.message@ == summary(reports)
}

/// Writes the summary of the reports of the failed attempts.
pub fn summarize(reports: &Vec<String>) -> (text: String)
    ensures
        text@ == summary(reports.deep_view()),
{
    let mut text = String::new();
    let mut i: usize = 0;
    while i < reports.len()
        invariant
            i <= reports.len(),
            text@ == summary(reports.deep_view().take(i as int)),
        decreases reports.len() - i,
    {
        let ghost done = reports.deep_view().take(i as int);
        let ghost next = reports.deep_view().take(i + 1);
        proof {
            assert(next.drop_last() =~= done);
            assert(next.last() == reports[i as int]@);
        }
        if i > 0 {
            text.append(", ");
        }
        text.append("Error ");
        text.append(to_decimal(i as u64).as_str());
        text.append(": ");
        text.append(reports[i].as_str());
        assert(text@ =~= summary(next));
        i += 1;
    }
    assert(reports.deep_view().take(reports.len() as int) =~= reports.deep_view());
    text
}

/// The state of a call between two attempts.
pub ghost struct RetryState {
    /// The plan that the call runs on.
    pub plan: BackoffPlan,
    /// The reports of the attempts that failed, in order.
    pub failures: Seq<Seq<char>>,
    /// The shortest wait that the call may still impose: the shortest wait
    /// of the plan at first, and then the wait imposed last.
    pub floor: Delay,
    /// Whether the call has come to its end.
    pub finished: bool,
}

/// The longer of two spans, the first where they are equally long.
pub open spec fn longer(a: Delay, b: Delay) -> Delay {
    if a.as_nanos() >= b.as_nanos() {
        a
    } else {
        b
    }
}

impl RetryState {
    /// A call that has made no attempt yet.
    pub open spec fn initial(plan: BackoffPlan) -> RetryState {
        RetryState { plan, failures: Seq::empty(), floor: plan.min, finished: false }
    }

    /// The states that a call on a sound plan can be in: it has not failed
    /// more often than the plan has attempts, and as often only at its end.
    pub open spec fn wf(self) -> bool {
        &&& self.plan.wf()
        &&& self.plan.allows(self.floor)
        &&& self.failures.len() <= self.plan.attempts
        &&& !self.finished ==> self.failures.len() < self.plan.attempts
    }

    /// Whether a call in this state, told of `event`, may go on to `next`
    /// with `action`.
    ///
    /// A response is delivered as it is and ends the call. A failure is
    /// recorded; while attempts are left, the call waits for a span that the
    /// plan allows and that is no shorter than the wait before, and with the
    /// last attempt spent it gives up with the summary of all failures.
    pub open spec fn step(self, event: Event, next: RetryState, action: Action) -> bool {
        &&& next.plan == self.plan
        &&& match event {
            Event::Responded(response) => {
                &&& next.failures == self.failures
                &&& next.floor == self.floor
                &&& next.finished
                &&& action == Action::Deliver(response)
            },
            Event::Failed(report) => {
                &&& next.failures == self.failures.push(report@)
                &&& if next.failures.len() < self.plan.attempts {
                    &&& !next.finished
                    &&& action matches Action::Wait(wait)
                    &&& self.plan.allows(wait)
                    &&& self.floor.as_nanos() <= wait.as_nanos()
                    &&& next.floor == wait
                } else {
                    &&& next.finished
                    &&& next.floor == self.floor
                    &&& action matches Action::GiveUp(err)
                    &&& exhausted(err, next.failures)
                }
            },
        }
    }
}

/// The retry decisions of one call.
#[derive(Debug)]
pub struct Retry {
    plan: BackoffPlan,
    failures: Vec<String>,
    floor: Delay,
    finished: bool,
}

impl View for Retry {
    type V = RetryState;

    closed spec fn view(&self) -> RetryState {
        RetryState {
            plan: self.plan,
            failures: self.failures.deep_view(),
            floor: self.floor,
            finished: self.finished,
        }
    }
}

impl Retry {
    #[verifier::type_invariant]
    spec fn inv(self) -> bool {
        self@.wf()
    }

    /// A call on `plan` that has made no attempt yet.
    pub fn new(plan: BackoffPlan) -> (retry: Retry)
        requires
            plan.wf(),
        ensures
            retry@ == RetryState::initial(plan),
    {
        let retry = Retry { plan, failures: Vec::new(), floor: plan.min, finished: false };
        assert(retry.failures.deep_view() =~= Seq::<Seq<char>>::empty());
        retry
    }

    /// A call on the standard plan that has made no attempt yet.
    pub fn standard() -> (retry: Retry)
        ensures
            retry@ == RetryState::initial(BackoffPlan::standard_plan()),
    {
        Retry::new(BackoffPlan::standard())
    }

    /// Whether the call has come to its end.
    pub fn is_finished(&self) -> (finished: bool)
        ensures
            finished == self@.finished,
            self@.wf(),
    {
        proof {
            use_type_invariant(self);
        }
        self.finished
    }

    /// The number of attempts that have failed.
    pub fn failed_attempts(&self) -> (n: usize)
        ensures
            n == self@.failures.len(),
    {
        self.failures.len()
    }

    /// Takes the step that `event` calls for. Where the step is to wait, the
    /// span is `wait`, or the wait before where that was longer. Returns the
    /// state after the step and the action to take.
    pub fn settle(self, event: Event, wait: Delay) -> (r: (Retry, Action))
        requires
            !self@.finished,
            self@.plan.allows(wait),
        ensures
            self@.step(event, r.0@, r.1),
            r.1 matches Action::Wait(span) ==> span == longer(wait, self@.floor),
    {
        proof {
            use_type_invariant(&self);
        }
        let ghost before = self.failures.deep_view();
        let Retry { plan, failures, floor, finished: _ } = self;
        match event {
            Event::Responded(response) => {
                (Retry { plan, failures, floor, finished: true }, Action::Deliver(response))
            },
            Event::Failed(report) => {
                let mut failures = failures;
                failures.push(report);
                assert(failures.deep_view() =~= before.push(report@));
                if failures.len() < plan.attempts as usize {
                    let span = if floor.at_most(&wait) {
                        wait
                    } else {
                        floor
                    };
                    (Retry { plan, failures, floor: span, finished: false }, Action::Wait(span))
                } else {
                    let message = summarize(&failures);
                    let err = Error::new_internal_error().with(
                        Cause::Custom(CustomError { message }),
                    );
                    (Retry { plan, failures, floor, finished: true }, Action::GiveUp(err))
                }
            },
        }
    }

    /// Takes the step that `event` calls for. Where the step is to wait, the
    /// span is drawn from the plan, so two calls may answer differently.
    /// Returns the state after the step and the action to take.
    pub fn on_event(self, event: Event) -> (r: (Retry, Action))
        requires
            !self@.finished,
        ensures
            self@.step(event, r.0@, r.1),
    {
        proof {
            use_type_invariant(&self);
        }
        let failed: u32 = self.failures.len() as u32;
        let drawn = match &event {
            Event::Failed(_) => if failed + 1 < self.plan.attempts {
                self.plan.delay(failed)
            } else {
                None
            },
            Event::Responded(_) => None,
        };
        let wait = match drawn {
            Some(span) => span,
            None => self.floor,
        };
        self.settle(event, wait)
    }
}

/// Whether `states` and `actions` are a run of a call on `plan` from its
/// start through `events`: one state before each event and one after the
/// last, one action for each event, each step one that the machine takes.
pub open spec fn is_run(
    plan: BackoffPlan,
    events: Seq<Event>,
    states: Seq<RetryState>,
    actions: Seq<Action>,
) -> bool {
    &&& states.len() == events.len() + 1
    &&& actions.len() == events.len()
    &&& states[0] == RetryState::initial(plan)
    &&& forall|i: int|
        0 <= i < events.len() ==> states[i].step(#[trigger] events[i], states[i + 1], actions[i])
}

/// Whether the first `n` of the events are failures of the transport.
pub open spec fn fails_first(events: Seq<Event>, n: int) -> bool {
    forall|i: int| 0 <= i < n ==> #[trigger] events[i] is Failed
}

/// The reports of the first `n` events, which are failures.
pub open spec fn reports_of(events: Seq<Event>, n: int) -> Seq<Seq<char>> {
    Seq::new(n as nat, |i: int| events[i]->Failed_0@)
}

proof fn lemma_failures_pile_up(
    plan: BackoffPlan,
    events: Seq<Event>,
    states: Seq<RetryState>,
    actions: Seq<Action>,
    n: int,
)
    requires
        plan.wf(),
        is_run(plan, events, states, actions),
        0 <= n <= events.len(),
        n <= plan.attempts,
        fails_first(events, n),
    ensures
        states[n].plan == plan,
        states[n].failures == reports_of(events, n),
        states[n].finished == (n == plan.attempts),
        plan.allows(states[n].floor),
        forall|i: int|
            0 <= i < n && i + 1 < plan.attempts ==> (#[trigger] actions[i] matches Action::Wait(
                wait,
            ) && plan.allows(wait) && wait.as_nanos() <= states[n].floor.as_nanos()),
    decreases n,
{
    if n == 0 {
        assert(states[0].failures =~= reports_of(events, 0));
    } else {
        lemma_failures_pile_up(plan, events, states, actions, n - 1);
        assert(events[n - 1] is Failed);
        assert(states[n - 1].step(events[n - 1], states[n], actions[n - 1]));
        assert(states[n].failures =~= reports_of(events, n));
    }
}

/// The waits of a call never shrink: of two failures that are both followed
/// by a wait, the later one is followed by a wait at least as long.
pub proof fn law_waits_never_shrink(
    plan: BackoffPlan,
    events: Seq<Event>,
    states: Seq<RetryState>,
    actions: Seq<Action>,
    earlier: int,
    later: int,
)
    requires
        plan.wf(),
        is_run(plan, events, states, actions),
        events.len() <= plan.attempts,
        0 <= earlier <= later < events.len(),
        later + 1 < plan.attempts,
        fails_first(events, later + 1),
    ensures
        actions[earlier] is Wait,
        actions[later] is Wait,
        actions[earlier]->Wait_0.as_nanos() <= actions[later]->Wait_0.as_nanos(),
{
    lemma_failures_pile_up(plan, events, states, actions, later + 1);
    lemma_failures_pile_up(plan, events, states, actions, later);
    assert(states[later].step(events[later], states[later + 1], actions[later]));
}

/// A call whose first attempts fail at the transport, fewer of them than its
/// plan has attempts, and whose next attempt gets a response, delivers that
/// response and ends; and after each of the failures it was told to wait
/// for a span within the bounds of its plan.
pub proof fn law_recovery(
    plan: BackoffPlan,
    events: Seq<Event>,
    states: Seq<RetryState>,
    actions: Seq<Action>,
)
    requires
        plan.wf(),
        is_run(plan, events, states, actions),
        events.len() >= 1,
        events.len() <= plan.attempts,
        fails_first(events, events.len() - 1),
        events.last() is Responded,
    ensures
        forall|i: int| 0 <= i < events.len() ==> !(#[trigger] states[i]).finished,
        forall|i: int|
            0 <= i < events.len() - 1 ==> (#[trigger] actions[i] matches Action::Wait(wait)
                && plan.allows(wait)),
        actions.last() == Action::Deliver(events.last()->Responded_0),
        states.last().finished,
        states.last().failures == reports_of(events, events.len() - 1),
{
    let n = events.len() - 1;
    lemma_failures_pile_up(plan, events, states, actions, n);
    assert(states[n].step(events[n], states[n + 1], actions[n]));
    assert forall|i: int| 0 <= i < events.len() implies !(#[trigger] states[i]).finished by {
        lemma_failures_pile_up(plan, events, states, actions, i);
    }
}

/// A call whose attempts all fail at the transport, as many as its plan
/// has, gives up on the last failure with an internal error that carries the
/// summary of all the reports; after each failure before the last it was
/// told to wait for a span within the bounds of its plan.
pub proof fn law_exhaustion(
    plan: BackoffPlan,
    events: Seq<Event>,
    states: Seq<RetryState>,
    actions: Seq<Action>,
)
    requires
        plan.wf(),
        is_run(plan, events, states, actions),
        events.len() == plan.attempts,
        fails_first(events, events.len() as int),
    ensures
        forall|i: int| 0 <= i < events.len() ==> !(#[trigger] states[i]).finished,
        forall|i: int|
            0 <= i < events.len() - 1 ==> (#[trigger] actions[i] matches Action::Wait(wait)
                && plan.allows(wait)),
        actions.last() matches Action::GiveUp(err) && exhausted(
            err,
            reports_of(events, events.len() as int),
        ),
        states.last().finished,
{
    let n = events.len() as int;
    lemma_failures_pile_up(plan, events, states, actions, n);
    lemma_failures_pile_up(plan, events, states, actions, n - 1);
    assert(events[n - 1] is Failed);
    assert(states[n - 1].step(events[n - 1], states[n], actions[n - 1]));
    assert forall|i: int| 0 <= i < events.len() implies !(#[trigger] states[i]).finished by {
        lemma_failures_pile_up(plan, events, states, actions, i);
    }
}

/// The summary of five reports names each of them, labelled `Error 0` to
/// `Error 4`, and nothing else.
pub proof fn law_summary_of_five(
    a: Seq<char>,
    b: Seq<char>,
    c: Seq<char>,
    d: Seq<char>,
    e: Seq<char>,
)
    ensures
        summary(seq![a, b, c, d, e]) == "Error 0: "@ + a + ", Error 1: "@ + b + ", Error 2: "@ + c
            + ", Error 3: "@ + d + ", Error 4: "@ + e,
{
    reveal_strlit("Error ");
    reveal_strlit(": ");
    reveal_strlit(", ");
    reveal_strlit("Error 0: ");
    reveal_strlit(", Error 1: ");
    reveal_strlit(", Error 2: ");
    reveal_strlit(", Error 3: ");
    reveal_strlit(", Error 4: ");
    let s5 = seq![a, b, c, d, e];
    let s4 = seq![a, b, c, d];
    let s3 = seq![a, b, c];
    let s2 = seq![a, b];
    let s1 = seq![a];
    assert(s5.drop_last() =~= s4);
    assert(s4.drop_last() =~= s3);
    assert(s3.drop_last() =~= s2);
    assert(s2.drop_last() =~= s1);
    assert(decimal(0) =~= seq!['0']);
    assert(decimal(1) =~= seq!['1']);
    assert(decimal(2) =~= seq!['2']);
    assert(decimal(3) =~= seq!['3']);
    assert(decimal(4) =~= seq!['4']);
    assert(summary(s1) =~= "Error 0: "@ + a);
    assert(summary(s2) =~= "Error 0: "@ + a + ", Error 1: "@ + b);
    assert(summary(s3) =~= "Error 0: "@ + a + ", Error 1: "@ + b + ", Error 2: "@ + c);
    assert(summary(s4) =~= "Error 0: "@ + a + ", Error 1: "@ + b + ", Error 2: "@ + c
        + ", Error 3: "@ + d);
    assert(summary(s5) =~= "Error 0: "@ + a + ", Error 1: "@ + b + ", Error 2: "@ + c
        + ", Error 3: "@ + d + ", Error 4: "@ + e);
}

} // verus!
