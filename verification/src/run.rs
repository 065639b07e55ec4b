//! The rule applier: a run through a plan, one step at a time.
//!
//! A run hands out the pending step; whoever drives it performs the step
//! against the firewall or the shell and reports what happened. The run
//! then moves on to the next step, or stops for good at the first fatal
//! event. Steps already performed are never undone.
//!
//! A firewall operation that the firewall rejects is fatal, and so is a
//! shell command that could not be started. A shell command that ran is
//! never fatal, whatever its exit status: the status is not examined.

use vstd::prelude::*;
use crate::step::{steps_view, ActionKind, Stage, Step, StepView};

verus! {

/// What performing a step led to.
#[derive(Debug, PartialEq, Eq)]
pub enum Event {
    /// The firewall accepted the operation.
    Applied,
    /// The firewall rejected the operation, or could not be reached.
    Rejected { message: String },
    /// The shell ran the command; `success` tells whether it exited with
    /// status zero.
    Exited { success: bool },
    /// The shell could not be started.
    NotStarted { message: String },
}

/// The mathematical content of an [`Event`].
pub enum EventView {
    Applied,
    Rejected { message: Seq<char> },
    Exited { success: bool },
    NotStarted { message: Seq<char> },
}

impl EventView {
    /// Whether the event ends the run.
    pub open spec fn fatal(self) -> bool {
        self is Rejected || self is NotStarted
    }

    /// The message that a fatal event carries; empty for the others.
    pub open spec fn message(self) -> Seq<char> {
        match self {
            EventView::Rejected { message } => message,
            EventView::NotStarted { message } => message,
            _ => Seq::empty(),
        }
    }
}

impl View for Event {
    type V = EventView;

    open spec fn view(&self) -> EventView {
        match *self {
            Event::Applied => EventView::Applied,
            Event::Rejected { message } => EventView::Rejected { message: message@ },
            Event::Exited { success } => EventView::Exited { success },
            Event::NotStarted { message } => EventView::NotStarted { message: message@ },
        }
    }
}

/// Why and where a run stopped.
#[derive(Debug, PartialEq, Eq)]
pub struct Failure {
    /// The index, in the plan, of the step that failed.
    pub position: usize,
    /// The stage of the step that failed.
    pub stage: Stage,
    /// The kind of action that failed.
    pub kind: ActionKind,
    /// The message of the fatal event.
    pub message: String,
}

/// The mathematical content of a [`Failure`].
pub struct FailureView {
    pub position: nat,
    pub stage: Stage,
    pub kind: ActionKind,
    pub message: Seq<char>,
}

impl View for Failure {
    type V = FailureView;

    open spec fn view(&self) -> FailureView {
        FailureView {
            position: self.position as nat,
            stage: self.stage,
            kind: self.kind,
            message: self.message@,
        }
    }
}

/// Where a run stands.
#[derive(Debug, PartialEq, Eq)]
pub enum Status<'a> {
    /// This step is to be performed next, and its outcome reported.
    Pending(&'a Step),
    /// Every step of the plan was performed.
    Succeeded,
    /// A step failed; no further step will be handed out.
    Failed(&'a Failure),
}

/// The mathematical content of a [`Status`].
pub enum StatusView {
    Pending(StepView),
    Succeeded,
    Failed(FailureView),
}

impl<'a> View for Status<'a> {
    type V = StatusView;

    open spec fn view(&self) -> StatusView {
        match *self {
            Status::Pending(step) => StatusView::Pending(step@),
            Status::Succeeded => StatusView::Succeeded,
            Status::Failed(failure) => StatusView::Failed(failure@),
        }
    }
}

/// The mathematical content of a [`Run`]: the plan, how many of its steps
/// were performed successfully, and the failure that stopped it, if any.
pub struct RunView {
    pub plan: Seq<StepView>,
    pub position: nat,
    pub failure: Option<FailureView>,
}

impl RunView {
    /// The failure of the step at the current position under a fatal event
    /// with `message`.
    pub open spec fn failure_here(self, message: Seq<char>) -> FailureView {
        FailureView {
            position: self.position,
            stage: self.plan[self.position as int].stage,
            kind: self.plan[self.position as int].action.kind(),
            message,
        }
    }

    /// The invariant of a run: the position lies within the plan, and a
    /// recorded failure names the step at the position.
    pub open spec fn wf(self) -> bool {
        &&& self.position <= self.plan.len()
        &&& self.failure matches Some(failure) ==> self.position < self.plan.len() && failure
            == self.failure_here(failure.message)
    }

    /// The run at the start of `plan`.
    pub open spec fn start(plan: Seq<StepView>) -> RunView {
        RunView { plan, position: 0, failure: None }
    }

    /// Whether a step is pending.
    pub open spec fn running(self) -> bool {
        self.failure is None && self.position < self.plan.len()
    }

    /// Where the run stands.
    pub open spec fn status(self) -> StatusView {
        match self.failure {
            Some(failure) => StatusView::Failed(failure),
            None => if self.position < self.plan.len() {
                StatusView::Pending(self.plan[self.position as int])
            } else {
                StatusView::Succeeded
            },
        }
    }

    /// The run after `event` was reported for the pending step. A run
    /// without a pending step ignores the event.
    pub open spec fn next(self, event: EventView) -> RunView {
        if !self.running() {
            self
        } else if event.fatal() {
            RunView { failure: Some(self.failure_here(event.message())), ..self }
        } else {
            RunView { position: self.position + 1, ..self }
        }
    }

    /// The run after `events` were reported, one after the other.
    pub open spec fn after(self, events: Seq<EventView>) -> RunView
        decreases events.len(),
    {
        if events.len() == 0 {
            self
        } else {
            self.after(events.drop_last()).next(events.last())
        }
    }

    /// The steps that were performed while `events` were reported: each
    /// event answers the step that was pending when it came, and an event
    /// that found no step pending answers none.
    pub open spec fn performed(self, events: Seq<EventView>) -> Seq<StepView>
        decreases events.len(),
    {
        if events.len() == 0 {
            Seq::empty()
        } else {
            let before = self.after(events.drop_last());
            let earlier = self.performed(events.drop_last());
            if before.running() {
                earlier.push(before.plan[before.position as int])
            } else {
                earlier
            }
        }
    }
}

/// A run that meets its invariant keeps it, whatever is reported.
pub proof fn lemma_next_keeps_wf(run: RunView, event: EventView)
    requires
        run.wf(),
    ensures
        run.next(event).wf(),
        run.next(event).plan == run.plan,
{
}

/// As long as no event is fatal, each event answers the next step of the
/// plan: after `events` the run has performed the first `events.len()`
/// steps of the plan and nothing else (all of them, if there are at least
/// as many events as steps), and has not failed.
pub proof fn lemma_clean_run(plan: Seq<StepView>, events: Seq<EventView>)
    requires
        forall|i: int| 0 <= i < events.len() ==> !(#[trigger] events[i]).fatal(),
    ensures
        events.len() <= plan.len() ==> RunView::start(plan).after(events) == (RunView {
            plan,
            position: events.len(),
            failure: None,
        }) && RunView::start(plan).performed(events) == plan.take(events.len() as int),
        events.len() >= plan.len() ==> RunView::start(plan).after(events) == (RunView {
            plan,
            position: plan.len(),
            failure: None,
        }) && RunView::start(plan).performed(events) == plan && RunView::start(plan).after(
            events,
        ).status() == StatusView::Succeeded,
    decreases events.len(),
{
    if events.len() > 0 {
        lemma_clean_run(plan, events.drop_last());
    }
}

/// The first fatal event stops the run for good. If the event that
/// answers step `n` of the plan is the first fatal one, then, whatever is
/// reported afterwards, the steps performed are the first `n + 1` steps of
/// the plan and no other, and the run has failed with a failure that names
/// step `n`, its stage, the kind of its action and the event's message.
pub proof fn lemma_failure_stops_run(plan: Seq<StepView>, events: Seq<EventView>, n: int)
    requires
        0 <= n < plan.len(),
        n < events.len(),
        forall|i: int| 0 <= i < n ==> !(#[trigger] events[i]).fatal(),
        events[n].fatal(),
    ensures
        RunView::start(plan).performed(events) == plan.take(n + 1),
        RunView::start(plan).after(events).status() == StatusView::Failed(
            FailureView {
                position: n as nat,
                stage: plan[n].stage,
                kind: plan[n].action.kind(),
                message: events[n].message(),
            },
        ),
        RunView::start(plan).after(events).position == n,
    decreases events.len(),
{
    if events.len() == n + 1 {
        lemma_clean_run(plan, events.drop_last());
    } else {
        lemma_failure_stops_run(plan, events.drop_last(), n);
    }
}

/// Every run ends. Each event that finds a step pending either stops the
/// run or moves it one step on, so a run that has not failed after
/// `events` stands `events.len()` steps into its plan, or at its end; and
/// once as many events as the plan has steps were reported, no step is
/// pending any more.
pub proof fn lemma_run_ends(plan: Seq<StepView>, events: Seq<EventView>)
    ensures
        RunView::start(plan).after(events).wf(),
        RunView::start(plan).after(events).plan == plan,
        RunView::start(plan).after(events).failure is None ==> RunView::start(plan).after(
            events,
        ).position == if events.len() <= plan.len() {
            events.len()
        } else {
            plan.len()
        },
        events.len() >= plan.len() ==> !RunView::start(plan).after(events).running(),
        RunView::start(plan).performed(events).len() <= events.len(),
        RunView::start(plan).performed(events).is_prefix_of(plan),
    decreases events.len(),
{
    lemma_performed_so_far(plan, events);
    if events.len() > 0 {
        lemma_run_ends(plan, events.drop_last());
    }
}

/// The steps performed are the steps up to the position of the run, and
/// the step at the position too if the run failed there.
pub proof fn lemma_performed_so_far(plan: Seq<StepView>, events: Seq<EventView>)
    ensures
        RunView::start(plan).after(events).wf(),
        RunView::start(plan).after(events).plan == plan,
        RunView::start(plan).performed(events) == plan.take(
            RunView::start(plan).after(events).position + if RunView::start(plan).after(
                events,
            ).failure is Some {
                1int
            } else {
                0int
            },
        ),
    decreases events.len(),
{
    if events.len() > 0 {
        lemma_performed_so_far(plan, events.drop_last());
    }
}

/// A run through a plan.
pub struct Run {
    plan: Vec<Step>,
    position: usize,
    failure: Option<Failure>,
}

impl View for Run {
    type V = RunView;

    closed spec fn view(&self) -> RunView {
        RunView {
            plan: steps_view(self.plan@),
            position: self.position as nat,
            failure: match self.failure {
                Some(failure) => Some(failure@),
                None => None,
            },
        }
    }
}

impl Run {
    #[verifier::type_invariant]
    spec fn inv(self) -> bool {
        self@.wf()
    }

    /// A run at the start of `plan`.
    pub fn new(plan: Vec<Step>) -> (run: Run)
        ensures
            run@ == RunView::start(steps_view(plan@)),
    {
        Run { plan, position: 0, failure: None }
    }

    /// The plan that the run goes through.
    pub fn plan(&self) -> (plan: &Vec<Step>)
        ensures
            steps_view(plan@) == self@.plan,
    {
        &self.plan
    }

    /// Where the run stands: the step to perform next, or how it ended.
    pub fn status(&self) -> (status: Status<'_>)
        ensures
            status@ == self@.status(),
            self@.wf(),
    {
        proof {
            use_type_invariant(self);
        }
        match &self.failure {
            Some(failure) => Status::Failed(failure),
            None => if self.position < self.plan.len() {
                Status::Pending(&self.plan[self.position])
            } else {
                Status::Succeeded
            },
        }
    }

    /// Takes the outcome of the pending step: the run moves on to the next
    /// step, or, if the event is fatal, stops for good with a failure that
    /// names the step. A run that has ended ignores the event.
    pub fn advance(&mut self, event: Event)
        ensures
            final(self)@ == old(self)@.next(event@),
    {
        proof {
            use_type_invariant(&*self);
        }
        if self.failure.is_some() || self.position >= self.plan.len() {
            return ;
        }
        match event {
            Event::Rejected { message } | Event::NotStarted { message } => {
                let step = &self.plan[self.position];
                let failure = Failure {
                    position: self.position,
                    stage: step.stage,
                    kind: step.action.kind(),
                    message,
                };
                self.failure = Some(failure);
            },
            Event::Applied | Event::Exited { .. } => {
                self.position = self.position + 1;
            },
        }
    }
}

} // verus!
