//! Supervision of a running chain.
//!
//! A `ChainRun` never touches a process. It names the next thing to do
//! (launch a stage, drain the last stage's output, wait on a stage, write
//! the collected output, finish) and is told what came of it. Its caller
//! performs the actions and reports the events. The rules it follows are
//! written down once as a transition system on plain values, `ChainState`,
//! about which the guarantees of this module are proved.

use crate::chain::outcome_view;
use crate::chain::{
    Chain, ChainError, ChainErrorView, ChainResult, ChainResultView, ChainView, Terminus,
};
use crate::commands::{Stage, StageView};
use vstd::prelude::*;

verus! {

/// Where a stage reads from.
#[derive(Debug, Clone, Copy, PartialEq, Eq, Structural)]
pub enum StdinSource {
    /// The caller's own input.
    Inherit,
    /// The output handle of an earlier stage, which passes to the new stage
    /// and is no longer the caller's to read.
    Upstream { stage: usize },
}

/// Where a stage writes to.
#[derive(Debug, Clone, Copy, PartialEq, Eq, Structural)]
pub enum StdoutTarget {
    /// The caller's own output.
    Inherit,
    /// A pipe whose reading end the caller holds.
    Capture,
}

/// What the caller of a run has to do next.
#[derive(Debug, Clone, Copy, PartialEq, Eq, Structural)]
pub enum Action {
    /// Start the stage with this index.
    Launch { stage: usize, stdin: StdinSource, stdout: StdoutTarget },
    /// Read the output of this stage to its end.
    Drain { stage: usize },
    /// Wait until the process of this stage has ended.
    Wait { stage: usize },
    /// Write the collected output to the caller's standard output.
    Write,
    /// Nothing is left to do: take the outcome.
    Finish,
}

impl Action {
    /// Whether the action takes the output of `stage` out of the caller's
    /// hands: a launch that makes it the new stage's input, or reading it
    /// to its end.
    pub open spec fn takes_output_of(self, stage: usize) -> bool {
        match self {
            Action::Launch { stdin: StdinSource::Upstream { stage: from }, .. } => from == stage,
            Action::Drain { stage: from } => from == stage,
            _ => false,
        }
    }
}

/// What came of an action.
#[derive(Debug, Clone, PartialEq, Eq)]
pub enum Event {
    /// The stage runs.
    Launched,
    /// The program could not be started.
    LaunchFailed,
    /// The output was read to its end.
    Drained { stdout: Vec<u8> },
    /// Reading the output failed.
    DrainFailed,
    /// The process has ended with this status.
    Waited { exit_status: i32 },
    /// The collected output was written.
    Written,
    /// Writing the collected output failed.
    WriteFailed,
}

/// An `Event` as a plain value.
pub enum EventView {
    Launched,
    LaunchFailed,
    Drained { stdout: Seq<u8> },
    DrainFailed,
    Waited { exit_status: i32 },
    Written,
    WriteFailed,
}

impl View for Event {
    type V = EventView;

    open spec fn view(&self) -> EventView {
        match self {
            Event::Launched => EventView::Launched,
            Event::LaunchFailed => EventView::LaunchFailed,
            Event::Drained { stdout } => EventView::Drained { stdout: stdout@ },
            Event::DrainFailed => EventView::DrainFailed,
            Event::Waited { exit_status } => EventView::Waited { exit_status: *exit_status },
            Event::Written => EventView::Written,
            Event::WriteFailed => EventView::WriteFailed,
        }
    }
}

/// The part of its course a run is in.
#[derive(Debug, Clone, Copy, PartialEq, Eq, Structural)]
pub enum Phase {
    /// Stages are being started, left to right.
    Launching,
    /// All stages run; the output of the last is being read.
    Draining,
    /// Processes are being waited on, the last started first.
    Reaping,
    /// The collected output is being written.
    Writing,
    /// The run is over.
    Finished,
}

/// The fatal errors a run can meet.
#[derive(Debug, Clone, Copy, PartialEq, Eq, Structural)]
pub enum Fault {
    Spawn,
    Pipe,
    Write,
}

/// The state of a run as a plain value.
pub struct ChainState {
    /// The plan.
    pub stages: Seq<StageView>,
    pub terminus: Terminus,
    pub phase: Phase,
    /// The first `launched` stages have been started.
    pub launched: nat,
    /// Of those, the first `pending` have no wait asked for yet.
    pub pending: nat,
    /// The output of the last stage, once it has been drained.
    pub captured: Seq<u8>,
    /// The exit status of the last stage, once it has been waited on.
    pub exit_status: i32,
    pub fault: Option<Fault>,
}

impl ChainState {
    /// The state in which a run starts.
    pub open spec fn initial(chain: ChainView) -> ChainState {
        ChainState {
            stages: chain.stages,
            terminus: chain.terminus,
            phase: Phase::Launching,
            launched: 0,
            pending: 0,
            captured: Seq::empty(),
            exit_status: 0,
            fault: None,
        }
    }

    /// What holds of every state a run can be in.
    pub open spec fn well_formed(self) -> bool {
        &&& 0 < self.stages.len() <= usize::MAX
        &&& self.pending <= self.launched <= self.stages.len()
        &&& match self.phase {
            Phase::Launching => {
                &&& self.launched < self.stages.len()
                &&& self.pending == self.launched
                &&& self.fault is None
            },
            Phase::Draining => {
                &&& self.pending == self.stages.len()
                &&& self.terminus != Terminus::Inherit
                &&& self.fault is None
            },
            Phase::Reaping => {
                &&& self.pending > 0
                &&& self.fault != Some(Fault::Write)
                &&& self.launched < self.stages.len() <==> self.fault == Some(Fault::Spawn)
            },
            Phase::Writing => {
                &&& self.pending == 0
                &&& self.launched == self.stages.len()
                &&& self.terminus == Terminus::Forward
                &&& self.fault is None
            },
            Phase::Finished => {
                &&& self.pending == 0
                &&& self.launched < self.stages.len() <==> self.fault == Some(Fault::Spawn)
            },
        }
    }

    /// The action the run is waiting on.
    pub open spec fn action(self) -> Action {
        match self.phase {
            Phase::Launching => Action::Launch {
                stage: self.launched as usize,
                stdin: if self.launched == 0 {
                    StdinSource::Inherit
                } else {
                    StdinSource::Upstream { stage: (self.launched - 1) as usize }
                },
                stdout: if self.terminus == Terminus::Inherit && self.launched + 1
                    == self.stages.len() {
                    StdoutTarget::Inherit
                } else {
                    StdoutTarget::Capture
                },
            },
            Phase::Draining => Action::Drain { stage: (self.stages.len() - 1) as usize },
            Phase::Reaping => Action::Wait { stage: (self.pending - 1) as usize },
            Phase::Writing => Action::Write,
            Phase::Finished => Action::Finish,
        }
    }

    /// Whether `event` answers the action the run is waiting on.
    pub open spec fn accepts(self, event: EventView) -> bool {
        match self.phase {
            Phase::Launching => event is Launched || event is LaunchFailed,
            Phase::Draining => event is Drained || event is DrainFailed,
            Phase::Reaping => event is Waited,
            Phase::Writing => event is Written || event is WriteFailed,
            Phase::Finished => false,
        }
    }

    /// The state after `event`. An event that does not answer the pending
    /// action changes nothing.
    pub open spec fn next(self, event: EventView) -> ChainState {
        if !self.accepts(event) {
            self
        } else {
            match event {
                EventView::Launched => {
                    let count = self.launched + 1;
                    ChainState {
                        launched: count as nat,
                        pending: count as nat,
                        phase: if count < self.stages.len() {
                            Phase::Launching
                        } else if self.terminus == Terminus::Inherit {
                            Phase::Reaping
                        } else {
                            Phase::Draining
                        },
                        ..self
                    }
                },
                EventView::LaunchFailed => ChainState {
                    fault: Some(Fault::Spawn),
                    phase: if self.launched == 0 {
                        Phase::Finished
                    } else {
                        Phase::Reaping
                    },
                    ..self
                },
                EventView::Drained { stdout } => ChainState {
                    captured: stdout,
                    phase: Phase::Reaping,
                    ..self
                },
                EventView::DrainFailed => ChainState {
                    fault: Some(Fault::Pipe),
                    phase: Phase::Reaping,
                    ..self
                },
                EventView::Waited { exit_status } => {
                    let rest = (self.pending - 1) as nat;
                    ChainState {
                        exit_status: if self.pending == self.stages.len() {
                            exit_status
                        } else {
                            self.exit_status
                        },
                        pending: rest,
                        phase: if rest > 0 {
                            Phase::Reaping
                        } else if self.terminus == Terminus::Forward && self.fault is None {
                            Phase::Writing
                        } else {
                            Phase::Finished
                        },
                        ..self
                    }
                },
                EventView::Written => ChainState { phase: Phase::Finished, ..self },
                EventView::WriteFailed => ChainState {
                    fault: Some(Fault::Write),
                    phase: Phase::Finished,
                    ..self
                },
            }
        }
    }

    /// The state after a whole sequence of events, taken in order.
    pub open spec fn after(self, events: Seq<EventView>) -> ChainState
        decreases events.len(),
    {
        if events.len() == 0 {
            self
        } else {
            self.after(events.drop_last()).next(events.last())
        }
    }

    /// What a finished run hands to its caller: the first fatal error, or
    /// the exit status of the last stage with what was captured of its
    /// output.
    pub open spec fn outcome(self) -> Result<ChainResultView, ChainErrorView> {
        match self.fault {
            Some(Fault::Spawn) => Err(
                ChainErrorView::Spawn { program: self.stages[self.launched as int].program },
            ),
            Some(Fault::Pipe) => Err(ChainErrorView::Pipe),
            Some(Fault::Write) => Err(ChainErrorView::Write),
            None => Ok(
                if self.terminus == Terminus::Inherit {
                    ChainResultView::Passthrough { exit_status: self.exit_status }
                } else {
                    ChainResultView::Collected {
                        captured_stdout: self.captured,
                        exit_status: self.exit_status,
                    }
                },
            ),
        }
    }

    /// How often, up to the end of `events`, a stage was started: a launch
    /// was asked for and the answer was that the stage runs.
    pub open spec fn starts(self, events: Seq<EventView>, stage: usize) -> nat
        decreases events.len(),
    {
        if events.len() == 0 {
            0
        } else {
            let before = self.after(events.drop_last());
            self.starts(events.drop_last(), stage) + if before.action() matches Action::Launch {
                stage: asked,
                ..
            } && asked == stage && events.last() is Launched {
                1nat
            } else {
                0nat
            }
        }
    }

    /// How often, up to the end of `events`, a wait on a stage was asked
    /// for. An action counts once, when the run turns to it.
    pub open spec fn waits(self, events: Seq<EventView>, stage: usize) -> nat
        decreases events.len(),
    {
        if events.len() == 0 {
            if self.action() == (Action::Wait { stage }) {
                1
            } else {
                0
            }
        } else {
            let before = self.after(events.drop_last());
            self.waits(events.drop_last(), stage) + if before.accepts(events.last())
                && before.next(events.last()).action() == (Action::Wait { stage }) {
                1nat
            } else {
                0nat
            }
        }
    }

    /// How often, up to the end of `events`, the output of a stage was
    /// taken: handed to the next stage as its input, or read to its end.
    pub open spec fn handovers(self, events: Seq<EventView>, stage: usize) -> nat
        decreases events.len(),
    {
        if events.len() == 0 {
            if self.action().takes_output_of(stage) {
                1
            } else {
                0
            }
        } else {
            let before = self.after(events.drop_last());
            self.handovers(events.drop_last(), stage) + if before.accepts(events.last())
                && before.next(events.last()).action().takes_output_of(stage) {
                1nat
            } else {
                0nat
            }
        }
    }

    /// The number of events that a run in this state can still take before
    /// it is finished, at most.
    pub open spec fn budget(self) -> nat {
        match self.phase {
            Phase::Launching => (2 * self.stages.len() + 2 - self.launched) as nat,
            Phase::Draining => self.pending + 2,
            Phase::Reaping => self.pending + 1,
            Phase::Writing => 1,
            Phase::Finished => 0,
        }
    }
}

/// A run starts in a state that is well formed, and asks first for the
/// first stage, reading the caller's input.
pub proof fn lemma_initial_state(chain: ChainView)
    requires
        0 < chain.stages.len() <= usize::MAX,
    ensures
        ChainState::initial(chain).well_formed(),
        ChainState::initial(chain).action() matches Action::Launch { stage, stdin, .. } && stage
            == 0 && stdin == StdinSource::Inherit,
{
}

/// No event leads out of the well-formed states, or changes the plan.
pub proof fn lemma_next_is_well_formed(state: ChainState, event: EventView)
    requires
        state.well_formed(),
    ensures
        state.next(event).well_formed(),
        state.next(event).stages == state.stages,
        state.next(event).terminus == state.terminus,
{
}

/// No sequence of events leads out of the well-formed states, or changes
/// the plan.
pub proof fn lemma_after_is_well_formed(state: ChainState, events: Seq<EventView>)
    requires
        state.well_formed(),
    ensures
        state.after(events).well_formed(),
        state.after(events).stages == state.stages,
        state.after(events).terminus == state.terminus,
    decreases events.len(),
{
    if events.len() > 0 {
        lemma_after_is_well_formed(state, events.drop_last());
        lemma_next_is_well_formed(state.after(events.drop_last()), events.last());
    }
}

/// Stages start left to right, each reading the output of the one before
/// it, and none is started after a fatal error. No process is waited on
/// while another stage is still to be started: a wait is asked for only
/// once every stage runs or one could not be started.
pub proof fn lemma_launch_order(state: ChainState)
    requires
        state.well_formed(),
    ensures
        state.action() matches Action::Launch { stage, stdin, stdout } ==> {
            &&& state.fault is None
            &&& stage == state.launched
            &&& stage > 0 ==> stdin == (StdinSource::Upstream { stage: (stage - 1) as usize })
            &&& stage == 0 ==> stdin == StdinSource::Inherit
            &&& stdout == StdoutTarget::Inherit <==> state.terminus == Terminus::Inherit && stage
                + 1 == state.stages.len()
        },
        state.action() matches Action::Wait { stage } ==> {
            &&& stage < state.launched
            &&& state.launched == state.stages.len() || state.fault == Some(Fault::Spawn)
        },
        state.action() matches Action::Drain { stage } ==> {
            &&& stage + 1 == state.stages.len()
            &&& state.launched == state.stages.len()
        },
{
}

/// Every event that answers the pending action brings the run nearer to
/// its end, so a run is finished after at most two events for each stage
/// and two more.
pub proof fn lemma_progress(state: ChainState, event: EventView)
    requires
        state.well_formed(),
    ensures
        state.budget() <= 2 * state.stages.len() + 2,
        state.accepts(event) ==> state.next(event).budget() < state.budget(),
        state.budget() == 0 <==> state.phase is Finished,
{
}

/// The exit status of a process that is not the last stage of the chain
/// has no part in what follows: whatever it is, the run goes on from the
/// same state. In particular a stage that fails, or that ends because its
/// reader has gone, raises no error.
pub proof fn lemma_upstream_status_is_ignored(state: ChainState, one: i32, other: i32)
    requires
        state.well_formed(),
        state.action() matches Action::Wait { stage } && stage + 1 < state.stages.len(),
    ensures
        state.next(EventView::Waited { exit_status: one }) == state.next(
            EventView::Waited { exit_status: other },
        ),
        state.next(EventView::Waited { exit_status: one }).fault == state.fault,
        state.next(EventView::Waited { exit_status: one }).exit_status == state.exit_status,
        state.next(EventView::Waited { exit_status: one }).captured == state.captured,
{
}

/// Once the last stage has been waited on, its exit status is the chain's,
/// whatever happens afterwards.
pub proof fn lemma_terminal_status_is_kept(
    state: ChainState,
    exit_status: i32,
    events: Seq<EventView>,
)
    requires
        state.well_formed(),
        state.action() matches Action::Wait { stage } && stage + 1 == state.stages.len(),
    ensures
        state.next(EventView::Waited { exit_status }).after(events).exit_status == exit_status,
        state.next(EventView::Waited { exit_status }).after(events).pending < state.stages.len(),
        state.next(EventView::Waited { exit_status }).after(events).phase !is Launching,
        state.next(EventView::Waited { exit_status }).after(events).phase !is Draining,
    decreases events.len(),
{
    let waited = state.next(EventView::Waited { exit_status });
    lemma_next_is_well_formed(state, EventView::Waited { exit_status });
    if events.len() > 0 {
        lemma_terminal_status_is_kept(state, exit_status, events.drop_last());
        lemma_after_is_well_formed(waited, events.drop_last());
    }
}

/// Only a failure to start a program, to read the last stage's output or to
/// write the collected output is a fatal error; the first one stays.
pub proof fn lemma_faults(state: ChainState, event: EventView)
    requires
        state.well_formed(),
    ensures
        state.next(event).fault != state.fault ==> {
            &&& state.fault is None
            &&& state.accepts(event)
            &&& state.next(event).fault == Some(Fault::Spawn) <==> event is LaunchFailed
            &&& state.next(event).fault == Some(Fault::Pipe) <==> event is DrainFailed
            &&& state.next(event).fault == Some(Fault::Write) <==> event is WriteFailed
        },
{
}

/// A run in which every program starts and nothing fails to be read or
/// written ends without an error, whatever the exit statuses of its stages
/// are: a stage that fails after the next one has read its output is no
/// error of the chain.
pub proof fn lemma_only_failures_are_errors(chain: ChainView, events: Seq<EventView>)
    requires
        0 < chain.stages.len() <= usize::MAX,
        forall|i: int|
            0 <= i < events.len() ==> !(events[i] is LaunchFailed || events[i] is DrainFailed
                || events[i] is WriteFailed),
    ensures
        ChainState::initial(chain).after(events).fault is None,
        ChainState::initial(chain).after(events).outcome() is Ok,
    decreases events.len(),
{
    if events.len() > 0 {
        let earlier = events.drop_last();
        assert forall|i: int| 0 <= i < earlier.len() implies !(earlier[i] is LaunchFailed
            || earlier[i] is DrainFailed || earlier[i] is WriteFailed) by {
            assert(earlier[i] == events[i]);
        }
        lemma_only_failures_are_errors(chain, earlier);
        lemma_after_is_well_formed(ChainState::initial(chain), earlier);
        lemma_faults(ChainState::initial(chain).after(earlier), events.last());
    }
}

proof fn lemma_counts(start: ChainState, events: Seq<EventView>, stage: usize)
    requires
        start.well_formed(),
        start.phase is Launching,
        start.launched == 0,
    ensures
        start.after(events).well_formed(),
        start.starts(events, stage) == if stage < start.after(events).launched {
            1nat
        } else {
            0nat
        },
        start.waits(events, stage) == if (if start.after(events).phase is Reaping {
            start.after(events).pending - 1
        } else {
            start.after(events).pending as int
        }) <= stage < start.after(events).launched {
            1nat
        } else {
            0nat
        },
        start.handovers(events, stage) == if stage < start.after(events).launched && !(
        start.after(events).phase !is Launching && start.terminus == Terminus::Inherit && stage
            + 1 == start.stages.len()) {
            1nat
        } else {
            0nat
        },
    decreases events.len(),
{
    if events.len() > 0 {
        lemma_counts(start, events.drop_last(), stage);
        lemma_after_is_well_formed(start, events.drop_last());
        lemma_next_is_well_formed(start.after(events.drop_last()), events.last());
    }
}

/// Every process that was started is waited on exactly once, and nothing
/// else is ever waited on: at no point of a run has a wait been asked for
/// on a stage that does not run, or a second time on a stage, and when the
/// run is finished a wait has been asked for on every stage that was
/// started. This holds whatever the events are, on the paths that end
/// in an error as on the others.
pub proof fn lemma_every_process_is_waited_on_once(
    chain: ChainView,
    events: Seq<EventView>,
    stage: usize,
)
    requires
        0 < chain.stages.len() <= usize::MAX,
    ensures
        ChainState::initial(chain).starts(events, stage) <= 1,
        ChainState::initial(chain).waits(events, stage) <= ChainState::initial(chain).starts(
            events,
            stage,
        ),
        ChainState::initial(chain).after(events).phase is Finished ==> ChainState::initial(
            chain,
        ).waits(events, stage) == ChainState::initial(chain).starts(events, stage),
{
    lemma_counts(ChainState::initial(chain), events, stage);
}

/// The output of a stage changes hands once at most, and only the output
/// of a stage that was started: it becomes the input of the next stage, or
/// it is read to its end, never both and neither twice. Once every stage
/// runs, every captured output has been taken.
pub proof fn lemma_every_output_is_taken_once(
    chain: ChainView,
    events: Seq<EventView>,
    stage: usize,
)
    requires
        0 < chain.stages.len() <= usize::MAX,
    ensures
        ChainState::initial(chain).handovers(events, stage) <= ChainState::initial(chain).starts(
            events,
            stage,
        ) <= 1,
        ({
            let end = ChainState::initial(chain).after(events);
            &&& end.phase !is Launching
            &&& end.launched == chain.stages.len()
            &&& stage < chain.stages.len()
            &&& !(chain.terminus == Terminus::Inherit && stage + 1 == chain.stages.len())
        }) ==> ChainState::initial(chain).handovers(events, stage) == 1,
{
    lemma_counts(ChainState::initial(chain), events, stage);
}

/// A chain under way: the plan, and how far the run has come.
pub struct ChainRun {
    stages: Vec<Stage>,
    terminus: Terminus,
    phase: Phase,
    launched: usize,
    pending: usize,
    captured: Vec<u8>,
    exit_status: i32,
    fault: Option<Fault>,
}

impl View for ChainRun {
    type V = ChainState;

    closed spec fn view(&self) -> ChainState {
        ChainState {
            stages: self.stages.deep_view(),
            terminus: self.terminus,
            phase: self.phase,
            launched: self.launched as nat,
            pending: self.pending as nat,
            captured: self.captured@,
            exit_status: self.exit_status,
            fault: self.fault,
        }
    }
}

impl ChainRun {
    #[verifier::type_invariant]
    spec fn holds_together(&self) -> bool {
        self@.well_formed()
    }

    /// Starts a run of `chain`. A plan without a stage is no chain, and
    /// there is nothing to run.
    pub fn new(chain: Chain) -> (run: Option<ChainRun>)
        ensures
            match run {
                Some(run) => chain@.stages.len() > 0 && run@ == ChainState::initial(chain@),
                None => chain@.stages.len() == 0,
            },
    {
        let Chain { stages, terminus } = chain;
        if stages.len() == 0 {
            None
        } else {
            Some(
                ChainRun {
                    stages,
                    terminus,
                    phase: Phase::Launching,
                    launched: 0,
                    pending: 0,
                    captured: Vec::new(),
                    exit_status: 0,
                    fault: None,
                },
            )
        }
    }

    /// The action the run is waiting on.
    pub fn action(&self) -> (action: Action)
        ensures
            action == self@.action(),
            self@.well_formed(),
    {
        proof {
            use_type_invariant(self);
        }
        match self.phase {
            Phase::Launching => Action::Launch {
                stage: self.launched,
                stdin: if self.launched == 0 {
                    StdinSource::Inherit
                } else {
                    StdinSource::Upstream { stage: self.launched - 1 }
                },
                stdout: match self.terminus {
                    Terminus::Inherit => if self.launched + 1 == self.stages.len() {
                        StdoutTarget::Inherit
                    } else {
                        StdoutTarget::Capture
                    },
                    _ => StdoutTarget::Capture,
                },
            },
            Phase::Draining => Action::Drain { stage: self.stages.len() - 1 },
            Phase::Reaping => Action::Wait { stage: self.pending - 1 },
            Phase::Writing => Action::Write,
            Phase::Finished => Action::Finish,
        }
    }

    /// Whether `event` answers the action the run is waiting on.
    pub fn accepts(&self, event: &Event) -> (yes: bool)
        ensures
            yes == self@.accepts(event@),
    {
        match self.phase {
            Phase::Launching => match event {
                Event::Launched => true,
                Event::LaunchFailed => true,
                _ => false,
            },
            Phase::Draining => match event {
                Event::Drained { .. } => true,
                Event::DrainFailed => true,
                _ => false,
            },
            Phase::Reaping => match event {
                Event::Waited { .. } => true,
                _ => false,
            },
            Phase::Writing => match event {
                Event::Written => true,
                Event::WriteFailed => true,
                _ => false,
            },
            Phase::Finished => false,
        }
    }

    /// Takes in what came of the pending action and moves on. An event that
    /// does not answer the pending action changes nothing.
    pub fn step(self, event: Event) -> (next: ChainRun)
        ensures
            next@ == self@.next(event@),
            next@.well_formed(),
    {
        proof {
            use_type_invariant(&self);
            lemma_next_is_well_formed(self@, event@);
        }
        let ChainRun { stages, terminus, phase, launched, pending, captured, exit_status, fault } =
            self;
        match phase {
            Phase::Launching => match event {
                Event::Launched => {
                    let count = launched + 1;
                    let phase = if count < stages.len() {
                        Phase::Launching
                    } else {
                        match terminus {
                            Terminus::Inherit => Phase::Reaping,
                            _ => Phase::Draining,
                        }
                    };
                    ChainRun {
                        stages,
                        terminus,
                        phase,
                        launched: count,
                        pending: count,
                        captured,
                        exit_status,
                        fault,
                    }
                },
                Event::LaunchFailed => {
                    let phase = if launched == 0 {
                        Phase::Finished
                    } else {
                        Phase::Reaping
                    };
                    ChainRun {
                        stages,
                        terminus,
                        phase,
                        launched,
                        pending,
                        captured,
                        exit_status,
                        fault: Some(Fault::Spawn),
                    }
                },
                _ => ChainRun {
                    stages,
                    terminus,
                    phase,
                    launched,
                    pending,
                    captured,
                    exit_status,
                    fault,
                },
            },
            Phase::Draining => match event {
                Event::Drained { stdout } => ChainRun {
                    stages,
                    terminus,
                    phase: Phase::Reaping,
                    launched,
                    pending,
                    captured: stdout,
                    exit_status,
                    fault,
                },
                Event::DrainFailed => ChainRun {
                    stages,
                    terminus,
                    phase: Phase::Reaping,
                    launched,
                    pending,
                    captured,
                    exit_status,
                    fault: Some(Fault::Pipe),
                },
                _ => ChainRun {
                    stages,
                    terminus,
                    phase,
                    launched,
                    pending,
                    captured,
                    exit_status,
                    fault,
                },
            },
            Phase::Reaping => match event {
                Event::Waited { exit_status: given } => {
                    let status = if pending == stages.len() {
                        given
                    } else {
                        exit_status
                    };
                    let rest = pending - 1;
                    let phase = if rest > 0 {
                        Phase::Reaping
                    } else {
                        match (terminus, fault) {
                            (Terminus::Forward, None) => Phase::Writing,
                            _ => Phase::Finished,
                        }
                    };
                    ChainRun {
                        stages,
                        terminus,
                        phase,
                        launched,
                        pending: rest,
                        captured,
                        exit_status: status,
                        fault,
                    }
                },
                _ => ChainRun {
                    stages,
                    terminus,
                    phase,
                    launched,
                    pending,
                    captured,
                    exit_status,
                    fault,
                },
            },
            Phase::Writing => match event {
                Event::Written => ChainRun {
                    stages,
                    terminus,
                    phase: Phase::Finished,
                    launched,
                    pending,
                    captured,
                    exit_status,
                    fault,
                },
                Event::WriteFailed => ChainRun {
                    stages,
                    terminus,
                    phase: Phase::Finished,
                    launched,
                    pending,
                    captured,
                    exit_status,
                    fault: Some(Fault::Write),
                },
                _ => ChainRun {
                    stages,
                    terminus,
                    phase,
                    launched,
                    pending,
                    captured,
                    exit_status,
                    fault,
                },
            },
            Phase::Finished => ChainRun {
                stages,
                terminus,
                phase,
                launched,
                pending,
                captured,
                exit_status,
                fault,
            },
        }
    }

    /// The number of stages in the plan.
    pub fn stage_count(&self) -> (count: usize)
        ensures
            count == self@.stages.len(),
    {
        self.stages.len()
    }

    /// The stage with this index in the plan, if the plan has one.
    pub fn stage(&self, index: usize) -> (stage: Option<&Stage>)
        ensures
            match stage {
                Some(stage) => index < self@.stages.len() && stage@ == self@.stages[index as int],
                None => index >= self@.stages.len(),
            },
    {
        if index < self.stages.len() {
            Some(&self.stages[index])
        } else {
            None
        }
    }

    /// What was captured of the last stage's output so far.
    pub fn captured(&self) -> (bytes: &Vec<u8>)
        ensures
            bytes@ == self@.captured,
    {
        &self.captured
    }

    /// Whether the run is over.
    pub fn is_finished(&self) -> (yes: bool)
        ensures
            yes == (self@.phase is Finished),
            yes == (self@.action() is Finish),
    {
        match self.phase {
            Phase::Finished => true,
            _ => false,
        }
    }

    /// Ends the run and hands out what came of it. A run that is not
    /// finished has no outcome yet.
    pub fn outcome(self) -> (outcome: Option<Result<ChainResult, ChainError>>)
        ensures
            match outcome {
                Some(outcome) => self@.phase is Finished && outcome_view(outcome)
                    == self@.outcome(),
                None => self@.phase !is Finished,
            },
    {
        proof {
            use_type_invariant(&self);
        }
        let ChainRun { stages, terminus, phase, launched, pending, captured, exit_status, fault } =
            self;
        match phase {
            Phase::Finished => Some(
                match fault {
                    Some(Fault::Spawn) => Err(
                        ChainError::Spawn { program: stages[launched].program.clone() },
                    ),
                    Some(Fault::Pipe) => Err(ChainError::Pipe),
                    Some(Fault::Write) => Err(ChainError::Write),
                    None => Ok(
                        match terminus {
                            Terminus::Inherit => ChainResult::Passthrough { exit_status },
                            _ => ChainResult::Collected { captured_stdout: captured, exit_status },
                        },
                    ),
                },
            ),
            _ => None,
        }
    }
}

} // verus!
