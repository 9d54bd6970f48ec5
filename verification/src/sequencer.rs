//! The start-up sequence of the shell as a state machine.
//!
//! The sequencer decides; the host acts. The host hands the sequencer an
//! [`Event`], carries out the [`Action`] that comes back, and reports the
//! next event. Along every path the actions are the configuration plan in
//! its fixed order, then the start of the event loop, then at most one
//! ending.

use vstd::prelude::*;

verus! {

/// The message of the fatal error that ends the process when the event loop
/// cannot start.
pub const FATAL_MESSAGE: &'static str = "error while running tauri application";

/// A unit of host functionality that is attached while configuring.
#[derive(Clone, Copy, Debug, PartialEq, Eq, Structural)]
pub enum Plugin {
    /// Checks for and installs application updates.
    Updater,
    /// Exits or relaunches the process, for instance after an update.
    Process,
    /// Opens a file or an address with the system's default handler.
    Opener,
}

/// Where the sequence stands.
#[derive(Clone, Copy, Debug, PartialEq, Eq, Structural)]
pub enum Phase {
    /// The builder exists; parts of the plan are still to be carried out.
    Unconfigured,
    /// The whole plan has been carried out; the event loop has not been started.
    Configured,
    /// Control has been handed to the host's event loop.
    Running,
    /// The sequence is over.
    Terminated,
}

/// What the host reports to the sequencer.
#[derive(Clone, Copy, Debug, PartialEq, Eq, Structural)]
pub enum Event {
    /// The host is ready for its next instruction: at the very start, and
    /// after each configuring action has been carried out.
    Ready,
    /// The event loop could not be started.
    LoopFailed,
    /// The event loop ran and has returned.
    LoopEnded,
}

/// What the sequencer tells the host to do.
#[derive(Clone, Copy, Debug, PartialEq, Eq, Structural)]
pub enum Action {
    /// Attach the plugin to the builder.
    Attach(Plugin),
    /// Register the command table with the builder.
    RegisterCommands,
    /// Install the setup hook on the builder.
    InstallSetupHook,
    /// Build the application and hand control to the event loop.
    Run,
    /// End the process at once with [`FATAL_MESSAGE`] and a non-zero status;
    /// control goes back to no caller.
    Abort,
    /// Return to the caller: the application has run and ended.
    Exit,
}

/// The configuration plan: the three plugins, update first, then process
/// control, then the opener; after them the command table and the setup hook.
pub open spec fn plan() -> Seq<Action> {
    seq![
        Action::Attach(Plugin::Updater),
        Action::Attach(Plugin::Process),
        Action::Attach(Plugin::Opener),
        Action::RegisterCommands,
        Action::InstallSetupHook,
    ]
}

/// Everything a host is told up to and including the start of the event
/// loop: the plan, then [`Action::Run`].
pub open spec fn script() -> Seq<Action> {
    plan().push(Action::Run)
}

/// The sequencer as a mathematical value.
pub struct SequencerState {
    pub phase: Phase,
    /// How many actions of the plan have been handed out.
    pub issued: nat,
}

impl SequencerState {
    /// The phase is `Unconfigured` exactly while part of the plan is left.
    pub open spec fn wf(self) -> bool {
        &&& self.issued <= plan().len()
        &&& (self.phase == Phase::Unconfigured <==> self.issued < plan().len())
    }
}

/// The state in which every sequence begins.
pub open spec fn initial() -> SequencerState {
    SequencerState { phase: Phase::Unconfigured, issued: 0 }
}

/// The transition relation: the state after `event`, and the action it calls
/// for. An event that means nothing in a state leaves it as it is and calls
/// for no action.
pub open spec fn next(s: SequencerState, event: Event) -> (SequencerState, Option<Action>) {
    match (s.phase, event) {
        (Phase::Unconfigured, Event::Ready) => (
            SequencerState {
                phase: if s.issued + 1 == plan().len() {
                    Phase::Configured
                } else {
                    Phase::Unconfigured
                },
                issued: s.issued + 1,
            },
            Some(plan()[s.issued as int]),
        ),
        (Phase::Configured, Event::Ready) => (
            SequencerState { phase: Phase::Running, issued: s.issued },
            Some(Action::Run),
        ),
        (Phase::Running, Event::LoopFailed) => (
            SequencerState { phase: Phase::Terminated, issued: s.issued },
            Some(Action::Abort),
        ),
        (Phase::Running, Event::LoopEnded) => (
            SequencerState { phase: Phase::Terminated, issued: s.issued },
            Some(Action::Exit),
        ),
        _ => (s, None),
    }
}

/// The state a sequencer is in after it has taken `events`, in order, from
/// the start.
pub open spec fn state_after(events: Seq<Event>) -> SequencerState
    decreases events.len(),
{
    if events.len() == 0 {
        initial()
    } else {
        next(state_after(events.drop_last()), events.last()).0
    }
}

/// The actions a sequencer has called for, in order, after it has taken
/// `events` from the start.
pub open spec fn actions_of(events: Seq<Event>) -> Seq<Action>
    decreases events.len(),
{
    if events.len() == 0 {
        Seq::empty()
    } else {
        let before = actions_of(events.drop_last());
        match next(state_after(events.drop_last()), events.last()).1 {
            Some(action) => before.push(action),
            None => before,
        }
    }
}

/// A step keeps a well-formed state well formed.
pub proof fn lemma_next_keeps_wf(s: SequencerState, event: Event)
    requires
        s.wf(),
    ensures
        next(s, event).0.wf(),
{
}

/// Whatever the host reports, and in whatever order, the actions it has been
/// given are a beginning of one fixed sequence: the plugins with the updater
/// first, process control second and the opener third, then the command
/// table, the setup hook and the start of the event loop, and last a single
/// ending. The state says how far along that sequence the host is.
pub proof fn lemma_actions_follow_script(events: Seq<Event>)
    ensures
        state_after(events).wf(),
        match state_after(events).phase {
            Phase::Unconfigured | Phase::Configured => actions_of(events) == plan().take(
                state_after(events).issued as int,
            ),
            Phase::Running => actions_of(events) == script(),
            Phase::Terminated => actions_of(events) == script().push(Action::Abort)
                || actions_of(events) == script().push(Action::Exit),
        },
    decreases events.len(),
{
    if events.len() > 0 {
        let before = events.drop_last();
        lemma_actions_follow_script(before);
        let s = state_after(before);
        if s.phase == Phase::Unconfigured && events.last() == Event::Ready {
            let k = s.issued as int;
            assert(plan().take(k + 1) == plan().take(k).push(plan()[k]));
        } else if s.phase == Phase::Configured && events.last() == Event::Ready {
            assert(plan().take(plan().len() as int) == plan());
        }
    }
}

/// The event loop is started only once the whole plan has been carried out.
pub proof fn lemma_run_needs_whole_plan(s: SequencerState, event: Event)
    requires
        s.wf(),
        next(s, event).1 == Some(Action::Run),
    ensures
        s.phase == Phase::Configured,
        s.issued == plan().len(),
        event == Event::Ready,
        next(s, event).0.phase == Phase::Running,
{
}

/// When the event loop cannot start, the one thing left is to abort, and the
/// sequence is over.
pub proof fn lemma_start_failure_is_fatal(s: SequencerState)
    requires
        s.phase == Phase::Running,
    ensures
        next(s, Event::LoopFailed).1 == Some(Action::Abort),
        next(s, Event::LoopFailed).0.phase == Phase::Terminated,
{
}

/// Once terminated, a sequencer calls for nothing more and stays as it is,
/// whatever it is told.
pub proof fn lemma_terminated_is_final(s: SequencerState, event: Event)
    requires
        s.phase == Phase::Terminated,
    ensures
        next(s, event) == (s, None::<Action>),
{
}

/// The start-up sequencer.
pub struct Sequencer {
    phase: Phase,
    issued: u8,
}

impl View for Sequencer {
    type V = SequencerState;

    closed spec fn view(&self) -> SequencerState {
        SequencerState { phase: self.phase, issued: self.issued as nat }
    }
}

impl Sequencer {
    #[verifier::type_invariant]
    spec fn well_formed(self) -> bool {
        self@.wf()
    }

    /// A sequencer at the start: nothing configured yet.
    pub fn new() -> (s: Self)
        ensures
            s@ == initial(),
    {
        Sequencer { phase: Phase::Unconfigured, issued: 0 }
    }

    /// The phase the sequence is in.
    pub fn phase(&self) -> (p: Phase)
        ensures
            p == self@.phase,
            self@.wf(),
    {
        proof {
            use_type_invariant(self);
        }
        self.phase
    }

    /// Takes `event` and says what the host is to do next.
    pub fn step(&mut self, event: Event) -> (action: Option<Action>)
        ensures
            (final(self)@, action) == next(old(self)@, event),
            old(self)@.wf(),
            final(self)@.wf(),
    {
        proof {
            use_type_invariant(&*self);
        }
        match (self.phase, event) {
            (Phase::Unconfigured, Event::Ready) => {
                let action = planned(self.issued);
                let issued: u8 = self.issued + 1;
                let phase = if issued == 5 {
                    Phase::Configured
                } else {
                    Phase::Unconfigured
                };
                *self = Sequencer { phase, issued };
                Some(action)
            },
            (Phase::Configured, Event::Ready) => {
                *self = Sequencer { phase: Phase::Running, issued: self.issued };
                Some(Action::Run)
            },
            (Phase::Running, Event::LoopFailed) => {
                *self = Sequencer { phase: Phase::Terminated, issued: self.issued };
                Some(Action::Abort)
            },
            (Phase::Running, Event::LoopEnded) => {
                *self = Sequencer { phase: Phase::Terminated, issued: self.issued };
                Some(Action::Exit)
            },
            _ => None,
        }
    }
}

/// The action at place `k` of the plan.
fn planned(k: u8) -> (action: Action)
    requires
        k < plan().len(),
    ensures
        action == plan()[k as int],
{
    match k {
        0 => Action::Attach(Plugin::Updater),
        1 => Action::Attach(Plugin::Process),
        2 => Action::Attach(Plugin::Opener),
        3 => Action::RegisterCommands,
        _ => Action::InstallSetupHook,
    }
}

} // verus!
