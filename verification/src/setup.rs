//! The setup hook: in a debug build it opens the developer tools of the main
//! window, if there is one. It never fails.
//!
//! The hook decides; the host looks the window up and opens the panel. The
//! host hands the hook a [`HookEvent`], carries out the [`HookAction`] that
//! comes back, and reports what it found.

use vstd::prelude::*;

verus! {

/// The label of the window whose developer tools the hook opens.
pub const MAIN_WINDOW: &'static str = "main";

/// The build configuration of the running binary.
#[derive(Clone, Copy, Debug, PartialEq, Eq, Structural)]
pub enum Profile {
    Debug,
    Release,
}

impl Profile {
    /// The profile of a binary built with debug assertions on or off.
    pub fn from_debug_assertions(on: bool) -> (profile: Profile)
        ensures
            profile == (if on {
                Profile::Debug
            } else {
                Profile::Release
            }),
    {
        if on {
            Profile::Debug
        } else {
            Profile::Release
        }
    }
}

/// How far the hook has come.
#[derive(Clone, Copy, Debug, PartialEq, Eq, Structural)]
pub enum HookStage {
    /// The hook has not been invoked.
    Idle,
    /// The host has been asked for the main window and has not answered.
    Resolving,
    /// The hook has returned.
    Done,
}

/// What the host reports to the hook.
#[derive(Clone, Copy, Debug, PartialEq, Eq, Structural)]
pub enum HookEvent {
    /// The host framework has invoked the hook.
    Invoked,
    /// A window with the label [`MAIN_WINDOW`] exists.
    Found,
    /// No window has the label [`MAIN_WINDOW`].
    Missing,
}

/// What the hook tells the host to do.
#[derive(Clone, Copy, Debug, PartialEq, Eq, Structural)]
pub enum HookAction {
    /// Look up the window with the label [`MAIN_WINDOW`] and report
    /// [`HookEvent::Found`] or [`HookEvent::Missing`].
    Resolve,
    /// Open the developer tools of the window just found, then return success.
    OpenDevtools,
    /// Return success with nothing more done.
    Return,
}

/// The hook as a mathematical value.
pub struct HookState {
    pub profile: Profile,
    pub stage: HookStage,
}

/// The state in which a hook begins.
pub open spec fn hook_initial(profile: Profile) -> HookState {
    HookState { profile, stage: HookStage::Idle }
}

/// The transition relation of the hook: the state after `event`, and the
/// action it calls for. An event that means nothing in a state leaves it as
/// it is and calls for no action.
pub open spec fn hook_next(s: HookState, event: HookEvent) -> (HookState, Option<HookAction>) {
    match (s.stage, event) {
        (HookStage::Idle, HookEvent::Invoked) => match s.profile {
            Profile::Debug => (
                HookState { profile: s.profile, stage: HookStage::Resolving },
                Some(HookAction::Resolve),
            ),
            Profile::Release => (
                HookState { profile: s.profile, stage: HookStage::Done },
                Some(HookAction::Return),
            ),
        },
        (HookStage::Resolving, HookEvent::Found) => (
            HookState { profile: s.profile, stage: HookStage::Done },
            Some(HookAction::OpenDevtools),
        ),
        (HookStage::Resolving, HookEvent::Missing) => (
            HookState { profile: s.profile, stage: HookStage::Done },
            Some(HookAction::Return),
        ),
        _ => (s, None),
    }
}

/// The state of a hook of `profile` after it has taken `events`, in order.
pub open spec fn hook_state_after(profile: Profile, events: Seq<HookEvent>) -> HookState
    decreases events.len(),
{
    if events.len() == 0 {
        hook_initial(profile)
    } else {
        hook_next(hook_state_after(profile, events.drop_last()), events.last()).0
    }
}

/// The actions a hook of `profile` has called for, in order, after it has
/// taken `events`.
pub open spec fn hook_actions_of(profile: Profile, events: Seq<HookEvent>) -> Seq<HookAction>
    decreases events.len(),
{
    if events.len() == 0 {
        Seq::empty()
    } else {
        let before = hook_actions_of(profile, events.drop_last());
        match hook_next(hook_state_after(profile, events.drop_last()), events.last()).1 {
            Some(action) => before.push(action),
            None => before,
        }
    }
}

/// How often `actions` opens the developer tools.
pub open spec fn openings(actions: Seq<HookAction>) -> nat {
    actions.filter(|a: HookAction| a == HookAction::OpenDevtools).len()
}

/// Whatever the host reports, and in whatever order, the hook keeps its
/// profile and its actions are fixed by the stage it is in and by whether the
/// window was found. In a release build the window is never even looked up.
pub proof fn lemma_hook_actions(profile: Profile, events: Seq<HookEvent>)
    ensures
        hook_state_after(profile, events).profile == profile,
        match hook_state_after(profile, events).stage {
            HookStage::Idle => hook_actions_of(profile, events) == Seq::<HookAction>::empty(),
            HookStage::Resolving => profile == Profile::Debug && hook_actions_of(profile, events)
                == seq![HookAction::Resolve],
            HookStage::Done => match profile {
                Profile::Release => hook_actions_of(profile, events) == seq![HookAction::Return],
                Profile::Debug => hook_actions_of(profile, events) == seq![
                    HookAction::Resolve,
                    HookAction::OpenDevtools,
                ] || hook_actions_of(profile, events) == seq![
                    HookAction::Resolve,
                    HookAction::Return,
                ],
            },
        },
    decreases events.len(),
{
    if events.len() > 0 {
        lemma_hook_actions(profile, events.drop_last());
    }
}

/// In a release build the developer tools are never opened, whatever the
/// host reports about its windows.
pub proof fn lemma_release_never_opens(events: Seq<HookEvent>)
    ensures
        openings(hook_actions_of(Profile::Release, events)) == 0,
        !hook_actions_of(Profile::Release, events).contains(HookAction::Resolve),
{
    lemma_hook_actions(Profile::Release, events);
    lemma_openings_of_each_run();
    let actions = hook_actions_of(Profile::Release, events);
    if actions.contains(HookAction::Resolve) {
        let i = choose|i: int| 0 <= i < actions.len() && actions[i] == HookAction::Resolve;
        assert(actions[i] == HookAction::Resolve);
    }
}

/// In no build are the developer tools opened more than once.
pub proof fn lemma_opens_at_most_once(profile: Profile, events: Seq<HookEvent>)
    ensures
        openings(hook_actions_of(profile, events)) <= 1,
{
    lemma_hook_actions(profile, events);
    lemma_openings_of_each_run();
}

/// In a debug build with the main window present the developer tools are
/// opened exactly once; with no such window they are not opened, and the
/// hook still returns success.
pub proof fn lemma_debug_opens_iff_found()
    ensures
        hook_actions_of(Profile::Debug, seq![HookEvent::Invoked, HookEvent::Found]) == seq![
            HookAction::Resolve,
            HookAction::OpenDevtools,
        ],
        openings(hook_actions_of(Profile::Debug, seq![HookEvent::Invoked, HookEvent::Found])) == 1,
        hook_actions_of(Profile::Debug, seq![HookEvent::Invoked, HookEvent::Missing]) == seq![
            HookAction::Resolve,
            HookAction::Return,
        ],
        openings(hook_actions_of(Profile::Debug, seq![HookEvent::Invoked, HookEvent::Missing]))
            == 0,
{
    let found = seq![HookEvent::Invoked, HookEvent::Found];
    let missing = seq![HookEvent::Invoked, HookEvent::Missing];
    let invoked = seq![HookEvent::Invoked];
    assert(found.drop_last() == invoked);
    assert(missing.drop_last() == invoked);
    assert(invoked.drop_last() == Seq::<HookEvent>::empty());
    assert(hook_state_after(Profile::Debug, invoked.drop_last()) == hook_initial(Profile::Debug));
    assert(hook_state_after(Profile::Debug, invoked).stage == HookStage::Resolving);
    assert(hook_actions_of(Profile::Debug, invoked.drop_last()) == Seq::<HookAction>::empty());
    assert(hook_actions_of(Profile::Debug, invoked) == seq![HookAction::Resolve]);
    assert(hook_actions_of(Profile::Debug, found) == seq![
        HookAction::Resolve,
        HookAction::OpenDevtools,
    ]);
    assert(hook_actions_of(Profile::Debug, missing) == seq![
        HookAction::Resolve,
        HookAction::Return,
    ]);
    lemma_openings_of_each_run();
}

/// The number of openings in each sequence of actions a hook can produce.
proof fn lemma_openings_of_each_run()
    ensures
        openings(Seq::<HookAction>::empty()) == 0,
        openings(seq![HookAction::Resolve]) == 0,
        openings(seq![HookAction::Return]) == 0,
        openings(seq![HookAction::Resolve, HookAction::Return]) == 0,
        openings(seq![HookAction::Resolve, HookAction::OpenDevtools]) == 1,
{
    let opens = |a: HookAction| a == HookAction::OpenDevtools;
    let none = Seq::<HookAction>::empty();
    let r = seq![HookAction::Resolve];
    let t = seq![HookAction::Return];
    let rt = seq![HookAction::Resolve, HookAction::Return];
    let ro = seq![HookAction::Resolve, HookAction::OpenDevtools];
    reveal(Seq::filter);
    assert(none.filter(opens) == none);
    assert(r.drop_last() == none);
    assert(t.drop_last() == none);
    assert(rt.drop_last() == r);
    assert(ro.drop_last() == r);
    assert(r.filter(opens) == none);
    assert(t.filter(opens) == none);
    assert(rt.filter(opens) == none);
    assert(ro.filter(opens) == seq![HookAction::OpenDevtools]);
}

/// The setup hook.
pub struct SetupHook {
    profile: Profile,
    stage: HookStage,
}

impl View for SetupHook {
    type V = HookState;

    closed spec fn view(&self) -> HookState {
        HookState { profile: self.profile, stage: self.stage }
    }
}

impl SetupHook {
    /// A hook for a binary of `profile`, not yet invoked.
    pub fn new(profile: Profile) -> (hook: Self)
        ensures
            hook@ == hook_initial(profile),
    {
        SetupHook { profile, stage: HookStage::Idle }
    }

    /// Takes `event` and says what the host is to do next.
    pub fn step(&mut self, event: HookEvent) -> (action: Option<HookAction>)
        ensures
            (final(self)@, action) == hook_next(old(self)@, event),
    {
        match (self.stage, event) {
            (HookStage::Idle, HookEvent::Invoked) => match self.profile {
                Profile::Debug => {
                    self.stage = HookStage::Resolving;
                    Some(HookAction::Resolve)
                },
                Profile::Release => {
                    self.stage = HookStage::Done;
                    Some(HookAction::Return)
                },
            },
            (HookStage::Resolving, HookEvent::Found) => {
                self.stage = HookStage::Done;
                Some(HookAction::OpenDevtools)
            },
            (HookStage::Resolving, HookEvent::Missing) => {
                self.stage = HookStage::Done;
                Some(HookAction::Return)
            },
            _ => None,
        }
    }
}

} // verus!
