use app_shell::sequencer::{Action, Event, Phase, Plugin, Sequencer, FATAL_MESSAGE};

fn configured() -> Sequencer {
    let mut s = Sequencer::new();
    for _ in 0..5 {
        s.step(Event::Ready);
    }
    s
}

#[test]
fn starts_unconfigured() {
    assert_eq!(Sequencer::new().phase(), Phase::Unconfigured);
}

#[test]
fn plugins_come_in_fixed_order() {
    let mut s = Sequencer::new();
    assert_eq!(s.step(Event::Ready), Some(Action::Attach(Plugin::Updater)));
    assert_eq!(s.step(Event::Ready), Some(Action::Attach(Plugin::Process)));
    assert_eq!(s.step(Event::Ready), Some(Action::Attach(Plugin::Opener)));
}

#[test]
fn whole_sequence_to_a_clean_end() {
    let mut s = Sequencer::new();
    let mut actions = Vec::new();
    for _ in 0..6 {
        actions.push(s.step(Event::Ready));
    }
    assert_eq!(
        actions,
        vec![
            Some(Action::Attach(Plugin::Updater)),
            Some(Action::Attach(Plugin::Process)),
            Some(Action::Attach(Plugin::Opener)),
            Some(Action::RegisterCommands),
            Some(Action::InstallSetupHook),
            Some(Action::Run),
        ]
    );
    assert_eq!(s.phase(), Phase::Running);
    assert_eq!(s.step(Event::LoopEnded), Some(Action::Exit));
    assert_eq!(s.phase(), Phase::Terminated);
}

#[test]
fn phase_changes_only_when_the_plan_is_done() {
    let mut s = Sequencer::new();
    for _ in 0..4 {
        s.step(Event::Ready);
        assert_eq!(s.phase(), Phase::Unconfigured);
    }
    s.step(Event::Ready);
    assert_eq!(s.phase(), Phase::Configured);
}

#[test]
fn two_runs_give_the_same_actions() {
    let mut a = Sequencer::new();
    let mut b = Sequencer::new();
    for _ in 0..6 {
        assert_eq!(a.step(Event::Ready), b.step(Event::Ready));
    }
}

#[test]
fn start_failure_aborts() {
    let mut s = configured();
    assert_eq!(s.step(Event::Ready), Some(Action::Run));
    assert_eq!(s.step(Event::LoopFailed), Some(Action::Abort));
    assert_eq!(s.phase(), Phase::Terminated);
}

#[test]
fn nothing_follows_termination() {
    let mut s = configured();
    s.step(Event::Ready);
    s.step(Event::LoopFailed);
    for event in [Event::Ready, Event::LoopFailed, Event::LoopEnded] {
        assert_eq!(s.step(event), None);
        assert_eq!(s.phase(), Phase::Terminated);
    }
}

#[test]
fn loop_events_mean_nothing_before_the_loop_starts() {
    let mut s = Sequencer::new();
    assert_eq!(s.step(Event::LoopFailed), None);
    assert_eq!(s.step(Event::LoopEnded), None);
    assert_eq!(s.phase(), Phase::Unconfigured);
    assert_eq!(s.step(Event::Ready), Some(Action::Attach(Plugin::Updater)));

    let mut c = configured();
    assert_eq!(c.step(Event::LoopEnded), None);
    assert_eq!(c.step(Event::LoopFailed), None);
    assert_eq!(c.phase(), Phase::Configured);
    assert_eq!(c.step(Event::Ready), Some(Action::Run));
}

#[test]
fn ready_means_nothing_while_running() {
    let mut s = configured();
    s.step(Event::Ready);
    assert_eq!(s.step(Event::Ready), None);
    assert_eq!(s.phase(), Phase::Running);
    assert_eq!(s.step(Event::LoopEnded), Some(Action::Exit));
}

#[test]
fn the_loop_is_started_once() {
    let mut s = Sequencer::new();
    let events = [
        Event::Ready,
        Event::LoopEnded,
        Event::Ready,
        Event::Ready,
        Event::LoopFailed,
        Event::Ready,
        Event::Ready,
        Event::Ready,
        Event::Ready,
        Event::Ready,
        Event::LoopEnded,
        Event::Ready,
        Event::LoopEnded,
    ];
    let mut runs = 0;
    let mut endings = 0;
    for event in events {
        match s.step(event) {
            Some(Action::Run) => runs += 1,
            Some(Action::Exit) | Some(Action::Abort) => endings += 1,
            _ => {}
        }
    }
    assert_eq!(runs, 1);
    assert_eq!(endings, 1);
}

#[test]
fn fatal_message_text() {
    assert_eq!(FATAL_MESSAGE, "error while running tauri application");
}
