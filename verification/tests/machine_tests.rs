use mosth_autosplitter::machine::{Machine, TickInput, TimerCommand, TimerPhase};
use mosth_autosplitter::sample::SAMPLE_LEN;
use mosth_autosplitter::settings::Settings;
use mosth_autosplitter::text::{start_scribble, reset_line, station_end};
use mosth_autosplitter::watcher::{DialogueWatcher, SamplePair};

fn zeros() -> [u16; SAMPLE_LEN] {
    [0u16; SAMPLE_LEN]
}

fn attached_machine(previous: [u16; SAMPLE_LEN], current: [u16; SAMPLE_LEN]) -> Machine {
    Machine {
        attached: true,
        resolved: Some(0x1000),
        watcher: DialogueWatcher { pair: Some(SamplePair { previous, current }) },
    }
}

fn tick_input(raw: Option<[u16; SAMPLE_LEN]>, phase: TimerPhase, settings: Settings) -> TickInput {
    TickInput {
        attach_ok: false,
        process_open: true,
        resolution: None,
        raw_dialogue: raw,
        phase,
        settings,
    }
}

#[test]
fn start_scenario_fires_start_then_pauses_game_time() {
    // Dialogue goes from all-zero to the start line while no run is in
    // progress: the timer starts and game time is paused right away;
    // loading is always absent here, so nothing follows.
    let mut m = attached_machine(zeros(), zeros());
    let input = tick_input(Some(start_scribble()), TimerPhase::NotRunning, Settings::default());
    let out = m.tick(&input);
    assert_eq!(out, vec![TimerCommand::Start, TimerCommand::PauseGameTime]);
}

#[test]
fn start_scenario_respects_disabled_toggle() {
    let mut m = attached_machine(zeros(), zeros());
    let s = Settings { start: false, ..Settings::default() };
    let input = tick_input(Some(start_scribble()), TimerPhase::NotRunning, s);
    let out = m.tick(&input);
    assert_eq!(out, vec![]);
}

#[test]
fn station_split_scenario_fires_exactly_once() {
    // While running, the previous sample equals the station checkpoint and
    // the sample changes: exactly one split.
    let mut m = attached_machine(zeros(), station_end());
    let mut after = zeros();
    after[0] = 7;
    let input = tick_input(Some(after), TimerPhase::Running, Settings::default());
    let out = m.tick(&input);
    assert_eq!(out, vec![TimerCommand::Split]);
}

#[test]
fn station_split_scenario_respects_disabled_toggle() {
    let mut m = attached_machine(zeros(), station_end());
    let mut after = zeros();
    after[0] = 7;
    let s = Settings { station: false, ..Settings::default() };
    let input = tick_input(Some(after), TimerPhase::Running, s);
    let out = m.tick(&input);
    assert_eq!(out, vec![]);
}

#[test]
fn reset_scenario_suppresses_same_tick_split() {
    // Previous sample is a checkpoint and the current sample becomes the
    // reset line: both conditions hold, only the reset is issued.
    let mut m = attached_machine(zeros(), station_end());
    let input = tick_input(Some(reset_line()), TimerPhase::Running, Settings::default());
    let out = m.tick(&input);
    assert_eq!(out, vec![TimerCommand::Reset]);
}

#[test]
fn closed_process_scenario_clears_session_and_reattaches() {
    // The handle reports closed mid-session: everything session-bound is
    // dropped; the next tick attaches afresh and starts a new pair.
    let mut m = attached_machine(station_end(), reset_line());
    let closed = TickInput {
        attach_ok: false,
        process_open: false,
        resolution: None,
        raw_dialogue: None,
        phase: TimerPhase::Running,
        settings: Settings::default(),
    };
    let out = m.tick(&closed);
    assert_eq!(out, vec![]);
    assert!(!m.attached);
    assert!(m.resolved.is_none());
    assert!(m.watcher.pair.is_none());

    let reattach = TickInput {
        attach_ok: true,
        process_open: true,
        resolution: Some(0x2000),
        raw_dialogue: Some(start_scribble()),
        phase: TimerPhase::NotRunning,
        settings: Settings::default(),
    };
    let out = m.tick(&reattach);
    assert!(m.attached);
    assert_eq!(m.resolved, Some(0x2000));
    // A fresh pair holds the new sample twice, so nothing fires even though
    // the current sample equals the start line.
    let p = m.watcher.pair.as_ref().unwrap();
    assert_eq!(p.previous, start_scribble());
    assert_eq!(p.current, start_scribble());
    assert_eq!(out, vec![]);
}

#[test]
fn failed_chase_degrades_to_all_zero_and_stays_quiet() {
    // Any failed step of the memory chase yields the all-zero sample, and
    // that sample matches no constant, so nothing fires.
    let mut m = attached_machine(zeros(), zeros());
    let input = tick_input(None, TimerPhase::Running, Settings::default());
    let out = m.tick(&input);
    assert_eq!(out, vec![]);
    assert_eq!(m.watcher.pair.as_ref().unwrap().current, zeros());

    let mut m2 = attached_machine(zeros(), zeros());
    let input2 = tick_input(None, TimerPhase::NotRunning, Settings::default());
    assert_eq!(m2.tick(&input2), vec![]);
}

#[test]
fn identical_memory_on_consecutive_ticks_is_quiet() {
    let mut m = attached_machine(zeros(), zeros());
    let input = tick_input(Some(reset_line()), TimerPhase::Running, Settings::default());
    let first = m.tick(&input);
    assert_eq!(first, vec![TimerCommand::Reset]);
    // Same raw memory again: no change, no command, for any phase.
    let second = m.tick(&input);
    assert_eq!(second, vec![]);
    let p = m.watcher.pair.as_ref().unwrap();
    assert_eq!(p.previous, p.current);
    let third = m.tick(&tick_input(
        Some(reset_line()),
        TimerPhase::NotRunning,
        Settings::default(),
    ));
    assert_eq!(third, vec![]);
}

#[test]
fn start_never_fires_while_running_or_paused() {
    for phase in [TimerPhase::Running, TimerPhase::Paused] {
        let mut m = attached_machine(zeros(), zeros());
        let input = tick_input(Some(start_scribble()), phase, Settings::default());
        let out = m.tick(&input);
        assert!(!out.contains(&TimerCommand::Start));
    }
}

#[test]
fn split_and_reset_never_fire_while_not_running() {
    let mut m = attached_machine(zeros(), station_end());
    let input = tick_input(Some(reset_line()), TimerPhase::NotRunning, Settings::default());
    let out = m.tick(&input);
    assert!(!out.contains(&TimerCommand::Split));
    assert!(!out.contains(&TimerCommand::Reset));
    assert_eq!(out, vec![]);
}

#[test]
fn resolution_is_attempted_until_it_succeeds_then_cached() {
    let mut m = Machine::new();
    let attach = TickInput {
        attach_ok: true,
        process_open: true,
        resolution: None,
        raw_dialogue: None,
        phase: TimerPhase::NotRunning,
        settings: Settings::default(),
    };
    m.tick(&attach);
    assert!(m.attached);
    assert!(m.resolved.is_none());

    // Failure leaves it unresolved; the next tick retries.
    let resolved_now = TickInput { resolution: Some(0x4000), ..attach };
    m.tick(&resolved_now);
    assert_eq!(m.resolved, Some(0x4000));

    // Once resolved, a later attempt's value is ignored for this session.
    let other = TickInput { resolution: Some(0x9999), ..attach };
    m.tick(&other);
    assert_eq!(m.resolved, Some(0x4000));
}

#[test]
fn unattached_machine_waits_for_attachment() {
    let mut m = Machine::new();
    let input = TickInput {
        attach_ok: false,
        process_open: false,
        resolution: None,
        raw_dialogue: None,
        phase: TimerPhase::NotRunning,
        settings: Settings::default(),
    };
    let out = m.tick(&input);
    assert_eq!(out, vec![]);
    assert!(!m.attached);
    assert!(m.watcher.pair.is_none());
}

#[test]
fn watcher_refresh_happens_in_every_phase() {
    // The refresh runs unconditionally, before any event evaluation.
    for phase in [TimerPhase::NotRunning, TimerPhase::Running, TimerPhase::Paused] {
        let mut m = attached_machine(zeros(), zeros());
        let mut text = zeros();
        text[0] = 42;
        m.tick(&tick_input(Some(text), phase, Settings::default()));
        assert_eq!(m.watcher.pair.as_ref().unwrap().current, text);
    }
}
