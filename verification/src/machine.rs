//! The poll loop state machine: one call per scheduler tick. The host
//! performs every remote read and timer operation; this machine takes the
//! tick's observations (attachment, process liveness, resolution attempt,
//! memory chase outcome, timer phase, toggle values) and decides the session
//! state transition and the exact sequence of timer commands to issue.
use vstd::prelude::*;
use crate::rules::{
    spec_start, spec_split, spec_reset, start, split, reset, is_loading, game_time,
    lemma_all_zero_fires_nothing, lemma_unchanged_fires_nothing,
};
use crate::sample::{SAMPLE_LEN, all_zero, truncated, zero_sample, truncate_sample};
use crate::settings::Settings;
use crate::watcher::DialogueWatcher;

verus! {

/// Phase of the external timer, as queried from the host at the start of the
/// tick.
#[derive(Clone, Copy, PartialEq, Eq, Structural, Debug)]
pub enum TimerPhase {
    /// No run is in progress.
    NotRunning,
    /// A run is in progress and game time advances.
    Running,
    /// A run is in progress with game time paused.
    Paused,
}

/// One timer operation for the host to issue, in the order listed.
#[derive(Clone, Copy, PartialEq, Eq, Structural, Debug)]
pub enum TimerCommand {
    /// Start a new run.
    Start,
    /// Split the current run.
    Split,
    /// Reset the current run.
    Reset,
    /// Pause the game-time counter.
    PauseGameTime,
    /// Resume the game-time counter.
    ResumeGameTime,
    /// Force the game-time counter to the given nanosecond value.
    SetGameTime(i64),
}

/// Everything the host observed for one tick.
#[derive(Clone, Copy)]
pub struct TickInput {
    /// When unattached: whether this tick's attachment attempt succeeded.
    pub attach_ok: bool,
    /// When attached: whether the process handle still reports open.
    pub process_open: bool,
    /// Result of this tick's address resolution attempt, when one was made.
    pub resolution: Option<u64>,
    /// The raw dialogue buffer, or `None` when any step of the memory chase
    /// failed this tick.
    pub raw_dialogue: Option<[u16; SAMPLE_LEN]>,
    /// The external timer's phase.
    pub phase: TimerPhase,
    /// The toggle values, re-read this tick.
    pub settings: Settings,
}

/// The poll loop's own state: whether an attach session is live, the
/// session's resolved dialogue base address, and the session's watcher pair.
pub struct Machine {
    /// An attach session is live.
    pub attached: bool,
    /// The session's resolved dialogue base address; `None` until resolution
    /// succeeds, then cached for the rest of the session.
    pub resolved: Option<u64>,
    /// The session's watcher pair.
    pub watcher: DialogueWatcher,
}

/// Outside a session no resolved address and no sample pair may linger.
pub open spec fn machine_wf(m: Machine) -> bool {
    !m.attached ==> m.resolved is None && m.watcher.pair is None
}

/// A live session carries over into this tick: attached and still open.
pub open spec fn session_continues(pre: Machine, input: TickInput) -> bool {
    pre.attached && input.process_open
}

/// A session is live during this tick, whether carried over or freshly
/// attached.
pub open spec fn session_active(pre: Machine, input: TickInput) -> bool {
    session_continues(pre, input) || (!pre.attached && input.attach_ok)
}

/// The watcher the tick works on: the session's own when it carries over, a
/// fresh one when the session was just created.
pub open spec fn entry_watcher(pre: Machine, input: TickInput) -> DialogueWatcher {
    if session_continues(pre, input) {
        pre.watcher
    } else {
        DialogueWatcher { pair: None }
    }
}

/// The sample a chase outcome yields: the zero-truncated buffer on success,
/// all zeroes on failure.
pub open spec fn spec_sample(raw: Option<[u16; SAMPLE_LEN]>) -> Seq<u16> {
    match raw {
        Some(b) => truncated(b@),
        None => zero_sample(),
    }
}

/// The current sample after this tick's refresh.
pub open spec fn post_current(input: TickInput) -> Seq<u16> {
    spec_sample(input.raw_dialogue)
}

/// The previous sample after this tick's refresh: the watcher's old current
/// sample, or this tick's sample when the pair is fresh.
pub open spec fn post_previous(pre: Machine, input: TickInput) -> Seq<u16> {
    match entry_watcher(pre, input).pair {
        Some(p) => p.current@,
        None => spec_sample(input.raw_dialogue),
    }
}

/// The exact command sequence a tick issues, given the refreshed pair, the
/// timer phase and the toggles. While a run is in progress, reset wins over
/// split and start is never evaluated; while no run is in progress, only
/// start is evaluated, and a fresh start immediately pauses game time.
/// Loading and custom game time are always absent for this title, so they
/// contribute no commands.
pub open spec fn expected_commands(
    prev: Seq<u16>,
    cur: Seq<u16>,
    phase: TimerPhase,
    s: Settings,
) -> Seq<TimerCommand> {
    match phase {
        TimerPhase::NotRunning => if spec_start(prev, cur, s) {
            seq![TimerCommand::Start, TimerCommand::PauseGameTime]
        } else {
            Seq::empty()
        },
        TimerPhase::Running | TimerPhase::Paused => if spec_reset(prev, cur, s) {
            seq![TimerCommand::Reset]
        } else if spec_split(prev, cur, s) {
            seq![TimerCommand::Split]
        } else {
            Seq::empty()
        },
    }
}

impl Machine {
    /// A machine with no session: nothing attached, nothing resolved, no
    /// sample pair.
    pub fn new() -> (m: Machine)
        ensures
            !m.attached,
            m.resolved is None,
            m.watcher.pair is None,
            machine_wf(m),
    {
        Machine { attached: false, resolved: None, watcher: DialogueWatcher::new() }
    }

    /// Runs one tick, in the fixed order: attach or tear down, then attempt
    /// resolution if still unresolved, then refresh the watcher, then map the
    /// refreshed pair onto timer commands according to the timer phase.
    pub fn tick(&mut self, input: &TickInput) -> (out: Vec<TimerCommand>)
        requires
            machine_wf(*old(self)),
        ensures
            machine_wf(*final(self)),
            final(self).attached == session_active(*old(self), *input),
            !session_active(*old(self), *input) ==> final(self).resolved is None
                && final(self).watcher.pair is None && out@ == Seq::<TimerCommand>::empty(),
            session_active(*old(self), *input) ==> {
                &&& final(self).resolved == (if session_continues(*old(self), *input)
                    && old(self).resolved is Some {
                    old(self).resolved
                } else {
                    input.resolution
                })
                &&& final(self).watcher.pair is Some
                &&& final(self).watcher.pair->Some_0.current@ == post_current(*input)
                &&& final(self).watcher.pair->Some_0.previous@ == post_previous(
                    *old(self),
                    *input,
                )
                &&& out@ == expected_commands(
                    post_previous(*old(self), *input),
                    post_current(*input),
                    input.phase,
                    input.settings,
                )
            },
    {
        if !self.attached {
            if !input.attach_ok {
                return Vec::new();
            }
            self.attached = true;
            self.resolved = None;
            self.watcher = DialogueWatcher::new();
        } else if !input.process_open {
            self.attached = false;
            self.resolved = None;
            self.watcher = DialogueWatcher::new();
            return Vec::new();
        }
        if self.resolved.is_none() {
            self.resolved = input.resolution;
        }
        let sampled: [u16; SAMPLE_LEN] = match &input.raw_dialogue {
            Some(raw) => truncate_sample(raw),
            None => [0u16; SAMPLE_LEN],
        };
        proof {
            assert(sampled@ =~= spec_sample(input.raw_dialogue));
        }
        self.watcher.update(sampled);
        let mut out: Vec<TimerCommand> = Vec::new();
        let in_run: bool = match input.phase {
            TimerPhase::Running => true,
            TimerPhase::Paused => true,
            TimerPhase::NotRunning => false,
        };
        if in_run {
            match is_loading(&self.watcher, &input.settings) {
                Some(true) => out.push(TimerCommand::PauseGameTime),
                Some(false) => out.push(TimerCommand::ResumeGameTime),
                None => {},
            }
            if let Some(t) = game_time(&self.watcher, &input.settings) {
                out.push(TimerCommand::SetGameTime(t));
            }
            if reset(&self.watcher, &input.settings) {
                out.push(TimerCommand::Reset);
            } else if split(&self.watcher, &input.settings) {
                out.push(TimerCommand::Split);
            }
        } else if start(&self.watcher, &input.settings) {
            out.push(TimerCommand::Start);
            out.push(TimerCommand::PauseGameTime);
            match is_loading(&self.watcher, &input.settings) {
                Some(true) => out.push(TimerCommand::PauseGameTime),
                Some(false) => out.push(TimerCommand::ResumeGameTime),
                None => {},
            }
        }
        proof {
            assert(out@ =~= expected_commands(
                post_previous(*old(self), *input),
                post_current(*input),
                input.phase,
                input.settings,
            ));
        }
        out
    }
}

/// Reset and split are mutually exclusive within one tick: when the reset
/// and split conditions would both hold while a run is in progress, the tick
/// issues exactly one reset and no split.
pub proof fn lemma_reset_wins(prev: Seq<u16>, cur: Seq<u16>, phase: TimerPhase, s: Settings)
    requires
        phase is Running || phase is Paused,
        spec_reset(prev, cur, s),
        spec_split(prev, cur, s),
    ensures
        expected_commands(prev, cur, phase, s) == seq![TimerCommand::Reset],
        !expected_commands(prev, cur, phase, s).contains(TimerCommand::Split),
{
    assert(!expected_commands(prev, cur, phase, s).contains(TimerCommand::Split)) by {
        if expected_commands(prev, cur, phase, s).contains(TimerCommand::Split) {
            let i = choose|i: int|
                0 <= i < expected_commands(prev, cur, phase, s).len()
                    && expected_commands(prev, cur, phase, s)[i] == TimerCommand::Split;
        }
    }
}

/// Phase gating: a tick never issues a start while a run is in progress, and
/// never issues a split or reset while no run is in progress.
pub proof fn lemma_phase_gating(prev: Seq<u16>, cur: Seq<u16>, phase: TimerPhase, s: Settings)
    ensures
        phase is Running || phase is Paused ==> !expected_commands(prev, cur, phase, s).contains(
            TimerCommand::Start,
        ),
        phase is NotRunning ==> !expected_commands(prev, cur, phase, s).contains(TimerCommand::Split)
            && !expected_commands(prev, cur, phase, s).contains(TimerCommand::Reset),
{
    let cmds = expected_commands(prev, cur, phase, s);
    if phase is Running || phase is Paused {
        assert(!cmds.contains(TimerCommand::Start)) by {
            if cmds.contains(TimerCommand::Start) {
                let i = choose|i: int| 0 <= i < cmds.len() && cmds[i] == TimerCommand::Start;
            }
        }
    } else {
        assert(!cmds.contains(TimerCommand::Split)) by {
            if cmds.contains(TimerCommand::Split) {
                let i = choose|i: int| 0 <= i < cmds.len() && cmds[i] == TimerCommand::Split;
            }
        }
        assert(!cmds.contains(TimerCommand::Reset)) by {
            if cmds.contains(TimerCommand::Reset) {
                let i = choose|i: int| 0 <= i < cmds.len() && cmds[i] == TimerCommand::Reset;
            }
        }
    }
}

/// A tick whose memory chase failed degrades to the all-zero sample, and
/// that sample never triggers a start or a reset, because no trigger
/// constant is all-zero. When the previous sample is all-zero as well, the
/// tick issues no command at all.
pub proof fn lemma_failed_chase_quiet(pre: Machine, input: TickInput)
    requires
        input.raw_dialogue is None,
    ensures
        all_zero(post_current(input)),
        !expected_commands(
            post_previous(pre, input),
            post_current(input),
            input.phase,
            input.settings,
        ).contains(TimerCommand::Start),
        !expected_commands(
            post_previous(pre, input),
            post_current(input),
            input.phase,
            input.settings,
        ).contains(TimerCommand::Reset),
        all_zero(post_previous(pre, input)) && post_previous(pre, input).len() == SAMPLE_LEN
            ==> expected_commands(
            post_previous(pre, input),
            post_current(input),
            input.phase,
            input.settings,
        ) == Seq::<TimerCommand>::empty(),
{
    let prev = post_previous(pre, input);
    let cur = post_current(input);
    let s = input.settings;
    lemma_all_zero_fires_nothing(prev, cur, s);
    lemma_phase_gating(prev, cur, input.phase, s);
    let cmds = expected_commands(prev, cur, input.phase, s);
    if input.phase is Running || input.phase is Paused {
        assert(!cmds.contains(TimerCommand::Reset)) by {
            if cmds.contains(TimerCommand::Reset) {
                let i = choose|i: int| 0 <= i < cmds.len() && cmds[i] == TimerCommand::Reset;
            }
        }
    }
}

/// Idempotence: when two consecutive ticks of one live session observe
/// identical raw memory, the second tick's pair reports no change and the
/// second tick issues no command. `mid` is the machine state after the first
/// tick, as `tick`'s postcondition describes it.
pub proof fn lemma_identical_memory_quiet(
    pre: Machine,
    first: TickInput,
    mid: Machine,
    second: TickInput,
)
    requires
        first.raw_dialogue == second.raw_dialogue,
        session_active(pre, first),
        mid.attached,
        mid.watcher.pair is Some,
        mid.watcher.pair->Some_0.current@ == post_current(first),
        second.process_open,
    ensures
        post_previous(mid, second) == post_current(second),
        expected_commands(
            post_previous(mid, second),
            post_current(second),
            second.phase,
            second.settings,
        ) == Seq::<TimerCommand>::empty(),
{
    let prev = post_previous(mid, second);
    let cur = post_current(second);
    lemma_unchanged_fires_nothing(prev, cur, second.settings);
}

} // verus!
