//! The monitor that turns hotkey reports into translation runs: it ignores
//! the hotkey while switched off, and lets only one run go at a time.

use vstd::prelude::*;

use crate::config::DEFAULT_SETTLE_DELAY_MS;
use crate::keyboard_hook::KeyEvent;

verus! {

/// The monitor's state: switched on or off, whether a run is going, and
/// the copy/paste wait that runs use.
#[derive(Debug, Clone, Copy, PartialEq, Eq, Structural)]
pub struct MonitorState {
    pub enabled: bool,
    pub busy: bool,
    pub settle_delay_ms: u64,
}

/// What the monitor does with a hotkey report.
#[derive(Debug, Clone, Copy, PartialEq, Eq, Structural)]
pub enum MonitorAction {
    /// Start a translation run that waits `settle_delay_ms` for copy and
    /// paste to settle.
    StartTranslation { settle_delay_ms: u64 },
    /// Ignored: the monitor is switched off.
    IgnoredDisabled,
    /// Ignored: a run is already going.
    IgnoredBusy,
}

/// The monitor's response to a hotkey report in state `s`: the next state
/// and the action.
pub open spec fn monitor_step(s: MonitorState, event: KeyEvent) -> (MonitorState, MonitorAction) {
    match event {
        KeyEvent::TranslateSelection => if !s.enabled {
            (s, MonitorAction::IgnoredDisabled)
        } else if s.busy {
            (s, MonitorAction::IgnoredBusy)
        } else {
            (
                MonitorState { enabled: true, busy: true, settle_delay_ms: s.settle_delay_ms },
                MonitorAction::StartTranslation { settle_delay_ms: s.settle_delay_ms },
            )
        },
    }
}

/// Decides, for each hotkey report, whether a translation run starts.
pub struct InputMonitor {
    state: MonitorState,
}

impl View for InputMonitor {
    type V = MonitorState;

    closed spec fn view(&self) -> MonitorState {
        self.state
    }
}

impl InputMonitor {
    /// Switched on, idle, with the default copy/paste wait.
    pub fn new() -> (r: Self)
        ensures
            r@ == (MonitorState {
                enabled: true,
                busy: false,
                settle_delay_ms: DEFAULT_SETTLE_DELAY_MS,
            }),
    {
        InputMonitor {
            state: MonitorState {
                enabled: true,
                busy: false,
                settle_delay_ms: DEFAULT_SETTLE_DELAY_MS,
            },
        }
    }

    /// Switch the monitor on or off; a run that is going is not affected.
    pub fn set_enabled(&mut self, val: bool)
        ensures
            final(self)@ == (MonitorState {
                enabled: val,
                busy: old(self)@.busy,
                settle_delay_ms: old(self)@.settle_delay_ms,
            }),
    {
        self.state.enabled = val;
    }

    /// Use `ms` as the copy/paste wait of the following runs.
    pub fn set_settle_delay_ms(&mut self, ms: u64)
        ensures
            final(self)@ == (MonitorState {
                enabled: old(self)@.enabled,
                busy: old(self)@.busy,
                settle_delay_ms: ms,
            }),
    {
        self.state.settle_delay_ms = ms;
    }

    /// The copy/paste wait that runs use.
    pub fn settle_delay_ms(&self) -> (r: u64)
        ensures
            r == self@.settle_delay_ms,
    {
        self.state.settle_delay_ms
    }

    /// Whether the monitor is switched on.
    pub fn is_enabled(&self) -> (r: bool)
        ensures
            r == self@.enabled,
    {
        self.state.enabled
    }

    /// Whether a translation run is going.
    pub fn is_busy(&self) -> (r: bool)
        ensures
            r == self@.busy,
    {
        self.state.busy
    }

    /// Asks the monitor to start a translation run for a hotkey report. A
    /// run starts only when the monitor is switched on and no run is going;
    /// a report that comes while a run is going is dropped, not queued, and
    /// leaves the monitor as it was.
    pub fn start(&mut self, event: KeyEvent) -> (r: MonitorAction)
        ensures
            (final(self)@, r) == monitor_step(old(self)@, event),
            r is StartTranslation <==> old(self)@.enabled && !old(self)@.busy,
            r is StartTranslation ==> final(self)@.busy,
            !(r is StartTranslation) ==> final(self)@ == old(self)@,
            old(self)@.enabled && old(self)@.busy ==> r == MonitorAction::IgnoredBusy,
    {
        match event {
            KeyEvent::TranslateSelection => {
                if !self.state.enabled {
                    MonitorAction::IgnoredDisabled
                } else if self.state.busy {
                    MonitorAction::IgnoredBusy
                } else {
                    self.state.busy = true;
                    MonitorAction::StartTranslation { settle_delay_ms: self.state.settle_delay_ms }
                }
            },
        }
    }

    /// A translation run has ended (whatever its outcome): the monitor is idle.
    pub fn finish_translation(&mut self)
        ensures
            final(self)@ == (MonitorState {
                enabled: old(self)@.enabled,
                busy: false,
                settle_delay_ms: old(self)@.settle_delay_ms,
            }),
    {
        self.state.busy = false;
    }
}

/// The state after `n` hotkey reports in a row, with no run finishing and
/// no switching in between.
pub open spec fn after_presses(s: MonitorState, n: nat) -> MonitorState
    decreases n,
{
    if n == 0 {
        s
    } else {
        monitor_step(after_presses(s, (n - 1) as nat), KeyEvent::TranslateSelection).0
    }
}

/// One run at a time: once a run has started, every further report is
/// ignored until the run finishes.
pub proof fn law_single_run_at_a_time(s: MonitorState, n: nat)
    requires
        monitor_step(s, KeyEvent::TranslateSelection).1 is StartTranslation,
    ensures
        ({
            let running = monitor_step(s, KeyEvent::TranslateSelection).0;
            &&& after_presses(running, n) == running
            &&& monitor_step(after_presses(running, n), KeyEvent::TranslateSelection).1
                == MonitorAction::IgnoredBusy
        }),
    decreases n,
{
    if n > 0 {
        law_single_run_at_a_time(s, (n - 1) as nat);
    }
}

/// While switched off, a report never starts a run and changes nothing.
pub proof fn law_disabled_never_starts(s: MonitorState)
    requires
        !s.enabled,
    ensures
        monitor_step(s, KeyEvent::TranslateSelection) == (s, MonitorAction::IgnoredDisabled),
{
}

/// An enabled, idle monitor starts a run on a report, with its current
/// copy/paste wait.
pub proof fn law_idle_enabled_starts(s: MonitorState)
    requires
        s.enabled,
        !s.busy,
    ensures
        monitor_step(s, KeyEvent::TranslateSelection).1 == (MonitorAction::StartTranslation {
            settle_delay_ms: s.settle_delay_ms,
        }),
{
}

/// One input to the monitor, as its runner sees them: a hotkey report, the
/// end of a translation run (with any outcome), or a switch on or off.
pub enum MonitorInput {
    Hotkey,
    TaskFinished,
    SetEnabled(bool),
}

/// The monitor state after one input (as `start`,
/// `finish_translation` and `set_enabled` change it).
pub open spec fn apply_input(s: MonitorState, input: MonitorInput) -> MonitorState {
    match input {
        MonitorInput::Hotkey => monitor_step(s, KeyEvent::TranslateSelection).0,
        MonitorInput::TaskFinished => MonitorState {
            enabled: s.enabled,
            busy: false,
            settle_delay_ms: s.settle_delay_ms,
        },
        MonitorInput::SetEnabled(b) => MonitorState {
            enabled: b,
            busy: s.busy,
            settle_delay_ms: s.settle_delay_ms,
        },
    }
}

/// Whether an input starts a translation run.
pub open spec fn starts_run(s: MonitorState, input: MonitorInput) -> bool {
    input is Hotkey && monitor_step(s, KeyEvent::TranslateSelection).1 is StartTranslation
}

/// The state after a sequence of inputs from `s0`, and how many runs are
/// going (runs started and not yet finished).
pub open spec fn run_inputs(s0: MonitorState, inputs: Seq<MonitorInput>) -> (MonitorState, nat)
    decreases inputs.len(),
{
    if inputs.len() == 0 {
        (s0, 0)
    } else {
        let (s, running) = run_inputs(s0, inputs.drop_last());
        let input = inputs.last();
        let running_after: nat = if starts_run(s, input) {
            running + 1
        } else if input is TaskFinished && running > 0 {
            (running - 1) as nat
        } else {
            running
        };
        (apply_input(s, input), running_after)
    }
}

/// A run can only report its end while it is going: every `TaskFinished`
/// comes when some run is going.
pub open spec fn finishes_follow_runs(s0: MonitorState, inputs: Seq<MonitorInput>) -> bool {
    forall|k: int|
        0 <= k < inputs.len() ==> (#[trigger] inputs[k] is TaskFinished ==> run_inputs(
            s0,
            inputs.take(k),
        ).1 > 0)
}

/// At most one translation run at any time, whatever the order of hotkey
/// reports, run ends and switches: starting idle, the number of runs going
/// never exceeds one, and the monitor is busy exactly while one is going. So
/// a report that comes while a run is going is dropped, not queued, and once
/// the run ends the next report (while enabled) starts a new run.
pub proof fn law_at_most_one_run(s0: MonitorState, inputs: Seq<MonitorInput>)
    requires
        !s0.busy,
        finishes_follow_runs(s0, inputs),
    ensures
        run_inputs(s0, inputs).1 <= 1,
        run_inputs(s0, inputs).0.busy <==> run_inputs(s0, inputs).1 == 1,
    decreases inputs.len(),
{
    if inputs.len() > 0 {
        let prefix = inputs.drop_last();
        assert forall|k: int|
            0 <= k < prefix.len() && #[trigger] prefix[k] is TaskFinished implies run_inputs(
            s0,
            prefix.take(k),
        ).1 > 0 by {
            assert(prefix[k] == inputs[k]);
            assert(prefix.take(k) =~= inputs.take(k));
        }
        law_at_most_one_run(s0, prefix);
        let last = inputs.last();
        assert(inputs.take(inputs.len() - 1) =~= prefix);
        if last is TaskFinished {
            assert(inputs[inputs.len() - 1] is TaskFinished);
        }
    }
}

/// When a run ends, with any outcome, the monitor is idle again, and the
/// next report while enabled starts a new run.
pub proof fn law_finish_then_hotkey_starts(s: MonitorState)
    requires
        s.enabled,
    ensures
        !apply_input(s, MonitorInput::TaskFinished).busy,
        starts_run(apply_input(s, MonitorInput::TaskFinished), MonitorInput::Hotkey),
{
}

} // verus!
