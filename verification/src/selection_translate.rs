//! The selection workflow: copy the selection (with a fallback shortcut),
//! check it is Chinese, translate it, paste the translation over it, and put
//! back what the clipboard held before. The library decides each step; the
//! caller performs it (keystrokes, clipboard, network) and reports back.

use vstd::prelude::*;

use crate::chinese_detector::{contains_chinese, has_cjk};
use crate::keyboard_hook::is_key_down;
use crate::text::{is_blank, is_blank_str, prefixed, trim, trim_seq};

verus! {

/// How long the hotkey's modifiers may stay held before copying, in ms.
pub const COPY_MODIFIER_TIMEOUT_MS: u64 = 800;

/// How long the modifiers may stay held before pasting, in ms.
pub const PASTE_MODIFIER_TIMEOUT_MS: u64 = 400;

/// The shortest wait for the clipboard to change after a copy, in ms.
pub const MIN_CLIPBOARD_WAIT_MS: u64 = 120;

/// Virtual-key code of `C` (Ctrl+C copies).
pub const VK_C: u16 = 0x43;

/// Virtual-key code of `Insert` (Ctrl+Insert copies, the fallback).
pub const VK_INSERT: u16 = 0x2D;

/// Virtual-key code of `V` (Ctrl+V pastes).
pub const VK_V: u16 = 0x56;

/// How long to wait for the clipboard to change after a copy shortcut.
pub open spec fn clipboard_wait_ms(settle_delay_ms: u64) -> u64 {
    if settle_delay_ms >= MIN_CLIPBOARD_WAIT_MS {
        settle_delay_ms
    } else {
        MIN_CLIPBOARD_WAIT_MS
    }
}

/// `clipboard_wait_ms`, computed.
pub fn clipboard_wait_timeout_ms(settle_delay_ms: u64) -> (r: u64)
    ensures
        r == clipboard_wait_ms(settle_delay_ms),
{
    if settle_delay_ms >= MIN_CLIPBOARD_WAIT_MS {
        settle_delay_ms
    } else {
        MIN_CLIPBOARD_WAIT_MS
    }
}

/// How long to let things settle once a wait has seen what it waited for,
/// in ms.
pub const POLL_SETTLE_MS: u64 = 30;

/// How long to sleep between looks at the modifier keys, in ms.
pub const MODIFIER_POLL_MS: u64 = 10;

/// How long to sleep between looks at the clipboard, in ms.
pub const CLIPBOARD_POLL_MS: u64 = 20;

/// What a polling wait does after one look.
#[derive(Debug, Clone, Copy, PartialEq, Eq, Structural)]
pub enum PollStep {
    /// What was waited for happened: sleep `settle_ms`, then report success.
    Done { settle_ms: u64 },
    /// Not yet: sleep `sleep_ms` and look again.
    Retry { sleep_ms: u64 },
    /// The deadline has passed: report failure.
    TimedOut,
}

/// One look while waiting for Control and Alt to be released: with the
/// deadline passed, the wait fails; with neither key held (by the key states
/// of Control and of Alt, generic, left and right), it succeeds after a short
/// settle; otherwise it looks again shortly.
pub fn modifier_poll_step(before_deadline: bool, ctrl_states: [i16; 3], alt_states: [i16; 3]) -> (r:
    PollStep)
    ensures
        r == if !before_deadline {
            PollStep::TimedOut
        } else if !(ctrl_states[0] < 0 || ctrl_states[1] < 0 || ctrl_states[2] < 0) && !(
        alt_states[0] < 0 || alt_states[1] < 0 || alt_states[2] < 0) {
            PollStep::Done { settle_ms: POLL_SETTLE_MS }
        } else {
            PollStep::Retry { sleep_ms: MODIFIER_POLL_MS }
        },
{
    if !before_deadline {
        return PollStep::TimedOut;
    }
    let ctrl_down = is_key_down(ctrl_states[0]) || is_key_down(ctrl_states[1]) || is_key_down(
        ctrl_states[2],
    );
    let alt_down = is_key_down(alt_states[0]) || is_key_down(alt_states[1]) || is_key_down(
        alt_states[2],
    );
    if !ctrl_down && !alt_down {
        PollStep::Done { settle_ms: POLL_SETTLE_MS }
    } else {
        PollStep::Retry { sleep_ms: MODIFIER_POLL_MS }
    }
}

/// One look while waiting for the clipboard to change: with the deadline
/// passed, the wait fails; with a sequence number other than the one noted
/// before the copy, it succeeds after a short settle; otherwise it looks
/// again shortly.
pub fn clipboard_poll_step(before_deadline: bool, sequence_before: u32, current: u32) -> (r:
    PollStep)
    ensures
        r == if !before_deadline {
            PollStep::TimedOut
        } else if current != sequence_before {
            PollStep::Done { settle_ms: POLL_SETTLE_MS }
        } else {
            PollStep::Retry { sleep_ms: CLIPBOARD_POLL_MS }
        },
{
    if !before_deadline {
        PollStep::TimedOut
    } else if current != sequence_before {
        PollStep::Done { settle_ms: POLL_SETTLE_MS }
    } else {
        PollStep::Retry { sleep_ms: CLIPBOARD_POLL_MS }
    }
}

/// Where the workflow stands: the step whose outcome it waits for.
#[derive(Debug, Clone, Copy, PartialEq, Eq, Structural)]
pub enum SelectionPhase {
    OpeningClipboard,
    ReleasingCopyModifiers,
    Copying,
    CopyingFallback,
    ReadingSelection,
    Translating,
    WritingTranslation,
    ReleasingPasteModifiers,
    Pasting,
    Restoring,
    Finished,
}

/// The outcome of a step, as the caller reports it.
#[derive(Debug, Clone)]
pub enum SelectionEvent {
    /// The clipboard opened; `backup` is the text it held (if any).
    ClipboardOpened { backup: Option<String> },
    /// The clipboard could not be opened.
    ClipboardUnavailable { error: String },
    /// Control and Alt were released in time.
    ModifiersReleased,
    /// Control or Alt was still held when the time ran out.
    ModifiersHeld,
    /// The clipboard changed after the copy shortcut.
    ClipboardChanged,
    /// The clipboard did not change in time.
    ClipboardUnchanged,
    /// The clipboard now holds `text`.
    TextCopied { text: String },
    /// No text could be read from the clipboard.
    NoTextCopied { error: String },
    /// The translation came back.
    Translated { text: String },
    /// The translation failed with `error`.
    TranslationFailed { error: String },
    /// Text was put on the clipboard.
    ClipboardWritten,
    /// Text could not be put on the clipboard.
    ClipboardWriteFailed { error: String },
    /// The paste shortcut was sent and the settle time has passed.
    Pasted,
}

/// The next step for the caller to perform.
#[derive(Debug)]
pub enum SelectionAction {
    /// Open the clipboard, keep its text (if any) as a backup, and note its
    /// sequence number.
    OpenClipboard,
    /// Wait up to `timeout_ms` for Control and Alt to be released.
    WaitModifiersRelease { timeout_ms: u64 },
    /// Send Ctrl+`key`, then wait up to `timeout_ms` for the clipboard's
    /// sequence number to change.
    CopyWithChord { key: u16, timeout_ms: u64 },
    /// Read the clipboard's text.
    ReadClipboardText,
    /// Translate `text`.
    Translate { text: String },
    /// Open the clipboard and put `text` on it.
    WriteTranslation { text: String },
    /// Send Ctrl+`key`, then wait `settle_ms`.
    PasteWithChord { key: u16, settle_ms: u64 },
    /// Put `text` back on the clipboard.
    RestoreClipboard { text: String },
    /// The run is over, with this result.
    Finish { result: Result<(), String> },
}

/// A `SelectionAction` with its strings taken by view.
pub enum ActionSpec {
    OpenClipboard,
    WaitModifiersRelease { timeout_ms: u64 },
    CopyWithChord { key: u16, timeout_ms: u64 },
    ReadClipboardText,
    Translate { text: Seq<char> },
    WriteTranslation { text: Seq<char> },
    PasteWithChord { key: u16, settle_ms: u64 },
    RestoreClipboard { text: Seq<char> },
    Finish { result: Result<(), Seq<char>> },
}

/// The view of an action.
pub open spec fn action_view(a: SelectionAction) -> ActionSpec {
    match a {
        SelectionAction::OpenClipboard => ActionSpec::OpenClipboard,
        SelectionAction::WaitModifiersRelease { timeout_ms } => ActionSpec::WaitModifiersRelease {
            timeout_ms,
        },
        SelectionAction::CopyWithChord { key, timeout_ms } => ActionSpec::CopyWithChord {
            key,
            timeout_ms,
        },
        SelectionAction::ReadClipboardText => ActionSpec::ReadClipboardText,
        SelectionAction::Translate { text } => ActionSpec::Translate { text: text@ },
        SelectionAction::WriteTranslation { text } => ActionSpec::WriteTranslation { text: text@ },
        SelectionAction::PasteWithChord { key, settle_ms } => ActionSpec::PasteWithChord {
            key,
            settle_ms,
        },
        SelectionAction::RestoreClipboard { text } => ActionSpec::RestoreClipboard { text: text@ },
        SelectionAction::Finish { result } => ActionSpec::Finish {
            result: match result {
                Ok(()) => Ok(()),
                Err(e) => Err(e@),
            },
        },
    }
}

/// The workflow's state, by view.
pub struct WorkflowState {
    pub phase: SelectionPhase,
    pub settle_delay_ms: u64,
    pub backup: Option<Seq<char>>,
}

/// The view of an optional string.
pub open spec fn option_view(o: Option<String>) -> Option<Seq<char>> {
    match o {
        Some(s) => Some(s@),
        None => None,
    }
}

/// Whether the workflow, in `phase`, waits for an event of this kind.
pub open spec fn event_expected(phase: SelectionPhase, event: SelectionEvent) -> bool {
    match phase {
        SelectionPhase::OpeningClipboard => event is ClipboardOpened || event is ClipboardUnavailable,
        SelectionPhase::ReleasingCopyModifiers => event is ModifiersReleased || event is ModifiersHeld,
        SelectionPhase::Copying => event is ClipboardChanged || event is ClipboardUnchanged,
        SelectionPhase::CopyingFallback => event is ClipboardChanged || event is ClipboardUnchanged,
        SelectionPhase::ReadingSelection => event is TextCopied || event is NoTextCopied,
        SelectionPhase::Translating => event is Translated || event is TranslationFailed,
        SelectionPhase::WritingTranslation => event is ClipboardWritten || event
            is ClipboardUnavailable || event is ClipboardWriteFailed,
        SelectionPhase::ReleasingPasteModifiers => event is ModifiersReleased || event
            is ModifiersHeld,
        SelectionPhase::Pasting => event is Pasted,
        SelectionPhase::Restoring => event is ClipboardWritten || event is ClipboardWriteFailed,
        SelectionPhase::Finished => false,
    }
}

/// `s` moved on to `phase`.
pub open spec fn moved(s: WorkflowState, phase: SelectionPhase) -> WorkflowState {
    WorkflowState { phase, settle_delay_ms: s.settle_delay_ms, backup: s.backup }
}

/// The run ends with the error `msg`.
pub open spec fn failed(s: WorkflowState, msg: Seq<char>) -> (WorkflowState, ActionSpec) {
    (moved(s, SelectionPhase::Finished), ActionSpec::Finish { result: Err(msg) })
}

/// The workflow's transition: from state `s`, on `event`, the next state and
/// the next action.
pub open spec fn selection_step(s: WorkflowState, event: SelectionEvent) -> (WorkflowState, ActionSpec) {
    match (s.phase, event) {
        (SelectionPhase::OpeningClipboard, SelectionEvent::ClipboardOpened { backup }) => (
            WorkflowState {
                phase: SelectionPhase::ReleasingCopyModifiers,
                settle_delay_ms: s.settle_delay_ms,
                backup: option_view(backup),
            },
            ActionSpec::WaitModifiersRelease { timeout_ms: COPY_MODIFIER_TIMEOUT_MS },
        ),
        (SelectionPhase::OpeningClipboard, SelectionEvent::ClipboardUnavailable { error }) => failed(
            s,
            "Clipboard unavailable: "@ + error@,
        ),
        (SelectionPhase::ReleasingCopyModifiers, SelectionEvent::ModifiersReleased) => (
            moved(s, SelectionPhase::Copying),
            ActionSpec::CopyWithChord { key: VK_C, timeout_ms: clipboard_wait_ms(s.settle_delay_ms) },
        ),
        (SelectionPhase::ReleasingCopyModifiers, SelectionEvent::ModifiersHeld) => failed(
            s,
            "Hotkey modifiers were not released in time"@,
        ),
        (SelectionPhase::Copying, SelectionEvent::ClipboardChanged) => (
            moved(s, SelectionPhase::ReadingSelection),
            ActionSpec::ReadClipboardText,
        ),
        (SelectionPhase::Copying, SelectionEvent::ClipboardUnchanged) => (
            moved(s, SelectionPhase::CopyingFallback),
            ActionSpec::CopyWithChord {
                key: VK_INSERT,
                timeout_ms: clipboard_wait_ms(s.settle_delay_ms),
            },
        ),
        (SelectionPhase::CopyingFallback, SelectionEvent::ClipboardChanged) => (
            moved(s, SelectionPhase::ReadingSelection),
            ActionSpec::ReadClipboardText,
        ),
        (SelectionPhase::CopyingFallback, SelectionEvent::ClipboardUnchanged) => failed(
            s,
            "Copy shortcut did not update clipboard"@,
        ),
        (SelectionPhase::ReadingSelection, SelectionEvent::NoTextCopied { error }) => failed(
            s,
            "No text copied from selection: "@ + error@,
        ),
        (SelectionPhase::ReadingSelection, SelectionEvent::TextCopied { text }) => if is_blank(
            text@,
        ) {
            failed(s, "Copied selection is empty"@)
        } else if !has_cjk(text@) {
            failed(s, "Selected text does not contain Chinese"@)
        } else {
            (moved(s, SelectionPhase::Translating), ActionSpec::Translate { text: trim_seq(text@) })
        },
        (SelectionPhase::Translating, SelectionEvent::TranslationFailed { error }) => failed(
            s,
            error@,
        ),
        (SelectionPhase::Translating, SelectionEvent::Translated { text }) => if is_blank(text@) {
            failed(s, "Translation result is empty"@)
        } else {
            (moved(s, SelectionPhase::WritingTranslation), ActionSpec::WriteTranslation { text: text@ })
        },
        (SelectionPhase::WritingTranslation, SelectionEvent::ClipboardUnavailable { error }) => failed(
            s,
            "Clipboard unavailable: "@ + error@,
        ),
        (SelectionPhase::WritingTranslation, SelectionEvent::ClipboardWriteFailed { error }) => failed(
            s,
            "Failed to set translated text to clipboard: "@ + error@,
        ),
        (SelectionPhase::WritingTranslation, SelectionEvent::ClipboardWritten) => (
            moved(s, SelectionPhase::ReleasingPasteModifiers),
            ActionSpec::WaitModifiersRelease { timeout_ms: PASTE_MODIFIER_TIMEOUT_MS },
        ),
        (SelectionPhase::ReleasingPasteModifiers, SelectionEvent::ModifiersReleased) => (
            moved(s, SelectionPhase::Pasting),
            ActionSpec::PasteWithChord { key: VK_V, settle_ms: s.settle_delay_ms },
        ),
        (SelectionPhase::ReleasingPasteModifiers, SelectionEvent::ModifiersHeld) => failed(
            s,
            "Hotkey modifiers were not released in time"@,
        ),
        (SelectionPhase::Pasting, SelectionEvent::Pasted) => match s.backup {
            Some(b) => (moved(s, SelectionPhase::Restoring), ActionSpec::RestoreClipboard { text: b }),
            None => (moved(s, SelectionPhase::Finished), ActionSpec::Finish { result: Ok(()) }),
        },
        (SelectionPhase::Restoring, SelectionEvent::ClipboardWriteFailed { error }) => failed(
            s,
            "Failed to restore original clipboard text: "@ + error@,
        ),
        (SelectionPhase::Restoring, SelectionEvent::ClipboardWritten) => (
            moved(s, SelectionPhase::Finished),
            ActionSpec::Finish { result: Ok(()) },
        ),
        _ => arbitrary(),
    }
}

/// Position of a phase in the run; every step moves strictly forward.
pub open spec fn phase_rank(phase: SelectionPhase) -> nat {
    match phase {
        SelectionPhase::OpeningClipboard => 0,
        SelectionPhase::ReleasingCopyModifiers => 1,
        SelectionPhase::Copying => 2,
        SelectionPhase::CopyingFallback => 3,
        SelectionPhase::ReadingSelection => 4,
        SelectionPhase::Translating => 5,
        SelectionPhase::WritingTranslation => 6,
        SelectionPhase::ReleasingPasteModifiers => 7,
        SelectionPhase::Pasting => 8,
        SelectionPhase::Restoring => 9,
        SelectionPhase::Finished => 10,
    }
}

/// The run always ends: each step moves to a later phase, a `Finish` action
/// comes exactly with the move to `Finished`, and once finished the run
/// waits for nothing.
pub proof fn law_run_moves_forward(s: WorkflowState, event: SelectionEvent)
    requires
        event_expected(s.phase, event),
    ensures
        phase_rank(selection_step(s, event).0.phase) > phase_rank(s.phase),
        (selection_step(s, event).1 is Finish) <==> selection_step(s, event).0.phase
            == SelectionPhase::Finished,
        !event_expected(SelectionPhase::Finished, event),
{
}

/// Only Chinese text is sent for translation: a `Translate` action comes
/// only from copied text that is not blank and holds CJK characters, and it
/// carries that text trimmed.
pub proof fn law_translate_only_chinese(s: WorkflowState, event: SelectionEvent)
    requires
        event_expected(s.phase, event),
        selection_step(s, event).1 is Translate,
    ensures
        s.phase == SelectionPhase::ReadingSelection,
        event matches SelectionEvent::TextCopied { text } && !is_blank(text@) && has_cjk(text@)
            && selection_step(s, event).1 == (ActionSpec::Translate { text: trim_seq(text@) }),
{
}

/// Only a translation is pasted: the text put on the clipboard for pasting
/// is exactly the translation that came back, and it is not blank.
pub proof fn law_paste_only_translation(s: WorkflowState, event: SelectionEvent)
    requires
        event_expected(s.phase, event),
        selection_step(s, event).1 is WriteTranslation,
    ensures
        s.phase == SelectionPhase::Translating,
        event matches SelectionEvent::Translated { text } && !is_blank(text@)
            && selection_step(s, event).1 == (ActionSpec::WriteTranslation { text: text@ }),
{
}

/// A run succeeds only after pasting, and, when the clipboard held text
/// before the run, only after putting that text back.
pub proof fn law_success_only_after_paste(s: WorkflowState, event: SelectionEvent)
    requires
        event_expected(s.phase, event),
        selection_step(s, event).1 == (ActionSpec::Finish { result: Ok(()) }),
    ensures
        (s.phase == SelectionPhase::Pasting && s.backup is None) || s.phase
            == SelectionPhase::Restoring,
{
}

/// The clipboard's earlier text is put back after the paste, unchanged.
pub proof fn law_restore_backup(s: WorkflowState, b: Seq<char>)
    requires
        s.phase == SelectionPhase::Pasting,
        s.backup == Some(b),
    ensures
        selection_step(s, SelectionEvent::Pasted) == (
            moved(s, SelectionPhase::Restoring),
            ActionSpec::RestoreClipboard { text: b },
        ),
{
}

/// The fallback copy shortcut (Ctrl+Insert) is sent only after the primary
/// one (Ctrl+C) left the clipboard unchanged.
pub proof fn law_fallback_only_after_primary_fails(s: WorkflowState, event: SelectionEvent)
    requires
        event_expected(s.phase, event),
        selection_step(s, event).1 matches ActionSpec::CopyWithChord { key, .. } && key
            == VK_INSERT,
    ensures
        s.phase == SelectionPhase::Copying,
        event is ClipboardUnchanged,
{
}

/// Once the clipboard has been opened, the backup and the settle delay stay
/// as they were for the rest of the run.
pub proof fn law_backup_kept(s: WorkflowState, event: SelectionEvent)
    requires
        event_expected(s.phase, event),
        s.phase != SelectionPhase::OpeningClipboard,
    ensures
        selection_step(s, event).0.backup == s.backup,
        selection_step(s, event).0.settle_delay_ms == s.settle_delay_ms,
{
}

/// The state after the events `events`, one step at a time, from `s`.
pub open spec fn state_after(s: WorkflowState, events: Seq<SelectionEvent>) -> WorkflowState
    decreases events.len(),
{
    if events.len() == 0 {
        s
    } else {
        selection_step(state_after(s, events.drop_last()), events.last()).0
    }
}

/// Each of `events` is one the workflow waits for when it comes.
pub open spec fn events_expected(s: WorkflowState, events: Seq<SelectionEvent>) -> bool {
    forall|k: int|
        0 <= k < events.len() ==> event_expected(
            #[trigger] state_after(s, events.take(k)).phase,
            events[k],
        )
}

/// Once the clipboard was opened with `backup`, every later state of the run
/// holds that backup, unchanged.
pub proof fn law_backup_held_through_run(s: WorkflowState, events: Seq<SelectionEvent>, k: int)
    requires
        s.phase == SelectionPhase::OpeningClipboard,
        events.len() > 0,
        events[0] matches SelectionEvent::ClipboardOpened { backup },
        events_expected(s, events),
        1 <= k <= events.len(),
    ensures
        state_after(s, events.take(k)).phase != SelectionPhase::OpeningClipboard,
        events[0] matches SelectionEvent::ClipboardOpened { backup } && state_after(
            s,
            events.take(k),
        ).backup == option_view(backup),
    decreases k,
{
    let prev = events.take(k - 1);
    assert(events.take(k).drop_last() =~= prev);
    assert(events.take(k).last() == events[k - 1]);
    if k == 1 {
        assert(prev.len() == 0);
        assert(state_after(s, prev) == s);
    } else {
        law_backup_held_through_run(s, events, k - 1);
        assert(event_expected(state_after(s, events.take(k - 1)).phase, events[k - 1]));
        law_backup_kept(state_after(s, prev), events[k - 1]);
    }
}

/// The clipboard gets back exactly what it held: in a run whose first event
/// opened the clipboard with `backup`, a `RestoreClipboard` action, at
/// whatever step it comes, carries that text unchanged, and a run that found
/// no text on the clipboard never restores anything.
pub proof fn law_restores_clipboard_text_exactly(
    s: WorkflowState,
    events: Seq<SelectionEvent>,
    k: int,
)
    requires
        s.phase == SelectionPhase::OpeningClipboard,
        events.len() > 0,
        events[0] is ClipboardOpened,
        events_expected(s, events),
        0 <= k < events.len(),
    ensures
        selection_step(state_after(s, events.take(k)), events[k]).1 matches ActionSpec::RestoreClipboard {
            text,
        } ==> events[0] matches SelectionEvent::ClipboardOpened { backup } && backup matches Some(b)
            && text == b@,
{
    let st = state_after(s, events.take(k));
    assert(event_expected(st.phase, events[k]));
    if k == 0 {
        assert(events.take(0).len() == 0);
        assert(st == s);
    } else {
        law_backup_held_through_run(s, events, k);
    }
}

/// One run of the selection workflow.
pub struct SelectionWorkflow {
    phase: SelectionPhase,
    settle_delay_ms: u64,
    backup: Option<String>,
}

impl View for SelectionWorkflow {
    type V = WorkflowState;

    closed spec fn view(&self) -> WorkflowState {
        WorkflowState {
            phase: self.phase,
            settle_delay_ms: self.settle_delay_ms,
            backup: option_view(self.backup),
        }
    }
}

/// The action that ends the run with the error `msg`.
fn finish_with_error(msg: String) -> (r: SelectionAction)
    ensures
        action_view(r) == (ActionSpec::Finish { result: Err(msg@) }),
{
    SelectionAction::Finish { result: Err(msg) }
}

impl SelectionWorkflow {
    /// A new run waiting `settle_delay_ms` for copy and paste to settle, and
    /// its first action: open the clipboard.
    pub fn begin(settle_delay_ms: u64) -> (r: (Self, SelectionAction))
        ensures
            r.0@ == (WorkflowState {
                phase: SelectionPhase::OpeningClipboard,
                settle_delay_ms,
                backup: None,
            }),
            action_view(r.1) == ActionSpec::OpenClipboard,
    {
        (
            SelectionWorkflow { phase: SelectionPhase::OpeningClipboard, settle_delay_ms, backup: None },
            SelectionAction::OpenClipboard,
        )
    }

    /// The step the run waits for.
    pub fn phase(&self) -> (r: SelectionPhase)
        ensures
            r == self@.phase,
    {
        self.phase
    }

    /// Whether the run, where it stands, waits for an event of this kind.
    pub fn expects(&self, event: &SelectionEvent) -> (r: bool)
        ensures
            r == event_expected(self@.phase, *event),
    {
        match self.phase {
            SelectionPhase::OpeningClipboard => matches!(event, SelectionEvent::ClipboardOpened { .. } | SelectionEvent::ClipboardUnavailable { .. }),
            SelectionPhase::ReleasingCopyModifiers => matches!(event, SelectionEvent::ModifiersReleased | SelectionEvent::ModifiersHeld),
            SelectionPhase::Copying => matches!(event, SelectionEvent::ClipboardChanged | SelectionEvent::ClipboardUnchanged),
            SelectionPhase::CopyingFallback => matches!(event, SelectionEvent::ClipboardChanged | SelectionEvent::ClipboardUnchanged),
            SelectionPhase::ReadingSelection => matches!(event, SelectionEvent::TextCopied { .. } | SelectionEvent::NoTextCopied { .. }),
            SelectionPhase::Translating => matches!(event, SelectionEvent::Translated { .. } | SelectionEvent::TranslationFailed { .. }),
            SelectionPhase::WritingTranslation => matches!(event, SelectionEvent::ClipboardWritten | SelectionEvent::ClipboardUnavailable { .. } | SelectionEvent::ClipboardWriteFailed { .. }),
            SelectionPhase::ReleasingPasteModifiers => matches!(event, SelectionEvent::ModifiersReleased | SelectionEvent::ModifiersHeld),
            SelectionPhase::Pasting => matches!(event, SelectionEvent::Pasted),
            SelectionPhase::Restoring => matches!(event, SelectionEvent::ClipboardWritten | SelectionEvent::ClipboardWriteFailed { .. }),
            SelectionPhase::Finished => false,
        }
    }

    /// Take in the outcome of the last step and give the next step.
    pub fn step(&mut self, event: SelectionEvent) -> (r: SelectionAction)
        requires
            event_expected(old(self)@.phase, event),
        ensures
            (final(self)@, action_view(r)) == selection_step(old(self)@, event),
    {
        let ghost s = self@;
        match event {
            SelectionEvent::ClipboardOpened { backup } => {
                self.backup = backup;
                self.phase = SelectionPhase::ReleasingCopyModifiers;
                SelectionAction::WaitModifiersRelease { timeout_ms: COPY_MODIFIER_TIMEOUT_MS }
            },
            SelectionEvent::ClipboardUnavailable { error } => {
                self.phase = SelectionPhase::Finished;
                finish_with_error(prefixed("Clipboard unavailable: ", error.as_str()))
            },
            SelectionEvent::ModifiersReleased => {
                if self.phase == SelectionPhase::ReleasingCopyModifiers {
                    self.phase = SelectionPhase::Copying;
                    SelectionAction::CopyWithChord {
                        key: VK_C,
                        timeout_ms: clipboard_wait_timeout_ms(self.settle_delay_ms),
                    }
                } else {
                    self.phase = SelectionPhase::Pasting;
                    SelectionAction::PasteWithChord { key: VK_V, settle_ms: self.settle_delay_ms }
                }
            },
            SelectionEvent::ModifiersHeld => {
                self.phase = SelectionPhase::Finished;
                finish_with_error(String::from_str("Hotkey modifiers were not released in time"))
            },
            SelectionEvent::ClipboardChanged => {
                self.phase = SelectionPhase::ReadingSelection;
                SelectionAction::ReadClipboardText
            },
            SelectionEvent::ClipboardUnchanged => {
                if self.phase == SelectionPhase::Copying {
                    self.phase = SelectionPhase::CopyingFallback;
                    SelectionAction::CopyWithChord {
                        key: VK_INSERT,
                        timeout_ms: clipboard_wait_timeout_ms(self.settle_delay_ms),
                    }
                } else {
                    self.phase = SelectionPhase::Finished;
                    finish_with_error(String::from_str("Copy shortcut did not update clipboard"))
                }
            },
            SelectionEvent::NoTextCopied { error } => {
                self.phase = SelectionPhase::Finished;
                finish_with_error(prefixed("No text copied from selection: ", error.as_str()))
            },
            SelectionEvent::TextCopied { text } => {
                if is_blank_str(text.as_str()) {
                    self.phase = SelectionPhase::Finished;
                    finish_with_error(String::from_str("Copied selection is empty"))
                } else if !contains_chinese(text.as_str()) {
                    self.phase = SelectionPhase::Finished;
                    finish_with_error(String::from_str("Selected text does not contain Chinese"))
                } else {
                    self.phase = SelectionPhase::Translating;
                    SelectionAction::Translate { text: String::from_str(trim(text.as_str())) }
                }
            },
            SelectionEvent::TranslationFailed { error } => {
                self.phase = SelectionPhase::Finished;
                finish_with_error(error)
            },
            SelectionEvent::Translated { text } => {
                if is_blank_str(text.as_str()) {
                    self.phase = SelectionPhase::Finished;
                    finish_with_error(String::from_str("Translation result is empty"))
                } else {
                    self.phase = SelectionPhase::WritingTranslation;
                    SelectionAction::WriteTranslation { text }
                }
            },
            SelectionEvent::ClipboardWriteFailed { error } => {
                if self.phase == SelectionPhase::WritingTranslation {
                    self.phase = SelectionPhase::Finished;
                    finish_with_error(
                        prefixed("Failed to set translated text to clipboard: ", error.as_str()),
                    )
                } else {
                    self.phase = SelectionPhase::Finished;
                    finish_with_error(
                        prefixed("Failed to restore original clipboard text: ", error.as_str()),
                    )
                }
            },
            SelectionEvent::ClipboardWritten => {
                if self.phase == SelectionPhase::WritingTranslation {
                    self.phase = SelectionPhase::ReleasingPasteModifiers;
                    SelectionAction::WaitModifiersRelease { timeout_ms: PASTE_MODIFIER_TIMEOUT_MS }
                } else {
                    self.phase = SelectionPhase::Finished;
                    SelectionAction::Finish { result: Ok(()) }
                }
            },
            SelectionEvent::Pasted => {
                match &self.backup {
                    Some(b) => {
                        let text = b.clone();
                        self.phase = SelectionPhase::Restoring;
                        SelectionAction::RestoreClipboard { text }
                    },
                    None => {
                        self.phase = SelectionPhase::Finished;
                        SelectionAction::Finish { result: Ok(()) }
                    },
                }
            },
        }
    }
}

} // verus!
