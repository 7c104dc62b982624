use cn2en::{
    clipboard_poll_step, clipboard_wait_timeout_ms, modifier_poll_step, PollStep, SelectionAction, SelectionEvent, SelectionPhase, SelectionWorkflow,
    VK_C, VK_INSERT, VK_V,
};

fn step(w: &mut SelectionWorkflow, e: SelectionEvent) -> SelectionAction {
    assert!(w.expects(&e), "unexpected event {:?} in {:?}", e, w.phase());
    w.step(e)
}

fn finish_err(a: SelectionAction) -> String {
    match a {
        SelectionAction::Finish { result: Err(e) } => e,
        other => panic!("expected an error, got {:?}", other),
    }
}

fn to_translation(w: &mut SelectionWorkflow, backup: Option<&str>, copied: &str) -> SelectionAction {
    step(w, SelectionEvent::ClipboardOpened { backup: backup.map(|s| s.to_string()) });
    step(w, SelectionEvent::ModifiersReleased);
    step(w, SelectionEvent::ClipboardChanged);
    step(w, SelectionEvent::TextCopied { text: copied.to_string() })
}

#[test]
fn wait_timeout_has_a_floor() {
    assert_eq!(clipboard_wait_timeout_ms(80), 120);
    assert_eq!(clipboard_wait_timeout_ms(120), 120);
    assert_eq!(clipboard_wait_timeout_ms(500), 500);
}

#[test]
fn full_run_with_backup() {
    let (mut w, a) = SelectionWorkflow::begin(80);
    assert!(matches!(a, SelectionAction::OpenClipboard));
    let a = step(&mut w, SelectionEvent::ClipboardOpened { backup: Some("old".to_string()) });
    assert!(matches!(a, SelectionAction::WaitModifiersRelease { timeout_ms: 800 }));
    let a = step(&mut w, SelectionEvent::ModifiersReleased);
    assert!(matches!(a, SelectionAction::CopyWithChord { key, timeout_ms: 120 } if key == VK_C));
    let a = step(&mut w, SelectionEvent::ClipboardChanged);
    assert!(matches!(a, SelectionAction::ReadClipboardText));
    let a = step(&mut w, SelectionEvent::TextCopied { text: "  你好，世界 \n".to_string() });
    match a {
        SelectionAction::Translate { text } => assert_eq!(text, "你好，世界"),
        other => panic!("{:?}", other),
    }
    let a = step(&mut w, SelectionEvent::Translated { text: "Hello, world".to_string() });
    match a {
        SelectionAction::WriteTranslation { text } => assert_eq!(text, "Hello, world"),
        other => panic!("{:?}", other),
    }
    let a = step(&mut w, SelectionEvent::ClipboardWritten);
    assert!(matches!(a, SelectionAction::WaitModifiersRelease { timeout_ms: 400 }));
    let a = step(&mut w, SelectionEvent::ModifiersReleased);
    assert!(matches!(a, SelectionAction::PasteWithChord { key, settle_ms: 80 } if key == VK_V));
    let a = step(&mut w, SelectionEvent::Pasted);
    match a {
        SelectionAction::RestoreClipboard { text } => assert_eq!(text, "old"),
        other => panic!("{:?}", other),
    }
    let a = step(&mut w, SelectionEvent::ClipboardWritten);
    assert!(matches!(a, SelectionAction::Finish { result: Ok(()) }));
    assert_eq!(w.phase(), SelectionPhase::Finished);
    assert!(!w.expects(&SelectionEvent::Pasted));
}

#[test]
fn run_without_backup_finishes_after_paste() {
    let (mut w, _) = SelectionWorkflow::begin(300);
    to_translation(&mut w, None, "中文");
    step(&mut w, SelectionEvent::Translated { text: "Chinese".to_string() });
    step(&mut w, SelectionEvent::ClipboardWritten);
    let a = step(&mut w, SelectionEvent::ModifiersReleased);
    assert!(matches!(a, SelectionAction::PasteWithChord { settle_ms: 300, .. }));
    let a = step(&mut w, SelectionEvent::Pasted);
    assert!(matches!(a, SelectionAction::Finish { result: Ok(()) }));
}

#[test]
fn fallback_copy_shortcut() {
    let (mut w, _) = SelectionWorkflow::begin(200);
    step(&mut w, SelectionEvent::ClipboardOpened { backup: None });
    step(&mut w, SelectionEvent::ModifiersReleased);
    let a = step(&mut w, SelectionEvent::ClipboardUnchanged);
    assert!(matches!(a, SelectionAction::CopyWithChord { key, timeout_ms: 200 } if key == VK_INSERT));
    let a = step(&mut w, SelectionEvent::ClipboardChanged);
    assert!(matches!(a, SelectionAction::ReadClipboardText));
}

#[test]
fn copy_fails_after_fallback() {
    let (mut w, _) = SelectionWorkflow::begin(80);
    step(&mut w, SelectionEvent::ClipboardOpened { backup: None });
    step(&mut w, SelectionEvent::ModifiersReleased);
    step(&mut w, SelectionEvent::ClipboardUnchanged);
    let a = step(&mut w, SelectionEvent::ClipboardUnchanged);
    assert_eq!(finish_err(a), "Copy shortcut did not update clipboard");
}

#[test]
fn clipboard_unavailable() {
    let (mut w, _) = SelectionWorkflow::begin(80);
    let a = step(&mut w, SelectionEvent::ClipboardUnavailable { error: "busy".to_string() });
    assert_eq!(finish_err(a), "Clipboard unavailable: busy");
    assert_eq!(w.phase(), SelectionPhase::Finished);
}

#[test]
fn modifiers_held_on_copy_and_paste() {
    let (mut w, _) = SelectionWorkflow::begin(80);
    step(&mut w, SelectionEvent::ClipboardOpened { backup: None });
    let a = step(&mut w, SelectionEvent::ModifiersHeld);
    assert_eq!(finish_err(a), "Hotkey modifiers were not released in time");

    let (mut w, _) = SelectionWorkflow::begin(80);
    to_translation(&mut w, None, "中文");
    step(&mut w, SelectionEvent::Translated { text: "Chinese".to_string() });
    step(&mut w, SelectionEvent::ClipboardWritten);
    let a = step(&mut w, SelectionEvent::ModifiersHeld);
    assert_eq!(finish_err(a), "Hotkey modifiers were not released in time");
}

#[test]
fn no_text_copied() {
    let (mut w, _) = SelectionWorkflow::begin(80);
    step(&mut w, SelectionEvent::ClipboardOpened { backup: None });
    step(&mut w, SelectionEvent::ModifiersReleased);
    step(&mut w, SelectionEvent::ClipboardChanged);
    let a = step(&mut w, SelectionEvent::NoTextCopied { error: "not text".to_string() });
    assert_eq!(finish_err(a), "No text copied from selection: not text");
}

#[test]
fn blank_selection_is_rejected() {
    let (mut w, _) = SelectionWorkflow::begin(80);
    let a = to_translation(&mut w, None, " \u{3000}\n");
    assert_eq!(finish_err(a), "Copied selection is empty");
}

#[test]
fn non_chinese_selection_is_rejected() {
    let (mut w, _) = SelectionWorkflow::begin(80);
    let a = to_translation(&mut w, None, "hello world");
    assert_eq!(finish_err(a), "Selected text does not contain Chinese");
}

#[test]
fn translation_failure_is_passed_on() {
    let (mut w, _) = SelectionWorkflow::begin(80);
    to_translation(&mut w, None, "中文");
    let a = step(&mut w, SelectionEvent::TranslationFailed { error: "API key not configured".to_string() });
    assert_eq!(finish_err(a), "API key not configured");
}

#[test]
fn blank_translation_is_rejected() {
    let (mut w, _) = SelectionWorkflow::begin(80);
    to_translation(&mut w, None, "中文");
    let a = step(&mut w, SelectionEvent::Translated { text: "  ".to_string() });
    assert_eq!(finish_err(a), "Translation result is empty");
}

#[test]
fn paste_clipboard_errors() {
    let (mut w, _) = SelectionWorkflow::begin(80);
    to_translation(&mut w, None, "中文");
    step(&mut w, SelectionEvent::Translated { text: "Chinese".to_string() });
    let a = step(&mut w, SelectionEvent::ClipboardUnavailable { error: "locked".to_string() });
    assert_eq!(finish_err(a), "Clipboard unavailable: locked");

    let (mut w, _) = SelectionWorkflow::begin(80);
    to_translation(&mut w, None, "中文");
    step(&mut w, SelectionEvent::Translated { text: "Chinese".to_string() });
    let a = step(&mut w, SelectionEvent::ClipboardWriteFailed { error: "denied".to_string() });
    assert_eq!(finish_err(a), "Failed to set translated text to clipboard: denied");
}

#[test]
fn restore_failure() {
    let (mut w, _) = SelectionWorkflow::begin(80);
    to_translation(&mut w, Some("before"), "中文");
    step(&mut w, SelectionEvent::Translated { text: "Chinese".to_string() });
    step(&mut w, SelectionEvent::ClipboardWritten);
    step(&mut w, SelectionEvent::ModifiersReleased);
    step(&mut w, SelectionEvent::Pasted);
    let a = step(&mut w, SelectionEvent::ClipboardWriteFailed { error: "gone".to_string() });
    assert_eq!(finish_err(a), "Failed to restore original clipboard text: gone");
}

#[test]
fn mixed_text_with_ideographic_space_translates_trimmed_text() {
    let (mut w, _) = SelectionWorkflow::begin(80);
    let a = to_translation(&mut w, None, "a\u{3000}");
    match a {
        SelectionAction::Translate { text } => assert_eq!(text, "a"),
        other => panic!("{:?}", other),
    }
}

#[test]
fn modifier_polling() {
    assert_eq!(modifier_poll_step(false, [0, 0, 0], [0, 0, 0]), PollStep::TimedOut);
    assert_eq!(modifier_poll_step(true, [0, 0, 0], [0, 0, 0]), PollStep::Done { settle_ms: 30 });
    assert_eq!(modifier_poll_step(true, [0, -1, 0], [0, 0, 0]), PollStep::Retry { sleep_ms: 10 });
    assert_eq!(modifier_poll_step(true, [0, 0, 0], [0, 0, i16::MIN]), PollStep::Retry { sleep_ms: 10 });
}

#[test]
fn clipboard_polling() {
    assert_eq!(clipboard_poll_step(false, 5, 6), PollStep::TimedOut);
    assert_eq!(clipboard_poll_step(true, 5, 6), PollStep::Done { settle_ms: 30 });
    assert_eq!(clipboard_poll_step(true, 5, 5), PollStep::Retry { sleep_ms: 20 });
}
