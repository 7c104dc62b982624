use cn2en::{InputMonitor, KeyEvent, MonitorAction};

#[test]
fn new_monitor_is_enabled_and_idle() {
    let m = InputMonitor::new();
    assert!(m.is_enabled());
    assert!(!m.is_busy());
    assert_eq!(m.settle_delay_ms(), 180);
}

#[test]
fn one_run_at_a_time() {
    let mut m = InputMonitor::new();
    assert_eq!(
        m.start(KeyEvent::TranslateSelection),
        MonitorAction::StartTranslation { settle_delay_ms: 180 }
    );
    assert!(m.is_busy());
    for _ in 0..5 {
        assert_eq!(m.start(KeyEvent::TranslateSelection), MonitorAction::IgnoredBusy);
    }
    m.finish_translation();
    assert!(!m.is_busy());
    m.set_settle_delay_ms(400);
    assert_eq!(
        m.start(KeyEvent::TranslateSelection),
        MonitorAction::StartTranslation { settle_delay_ms: 400 }
    );
}

#[test]
fn disabled_monitor_ignores_hotkey() {
    let mut m = InputMonitor::new();
    m.set_enabled(false);
    assert!(!m.is_enabled());
    assert_eq!(m.start(KeyEvent::TranslateSelection), MonitorAction::IgnoredDisabled);
    assert!(!m.is_busy());
    m.set_enabled(true);
    assert!(matches!(
        m.start(KeyEvent::TranslateSelection),
        MonitorAction::StartTranslation { .. }
    ));
}

#[test]
fn disabling_does_not_stop_a_running_translation() {
    let mut m = InputMonitor::new();
    m.start(KeyEvent::TranslateSelection);
    m.set_enabled(false);
    assert!(m.is_busy());
    m.finish_translation();
    assert!(!m.is_busy());
    assert!(!m.is_enabled());
}
