use cn2en::{apply_config, toggle_enabled_state, AppConfig, InputMonitor, TranslateService};

#[test]
fn toggle_flips_monitor_and_config() {
    let mut m = InputMonitor::new();
    let mut c = AppConfig::default();
    assert!(!toggle_enabled_state(&mut m, &mut c));
    assert!(!m.is_enabled());
    assert!(!c.enabled);
    assert!(toggle_enabled_state(&mut m, &mut c));
    assert!(m.is_enabled());
    assert!(c.enabled);
    assert_eq!(c.model, "deepseek-v4-flash");
}

#[test]
fn toggle_follows_monitor_not_config() {
    let mut m = InputMonitor::new();
    let mut c = AppConfig {
        api_key: "k".into(),
        api_base_url: "u".into(),
        model: "deepseek-v4-pro".into(),
        enabled: false,
        settle_delay_ms: 250,
    };
    assert!(!toggle_enabled_state(&mut m, &mut c));
    assert!(!c.enabled);
    assert_eq!(c.api_key, "k");
    assert_eq!(c.settle_delay_ms, 250);
}

#[test]
fn apply_config_normalizes_and_applies() {
    let mut t = TranslateService::new();
    let mut m = InputMonitor::new();
    let cfg = AppConfig {
        api_key: "sk-1".into(),
        api_base_url: " ".into(),
        model: "unknown".into(),
        enabled: false,
        settle_delay_ms: 1000,
    };
    let applied = apply_config(cfg, &mut t, &mut m);
    assert_eq!(applied.model, "deepseek-v4-flash");
    assert_eq!(applied.api_key, "sk-1");
    assert_eq!(applied.settle_delay_ms, 800);
    assert!(!m.is_enabled());
    assert_eq!(m.settle_delay_ms(), 800);
    let plan = t.request_for("中").unwrap();
    assert_eq!(plan.authorization, "Bearer sk-1");
    assert_eq!(plan.model, "deepseek-v4-flash");
    assert_eq!(plan.url, "https://api.deepseek.com/v1/chat/completions");
}
