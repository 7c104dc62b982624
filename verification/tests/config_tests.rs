use cn2en::{
    config_from_stored, default_api_base_url, default_model, init_config_file_if_missing,
    normalize_delay, AppConfig, DEFAULT_SETTLE_DELAY_MS,
};

const URL: &str = "https://api.deepseek.com/v1/chat/completions";

fn cfg(key: &str, url: &str, model: &str, enabled: bool, delay: u64) -> AppConfig {
    AppConfig {
        api_key: key.to_string(),
        api_base_url: url.to_string(),
        model: model.to_string(),
        enabled,
        settle_delay_ms: delay,
    }
}

#[test]
fn default_config() {
    let c = AppConfig::default();
    assert_eq!(c.api_key, "");
    assert_eq!(c.api_base_url, URL);
    assert_eq!(c.model, "deepseek-v4-flash");
    assert!(c.enabled);
    assert_eq!(c.settle_delay_ms, 180);
    assert_eq!(DEFAULT_SETTLE_DELAY_MS, 180);
    assert_eq!(default_model(), "deepseek-v4-flash");
    assert_eq!(default_api_base_url(), URL);
}

#[test]
fn normalized_keeps_supported_values() {
    let c = cfg("k", "https://proxy.example/v1/chat/completions", "deepseek-v4-pro", false, 300)
        .normalized();
    assert_eq!(c.model, "deepseek-v4-pro");
    assert_eq!(c.api_key, "k");
    assert_eq!(c.api_base_url, "https://proxy.example/v1/chat/completions");
    assert!(!c.enabled);
    assert_eq!(c.settle_delay_ms, 300);
    let c = cfg("k", URL, "deepseek-v4-flash", true, 80).normalized();
    assert_eq!(c.model, "deepseek-v4-flash");
    assert_eq!(c.settle_delay_ms, 80);
}

#[test]
fn normalized_replaces_unknown_model() {
    let c = cfg("secret", URL, "gpt-4", true, 180).normalized();
    assert_eq!(c.model, "deepseek-v4-flash");
    assert_eq!(c.api_key, "secret");
    let c = cfg("", URL, "", false, 180).normalized();
    assert_eq!(c.model, "deepseek-v4-flash");
    assert!(!c.enabled);
}

#[test]
fn normalized_fills_blank_address() {
    assert_eq!(cfg("", "", "deepseek-v4-pro", true, 180).normalized().api_base_url, URL);
    assert_eq!(cfg("", "  \t", "deepseek-v4-pro", true, 180).normalized().api_base_url, URL);
}

#[test]
fn normalized_clamps_delay() {
    assert_eq!(normalize_delay(0), 80);
    assert_eq!(normalize_delay(79), 80);
    assert_eq!(normalize_delay(80), 80);
    assert_eq!(normalize_delay(450), 450);
    assert_eq!(normalize_delay(800), 800);
    assert_eq!(normalize_delay(801), 800);
    assert_eq!(normalize_delay(u64::MAX), 800);
    assert_eq!(cfg("", URL, "deepseek-v4-pro", true, 5000).normalized().settle_delay_ms, 800);
}

#[test]
fn normalized_is_idempotent() {
    for (m, u, d) in [("deepseek-v4-pro", "x", 10u64), ("deepseek-chat", "", 900), ("", URL, 200)] {
        let once = cfg("k", u, m, true, d).normalized();
        let twice = once.clone().normalized();
        assert_eq!(once.model, twice.model);
        assert_eq!(once.api_base_url, twice.api_base_url);
        assert_eq!(once.settle_delay_ms, twice.settle_delay_ms);
    }
}

#[test]
fn stored_config_is_normalized() {
    let c = config_from_stored(Some(cfg("key", "", "old-model", false, 20)));
    assert_eq!(c.model, "deepseek-v4-flash");
    assert_eq!(c.api_key, "key");
    assert_eq!(c.api_base_url, URL);
    assert_eq!(c.settle_delay_ms, 80);
    assert!(!c.enabled);
    let c = config_from_stored(None);
    assert_eq!(c.api_key, "");
    assert_eq!(c.model, "deepseek-v4-flash");
    assert_eq!(c.settle_delay_ms, 180);
    assert!(c.enabled);
}

#[test]
fn init_config_only_when_missing() {
    assert!(init_config_file_if_missing(true).is_none());
    let c = init_config_file_if_missing(false).unwrap();
    assert_eq!(c.api_key, "");
    assert_eq!(c.api_base_url, URL);
    assert_eq!(c.model, "deepseek-v4-flash");
    assert!(c.enabled);
    assert_eq!(c.settle_delay_ms, 180);
}
