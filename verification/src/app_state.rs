//! What the application's commands do to the shared state: saving settings
//! applies them to the translation service and the monitor; toggling flips
//! translation on or off and records it in the settings.

use vstd::prelude::*;

use crate::config::{
    is_normalized, is_supported_model, normalized_api_url, normalized_delay, normalized_model,
    normalizes_to, AppConfig,
};
use crate::input_monitor::{InputMonitor, MonitorState};
use crate::translate_service::TranslateService;

verus! {

/// The monitor state after a toggle.
pub open spec fn toggled(s: MonitorState) -> MonitorState {
    MonitorState { enabled: !s.enabled, busy: s.busy, settle_delay_ms: s.settle_delay_ms }
}

/// Flip translation on or off: the monitor takes the opposite of its current
/// state, and the settings record it (the caller then saves them). Returns
/// the new state.
pub fn toggle_enabled_state(monitor: &mut InputMonitor, config: &mut AppConfig) -> (new_state: bool)
    ensures
        new_state == !old(monitor)@.enabled,
        final(monitor)@ == toggled(old(monitor)@),
        final(config).enabled == new_state,
        final(config).api_key == old(config).api_key,
        final(config).api_base_url == old(config).api_base_url,
        final(config).model == old(config).model,
        final(config).settle_delay_ms == old(config).settle_delay_ms,
{
    let current = monitor.is_enabled();
    let new_state = !current;
    monitor.set_enabled(new_state);
    config.enabled = new_state;
    new_state
}

/// Apply settings: normalise them, hand the API key, address and model to
/// the translation service and the on/off switch and the copy/paste wait to
/// the monitor. Returns the normalised settings, which the caller stores and
/// saves.
pub fn apply_config(config: AppConfig, translator: &mut TranslateService, monitor: &mut InputMonitor) -> (r:
    AppConfig)
    ensures
        normalizes_to(config, r),
        is_normalized(r),
        final(translator)@.api_key == config.api_key@,
        final(translator)@.api_base_url == normalized_api_url(config.api_base_url@),
        final(translator)@.model == normalized_model(config.model@),
        final(monitor)@ == (MonitorState {
            enabled: config.enabled,
            busy: old(monitor)@.busy,
            settle_delay_ms: normalized_delay(config.settle_delay_ms),
        }),
{
    let cfg = config.normalized();
    translator.set_api_key(cfg.api_key.clone());
    translator.set_api_base_url(cfg.api_base_url.clone());
    translator.set_model(cfg.model.clone());
    monitor.set_enabled(cfg.enabled);
    monitor.set_settle_delay_ms(cfg.settle_delay_ms);
    cfg
}

/// Toggling twice leaves the monitor as it was.
pub proof fn law_toggle_twice_is_identity(s: MonitorState)
    ensures
        toggled(toggled(s)) == s,
{
}

/// After settings are applied, the service always uses a supported model,
/// whatever model the settings named.
pub proof fn law_applied_model_supported(model: Seq<char>)
    ensures
        is_supported_model(normalized_model(model)),
{
}

} // verus!
