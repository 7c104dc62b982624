//! The user's settings: API key, API address, model, copy/paste wait, and
//! whether translation is on; the rules that keep them in range; and what
//! goes to disk.

use vstd::prelude::*;

use crate::text::{is_blank, is_blank_str};

verus! {

/// The model used when none (or an unknown one) is configured.
pub open spec fn flash_model() -> Seq<char> {
    "deepseek-v4-flash"@
}

/// The higher-quality model.
pub open spec fn pro_model() -> Seq<char> {
    "deepseek-v4-pro"@
}

/// The API address used when none is configured.
pub open spec fn default_api_url() -> Seq<char> {
    "https://api.deepseek.com/v1/chat/completions"@
}

/// The shortest copy/paste wait the settings allow, in ms.
pub const MIN_SETTLE_DELAY_MS: u64 = 80;

/// The longest copy/paste wait the settings allow, in ms.
pub const MAX_SETTLE_DELAY_MS: u64 = 800;

/// The copy/paste wait when none is configured, in ms.
pub const DEFAULT_SETTLE_DELAY_MS: u64 = 180;

/// The models the tool accepts.
pub open spec fn is_supported_model(model: Seq<char>) -> bool {
    model == flash_model() || model == pro_model()
}

/// A model name after normalisation: kept when supported, else the default.
pub open spec fn normalized_model(model: Seq<char>) -> Seq<char> {
    if is_supported_model(model) {
        model
    } else {
        flash_model()
    }
}

/// An API address after normalisation: kept unless blank, else the default.
pub open spec fn normalized_api_url(url: Seq<char>) -> Seq<char> {
    if is_blank(url) {
        default_api_url()
    } else {
        url
    }
}

/// A copy/paste wait after normalisation: brought into the allowed range.
pub open spec fn normalized_delay(ms: u64) -> u64 {
    if ms < MIN_SETTLE_DELAY_MS {
        MIN_SETTLE_DELAY_MS
    } else if ms > MAX_SETTLE_DELAY_MS {
        MAX_SETTLE_DELAY_MS
    } else {
        ms
    }
}

/// The settings the tool keeps in its configuration file.
#[derive(Debug, Clone)]
pub struct AppConfig {
    pub api_key: String,
    pub api_base_url: String,
    pub model: String,
    pub enabled: bool,
    pub settle_delay_ms: u64,
}

/// The settings are in their normal form: a supported model, a non-blank
/// API address, and a wait in the allowed range.
pub open spec fn is_normalized(cfg: AppConfig) -> bool {
    &&& is_supported_model(cfg.model@)
    &&& !is_blank(cfg.api_base_url@)
    &&& MIN_SETTLE_DELAY_MS <= cfg.settle_delay_ms <= MAX_SETTLE_DELAY_MS
}

/// `out` is `cfg` normalised: the same key and switch, the model, address
/// and wait normalised.
pub open spec fn normalizes_to(cfg: AppConfig, out: AppConfig) -> bool {
    &&& out.api_key == cfg.api_key
    &&& out.enabled == cfg.enabled
    &&& out.model@ == normalized_model(cfg.model@)
    &&& out.api_base_url@ == normalized_api_url(cfg.api_base_url@)
    &&& out.settle_delay_ms == normalized_delay(cfg.settle_delay_ms)
}

/// The default settings, field by field: no key, the default address and
/// model, switched on, the default wait.
pub open spec fn is_default_config(cfg: AppConfig) -> bool {
    &&& cfg.api_key@ == Seq::<char>::empty()
    &&& cfg.api_base_url@ == default_api_url()
    &&& cfg.model@ == flash_model()
    &&& cfg.enabled
    &&& cfg.settle_delay_ms == DEFAULT_SETTLE_DELAY_MS
}

/// The default model's name.
pub fn default_model() -> (r: String)
    ensures
        r@ == flash_model(),
{
    String::from_str("deepseek-v4-flash")
}

/// The default API address.
pub fn default_api_base_url() -> (r: String)
    ensures
        r@ == default_api_url(),
{
    String::from_str("https://api.deepseek.com/v1/chat/completions")
}

/// Whether `model` is one of the supported model names.
pub fn is_supported_model_name(model: &String) -> (r: bool)
    ensures
        r == is_supported_model(model@),
{
    let flash = String::from_str("deepseek-v4-flash");
    let pro = String::from_str("deepseek-v4-pro");
    *model == flash || *model == pro
}

/// `normalized_delay`, computed.
pub fn normalize_delay(ms: u64) -> (r: u64)
    ensures
        r == normalized_delay(ms),
{
    if ms < MIN_SETTLE_DELAY_MS {
        MIN_SETTLE_DELAY_MS
    } else if ms > MAX_SETTLE_DELAY_MS {
        MAX_SETTLE_DELAY_MS
    } else {
        ms
    }
}

impl Default for AppConfig {
    /// No API key, the default address and model, translation switched on,
    /// the default wait.
    fn default() -> (r: Self)
        ensures
            is_default_config(r),
    {
        AppConfig {
            api_key: String::new(),
            api_base_url: default_api_base_url(),
            model: default_model(),
            enabled: true,
            settle_delay_ms: DEFAULT_SETTLE_DELAY_MS,
        }
    }
}

impl AppConfig {
    /// The same settings with an unsupported model replaced by the default
    /// one, a blank API address replaced by the default one, and the wait
    /// brought into range.
    pub fn normalized(self) -> (r: Self)
        ensures
            normalizes_to(self, r),
            is_normalized(r),
    {
        proof {
            reveal_strlit("https://api.deepseek.com/v1/chat/completions");
        }
        let mut cfg = self;
        if !is_supported_model_name(&cfg.model) {
            cfg.model = default_model();
        }
        if is_blank_str(cfg.api_base_url.as_str()) {
            cfg.api_base_url = default_api_base_url();
        }
        cfg.settle_delay_ms = normalize_delay(cfg.settle_delay_ms);
        proof {
            assert(!crate::text::is_white_space(default_api_url()[0]));
        }
        cfg
    }
}

/// The settings to use given what was read from the configuration file:
/// the stored settings when the file exists and parses, else the defaults;
/// normalised either way.
pub fn config_from_stored(stored: Option<AppConfig>) -> (r: AppConfig)
    ensures
        match stored {
            Some(cfg) => normalizes_to(cfg, r),
            None => is_default_config(r),
        },
        is_normalized(r),
{
    let cfg = match stored {
        Some(cfg) => cfg,
        None => AppConfig::default(),
    };
    cfg.normalized()
}

/// The settings to write when the configuration file is missing (default
/// settings, so an empty API key), or `None` when the file already exists and
/// nothing is to be written.
pub fn init_config_file_if_missing(config_file_exists: bool) -> (r: Option<AppConfig>)
    ensures
        r is None <==> config_file_exists,
        r matches Some(cfg) ==> is_default_config(cfg),
{
    if config_file_exists {
        return None;
    }
    proof {
        reveal_strlit("https://api.deepseek.com/v1/chat/completions");
        assert(!crate::text::is_white_space(default_api_url()[0]));
    }
    Some(AppConfig::default().normalized())
}

/// Normalising twice is the same as normalising once, and the result is
/// always in normal form.
pub proof fn law_normalization_idempotent(model: Seq<char>, url: Seq<char>, ms: u64)
    ensures
        is_supported_model(normalized_model(model)),
        normalized_model(normalized_model(model)) == normalized_model(model),
        normalized_api_url(normalized_api_url(url)) == normalized_api_url(url),
        MIN_SETTLE_DELAY_MS <= normalized_delay(ms) <= MAX_SETTLE_DELAY_MS,
        normalized_delay(normalized_delay(ms)) == normalized_delay(ms),
{
    reveal_strlit("https://api.deepseek.com/v1/chat/completions");
    assert(!crate::text::is_white_space(default_api_url()[0]));
}

/// Settings already in normal form survive normalisation unchanged.
pub proof fn law_normal_form_kept(model: Seq<char>, url: Seq<char>, ms: u64)
    requires
        is_supported_model(model),
        !is_blank(url),
        MIN_SETTLE_DELAY_MS <= ms <= MAX_SETTLE_DELAY_MS,
    ensures
        normalized_model(model) == model,
        normalized_api_url(url) == url,
        normalized_delay(ms) == ms,
{
}

/// The default settings are in normal form.
pub proof fn law_default_is_normalized(cfg: AppConfig)
    requires
        is_default_config(cfg),
    ensures
        is_normalized(cfg),
{
    reveal_strlit("https://api.deepseek.com/v1/chat/completions");
    assert(!crate::text::is_white_space(default_api_url()[0]));
}

/// Exactly two models are supported, deepseek-v4-flash and deepseek-v4-pro;
/// normalising keeps either of them and turns every other name into
/// deepseek-v4-flash.
pub proof fn law_supported_models_are_flash_and_pro(model: Seq<char>)
    ensures
        is_supported_model(model) <==> (model == "deepseek-v4-flash"@ || model
            == "deepseek-v4-pro"@),
        normalized_model(model) == if model == "deepseek-v4-flash"@ || model
            == "deepseek-v4-pro"@ {
            model
        } else {
            "deepseek-v4-flash"@
        },
{
}

} // verus!
