//! Verified core of a tray tool that turns a selected Chinese passage into
//! English: text analysis, configuration rules, the hotkey and monitor state
//! machines, the selection workflow, the translation request rules and the
//! UI Automation decisions.

mod app_state;
mod chinese_detector;
mod config;
mod focused_text;
mod input_monitor;
mod keyboard_hook;
mod search_order;
mod selection_translate;
mod text;
mod translate_service;
mod tray;
mod uia_service;

pub use app_state::{
    apply_config, law_applied_model_supported, law_toggle_twice_is_identity,
    toggle_enabled_state, toggled,
};
pub use chinese_detector::{
    cjk_run_start, contains_chinese, extract_tail_chinese_segment, has_cjk, is_cjk, is_cjk_char,
    lemma_cjk_run_start, lemma_tail_segment_range, tail_segment_range, ChineseSegment,
};
pub use config::{
    config_from_stored, default_api_base_url, default_api_url, default_model, flash_model,
    init_config_file_if_missing, is_default_config, is_normalized, is_supported_model,
    is_supported_model_name, law_default_is_normalized, law_normal_form_kept,
    law_normalization_idempotent, law_supported_models_are_flash_and_pro, normalize_delay, normalized_api_url, normalized_delay,
    normalized_model, normalizes_to, pro_model, AppConfig, DEFAULT_SETTLE_DELAY_MS,
    MAX_SETTLE_DELAY_MS, MIN_SETTLE_DELAY_MS,
};
pub use focused_text::{
    law_splice_own_segment_is_identity, law_tail_replacement_shape, law_tail_segment_fits,
    law_tail_segment_is_chinese, splice, FocusedTextSnapshot,
};
pub use input_monitor::{
    after_presses, apply_input, finishes_follow_runs, law_at_most_one_run,
    law_disabled_never_starts, law_finish_then_hotkey_starts, law_idle_enabled_starts,
    law_single_run_at_a_time, monitor_step, run_inputs, starts_run, InputMonitor, MonitorAction,
    MonitorInput, MonitorState,
};
pub use keyboard_hook::{
    confirm_with_physical_state, hook_decision, hotkey_modifiers_down, is_alt_vk, is_ctrl_vk,
    is_key_down, is_keydown_message, law_only_hotkey_letter_triggers,
    law_released_modifier_needs_physical_check, law_tracked_chord_triggers,
    law_trigger_needs_ctrl_and_alt, synced_state,
    HookDecision, KeyEvent, ModifierState, HOTKEY_VK, WM_KEYDOWN, WM_SYSKEYDOWN,
};
pub use search_order::{
    all_at, all_within, expand_all, frontier, is_first_candidate, kids,
    law_search_finds_first_in_level_order, lemma_expand_concat, lemma_expand_deeper,
    lemma_expand_level, lemma_expansion_fixpoint_empty, lemma_level_depths,
    lemma_level_order_shape, level, level_order,
};
pub use selection_translate::{
    action_view, clipboard_wait_ms, clipboard_wait_timeout_ms, event_expected, failed,
    events_expected, law_backup_held_through_run, law_backup_kept,
    law_restores_clipboard_text_exactly, state_after, law_fallback_only_after_primary_fails, law_paste_only_translation,
    law_restore_backup, law_run_moves_forward, law_success_only_after_paste,
    clipboard_poll_step, law_translate_only_chinese, modifier_poll_step, moved, option_view,
    phase_rank, selection_step, ActionSpec, PollStep, CLIPBOARD_POLL_MS, MODIFIER_POLL_MS,
    POLL_SETTLE_MS,
    SelectionAction, SelectionEvent, SelectionPhase, SelectionWorkflow, WorkflowState, COPY_MODIFIER_TIMEOUT_MS, MIN_CLIPBOARD_WAIT_MS,
    PASTE_MODIFIER_TIMEOUT_MS, VK_C, VK_INSERT, VK_V,
};
pub use text::{
    chars_of, is_blank, is_blank_str, is_white_space, is_whitespace, leading_count,
    lemma_leading_count, lemma_trailing_end, lemma_trim_empty_iff_blank, lemma_trim_idempotent,
    prefixed, result_view, trailing_end, trim, trim_seq,
};
pub use translate_service::{
    law_first_choice_is_the_translation, law_later_choices_ignored, law_translation_is_trimmed,
    reply_outcome, system_prompt_text, translation_from_reply,
    ChatReply, ChatRequestPlan, TranslateService, TranslatorSettings,
};
pub use tray::{
    click_toggles, menu_action, menu_items, settings_window_label, settings_window_title,
    tooltip_text, tray_id, tray_ids_to_clear, tray_tooltip, TrayMenuAction,
};
pub use uia_service::{
    at_depth, bfs_first, depths_in_bounds, element_text, law_bfs_finds_candidate_within_depth,
    law_children_queued_behind, law_report_follows_bfs, law_search_depth_bounded,
    law_later_patterns_unread, law_stage_order_matches_list, law_write_pattern_choice, no_readable_text, queued_after,
    reading_settles, report_step, stage_at, take_next, target_search_stages, write_pattern,
    AncestorClimb, AncestorStep, DescendantSearch, ElementReading, SearchStage, SearchStep,
    StageOutcome, TargetDecision, TargetSearch, TextPatternReading, TreeView, UiaService,
    WritePattern, ANCESTOR_SEARCH_LIMIT, SEARCH_MAX_DEPTH, TARGET_SEARCH_STAGES,
};
