//! Application state, configuration migration, history, logging,
//! post-processing decisions, and text utilities.

use speaky::history::{History, MAX_HISTORY_ENTRIES};
use speaky::input::InjectionTracker;
use speaky::logging::{tail_start, FileLogger};
use speaky::postprocess::{
    calculate_timeout, get_prompt, postprocess_plan, LlmProvider, PostProcessConfig,
    PostProcessMode, GENERAL_PROMPT,
};
use speaky::state::{provider_start_error, set_whisper_model, AppConfig, AppState, AsrConfig, RecordingState};
use speaky::text::u64_to_string;

#[test]
fn only_one_recording_at_a_time() {
    let mut state = AppState::new(AppConfig::default());
    assert!(state.try_start_recording());
    assert_eq!(state.get_recording_state(), RecordingState::Recording);
    // starting again while recording fails fast
    assert!(!state.try_start_recording());
    assert!(state.try_stop_recording());
    assert_eq!(state.get_recording_state(), RecordingState::Processing);
    assert!(!state.try_stop_recording());
    state.set_recording_state(RecordingState::Idle);
    assert!(state.try_start_recording());
}

#[test]
fn transcript_tracking() {
    let mut state = AppState::new(AppConfig::default());
    state.set_transcript("你好".to_string());
    assert_eq!(state.get_transcript(), "你好");
    state.clear_transcript();
    assert_eq!(state.get_transcript(), "");
}

#[test]
fn legacy_credentials_migrate_into_doubao_section() {
    let mut config = AppConfig::default();
    config.app_id = "legacy-app".to_string();
    config.access_token = "legacy-token".to_string();
    config.secret_key = "legacy-secret".to_string();
    config.migrate_legacy_asr_config();
    assert_eq!(config.app_id, "");
    assert_eq!(config.access_token, "");
    assert_eq!(config.secret_key, "");
    let doubao = config.asr.doubao.unwrap();
    assert_eq!(doubao.app_id, "legacy-app");
    assert_eq!(doubao.access_token, "legacy-token");
    assert_eq!(doubao.secret_key, "legacy-secret");
}

#[test]
fn migration_keeps_configured_doubao_section() {
    let mut config = AppConfig::default();
    config.app_id = "legacy".to_string();
    config.access_token = "legacy".to_string();
    config.asr.doubao = Some(speaky::doubao::DoubaoConfig {
        app_id: "kept".to_string(),
        access_token: "kept".to_string(),
        secret_key: String::new(),
    });
    config.migrate_legacy_asr_config();
    assert_eq!(config.app_id, "");
    assert_eq!(config.asr.doubao.unwrap().app_id, "kept");
}

#[test]
fn migration_without_legacy_fields_changes_nothing() {
    let mut config = AppConfig::default();
    config.migrate_legacy_asr_config();
    assert_eq!(config.asr.doubao.unwrap().app_id, "");
    assert_eq!(config.shortcut, "Alt+Space");
}

#[test]
fn start_errors_follow_active_provider() {
    let asr = AsrConfig::default();
    // default doubao section is not configured
    assert_eq!(
        provider_start_error(&asr, false).as_deref(),
        Some("请先配置豆包 App ID 和 Access Token")
    );
    let mut configured = AsrConfig::default();
    configured.doubao = Some(speaky::doubao::DoubaoConfig {
        app_id: "a".to_string(),
        access_token: "t".to_string(),
        secret_key: String::new(),
    });
    assert_eq!(provider_start_error(&configured, false), None);
    let mut local = AsrConfig::default();
    local.active_provider = "whisper_local".to_string();
    assert_eq!(provider_start_error(&local, false).as_deref(), Some("请先下载 Whisper 模型"));
    assert_eq!(provider_start_error(&local, true), None);
    let mut unknown = AsrConfig::default();
    unknown.active_provider = "nonsense".to_string();
    assert_eq!(provider_start_error(&unknown, true).as_deref(), Some("未知的 ASR Provider"));
}

#[test]
fn history_adds_newest_first_and_caps() {
    let mut history = History::new();
    history.add_entry("one".to_string());
    history.add_entry("two".to_string());
    assert_eq!(history.entries.len(), 2);
    assert_eq!(history.entries[0].text, "two");
    assert_eq!(history.entries[1].text, "one");
    assert_eq!(history.entries[0].id.len(), 36);
    // blank text is skipped
    history.add_entry("   ".to_string());
    assert_eq!(history.entries.len(), 2);
    for i in 0..MAX_HISTORY_ENTRIES {
        history.add_entry(format!("entry {}", i));
    }
    assert_eq!(history.entries.len(), MAX_HISTORY_ENTRIES);
}

#[test]
fn history_delete_and_clear() {
    let mut history = History::new();
    history.add_entry("keep".to_string());
    history.add_entry("drop".to_string());
    let id = history.entries[0].id.clone();
    assert!(history.delete_entry(&id));
    assert_eq!(history.entries.len(), 1);
    assert_eq!(history.entries[0].text, "keep");
    assert!(!history.delete_entry("no-such-id"));
    history.clear();
    assert!(history.entries.is_empty());
}

#[test]
fn log_line_layout_and_tail_window() {
    let line = FileLogger::format_line("2024-01-01 10:00:00", "INFO", "started");
    assert_eq!(line, "[2024-01-01 10:00:00] [INFO] started");
    assert_eq!(tail_start(1000, 500), 500);
    assert_eq!(tail_start(10, 500), 0);
    let mut logger = FileLogger::new(true);
    assert!(logger.is_logging_enabled());
    logger.set_logging_enabled(false);
    assert!(!logger.is_logging_enabled());
}

#[test]
fn injection_tracker_erases_previous_text() {
    let mut tracker = InjectionTracker::new();
    assert_eq!(tracker.plan_update("hello"), 0);
    // the next update erases the five characters injected before
    assert_eq!(tracker.plan_update("hello world"), 5);
    assert_eq!(tracker.plan_update("你好"), 11);
    // multi-byte characters count as characters, not bytes
    assert_eq!(tracker.plan_update(""), 2);
    tracker.finish_realtime_input();
    assert_eq!(tracker.last_input_len, 0);
}

#[test]
fn timeout_grows_with_text_and_caps_at_ten_seconds() {
    assert_eq!(calculate_timeout(0), 3000);
    assert_eq!(calculate_timeout(100), 3500);
    assert_eq!(calculate_timeout(1400), 10000);
    assert_eq!(calculate_timeout(100_000), 10000);
}

#[test]
fn prompts_follow_mode() {
    assert_eq!(get_prompt(&PostProcessMode::General), GENERAL_PROMPT);
    assert!(get_prompt(&PostProcessMode::Code).contains("注释"));
    assert!(get_prompt(&PostProcessMode::Meeting).contains("会议"));
}

#[test]
fn active_provider_is_first_match() {
    let mut config = PostProcessConfig::default();
    config.providers.push(LlmProvider {
        id: "default".to_string(),
        name: "Shadowed".to_string(),
        api_base: String::new(),
        api_key: String::new(),
        model: String::new(),
    });
    let active = config.get_active_provider().unwrap();
    assert_eq!(active.name, "DeepSeek");
    config.active_provider_id = "absent".to_string();
    assert!(config.get_active_provider().is_none());
}

#[test]
fn postprocess_plan_decides_when_to_call() {
    let mut config = PostProcessConfig::default();
    // disabled: no call
    assert!(postprocess_plan("text", &config).is_none());
    config.enabled = true;
    // no key on the active provider: no call
    assert!(postprocess_plan("text", &config).is_none());
    config.providers[0].api_key = "k".to_string();
    // blank text: no call
    assert!(postprocess_plan("  \n ", &config).is_none());
    let plan = postprocess_plan("fix this text", &config).unwrap();
    assert_eq!(plan.client.model, "deepseek-chat");
    assert_eq!(plan.prompt, GENERAL_PROMPT);
    assert_eq!(plan.timeout_ms, 3000 + 13 * 5);
    let messages = plan.client.chat_messages("fix this text", plan.prompt);
    assert_eq!(messages.len(), 2);
    assert_eq!(messages[0].role, "system");
    assert_eq!(messages[1].content, "fix this text");
}

#[test]
fn decimal_rendering() {
    assert_eq!(u64_to_string(0), "0");
    assert_eq!(u64_to_string(7), "7");
    assert_eq!(u64_to_string(105), "105");
    assert_eq!(u64_to_string(u64::MAX), "18446744073709551615");
}

#[test]
fn selecting_a_model_rewrites_the_local_section() {
    let mut config = AppConfig::default();
    assert!(set_whisper_model(&mut config, "ggml-large-v3.bin"));
    let section = config.asr.whisper_local.clone().unwrap();
    assert_eq!(section.model_size, speaky::whisper_local::WhisperModelSize::LargeV3);
    assert_eq!(section.language, "zh");
    assert!(!set_whisper_model(&mut config, "unknown.bin"));
    assert_eq!(
        config.asr.whisper_local.unwrap().model_size,
        speaky::whisper_local::WhisperModelSize::LargeV3
    );
}
