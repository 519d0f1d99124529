//! Application configuration and the single-session recording state.

use vstd::prelude::*;

use crate::doubao::DoubaoConfig;
use crate::postprocess::PostProcessConfig;
use crate::text::str_eq;
use crate::whisper_api::WhisperApiConfig;
use crate::whisper_local::{spec_from_filename, WhisperLocalConfig, WhisperModelSize};

verus! {

/// Where the application stands: at most one recording runs at a time.
#[derive(Clone, Copy, Debug, PartialEq, Eq, Structural)]
pub enum RecordingState {
    Idle,
    Recording,
    Processing,
}

/// The backend id selected out of the box.
pub fn default_active_provider() -> (r: String)
    ensures
        r@ == ("doubao")@,
{
    String::from_str("doubao")
}

/// Which recognition backend is active and how each is configured.
#[derive(Clone, Debug)]
pub struct AsrConfig {
    /// The active backend id: `doubao`, `whisper_local` or
    /// `whisper_api`.
    pub active_provider: String,
    pub doubao: Option<DoubaoConfig>,
    pub whisper_local: Option<WhisperLocalConfig>,
    pub whisper_api: Option<WhisperApiConfig>,
}

impl Default for AsrConfig {
    fn default() -> (r: AsrConfig)
        ensures
            r.active_provider@ == ("doubao")@,
            r.doubao matches Some(c) && c.app_id@.len() == 0 && c.access_token@.len() == 0
                && c.secret_key@.len() == 0,
            r.whisper_local is None,
            r.whisper_api is None,
    {
        AsrConfig {
            active_provider: default_active_provider(),
            doubao: Some(DoubaoConfig::default()),
            whisper_local: None,
            whisper_api: None,
        }
    }
}

/// The default recognition language.
pub fn default_asr_language() -> (r: String)
    ensures
        r@ == ("zh")@,
{
    String::from_str("zh")
}

/// Whether the recording indicator is shown by default.
pub fn default_show_indicator() -> (r: bool)
    ensures
        r,
{
    true
}

/// Whether file logging is on by default.
pub fn default_enable_logging() -> (r: bool)
    ensures
        r,
{
    true
}

/// The persisted application configuration. The three bare credential
/// fields are a legacy layout kept only to be migrated into
/// `asr.doubao` on load.
#[derive(Clone, Debug)]
pub struct AppConfig {
    pub asr: AsrConfig,
    pub app_id: String,
    pub access_token: String,
    pub secret_key: String,
    pub shortcut: String,
    pub auto_type: bool,
    pub auto_copy: bool,
    pub auto_start: bool,
    pub silent_start: bool,
    pub show_indicator: bool,
    pub realtime_input: bool,
    pub postprocess: PostProcessConfig,
    pub audio_device: String,
    pub enable_logging: bool,
    pub asr_language: String,
}

impl Default for AppConfig {
    fn default() -> (r: AppConfig)
        ensures
            r.asr.active_provider@ == ("doubao")@,
            r.app_id@.len() == 0,
            r.access_token@.len() == 0,
            r.secret_key@.len() == 0,
            r.shortcut@ == ("Alt+Space")@,
            r.auto_type,
            r.auto_copy,
            !r.auto_start,
            !r.silent_start,
            r.show_indicator,
            !r.realtime_input,
            r.audio_device@.len() == 0,
            r.enable_logging,
            r.asr_language@ == ("zh")@,
    {
        AppConfig {
            asr: AsrConfig::default(),
            app_id: String::new(),
            access_token: String::new(),
            secret_key: String::new(),
            shortcut: String::from_str("Alt+Space"),
            auto_type: true,
            auto_copy: true,
            auto_start: false,
            silent_start: false,
            show_indicator: true,
            realtime_input: false,
            postprocess: PostProcessConfig::default(),
            audio_device: String::new(),
            enable_logging: true,
            asr_language: default_asr_language(),
        }
    }
}

impl AppConfig {
    /// Moves credentials out of the legacy bare fields into the
    /// `asr.doubao` section: where any legacy credential is present,
    /// the bare fields are cleared, and they become the doubao
    /// configuration unless one is already configured there.
    pub fn migrate_legacy_asr_config(&mut self)
        ensures
            ({
                let legacy = old(self).app_id@.len() > 0 || old(self).access_token@.len() > 0;
                let doubao_open = match old(self).asr.doubao {
                    Option::None => true,
                    Option::Some(c) => !(c.app_id@.len() > 0 && c.access_token@.len() > 0),
                };
                &&& (!legacy ==> *final(self) == *old(self))
                &&& (legacy ==> final(self).app_id@.len() == 0 && final(self).access_token@.len()
                    == 0 && final(self).secret_key@.len() == 0)
                &&& (legacy && doubao_open ==> (final(self).asr.doubao matches Some(c)
                    && c.app_id@ == old(self).app_id@ && c.access_token@ == old(self).access_token@
                    && c.secret_key@ == old(self).secret_key@))
                &&& (legacy && !doubao_open ==> final(self).asr.doubao == old(self).asr.doubao)
                &&& final(self).asr.active_provider == old(self).asr.active_provider
                &&& final(self).asr.whisper_local == old(self).asr.whisper_local
                &&& final(self).asr.whisper_api == old(self).asr.whisper_api
                &&& final(self).shortcut == old(self).shortcut
                &&& final(self).auto_type == old(self).auto_type
                &&& final(self).auto_copy == old(self).auto_copy
                &&& final(self).auto_start == old(self).auto_start
                &&& final(self).silent_start == old(self).silent_start
                &&& final(self).show_indicator == old(self).show_indicator
                &&& final(self).realtime_input == old(self).realtime_input
                &&& final(self).postprocess == old(self).postprocess
                &&& final(self).audio_device == old(self).audio_device
                &&& final(self).enable_logging == old(self).enable_logging
                &&& final(self).asr_language == old(self).asr_language
            }),
    {
        let legacy = !self.app_id.as_str().is_empty() || !self.access_token.as_str().is_empty();
        if legacy {
            let migrate = match &self.asr.doubao {
                Option::None => true,
                Option::Some(c) => !c.is_configured(),
            };
            let moved = DoubaoConfig {
                app_id: self.app_id.clone(),
                access_token: self.access_token.clone(),
                secret_key: self.secret_key.clone(),
            };
            self.app_id = String::new();
            self.access_token = String::new();
            self.secret_key = String::new();
            if migrate {
                self.asr.doubao = Some(moved);
            }
        }
    }
}

/// Why recording cannot start, per backend: the message shown where
/// the active backend is not ready.
pub open spec fn spec_provider_start_error(
    active: Seq<char>,
    doubao_ready: bool,
    whisper_model_downloaded: bool,
    whisper_api_ready: bool,
) -> Option<Seq<char>> {
    if active == ("doubao")@ {
        if doubao_ready {
            None
        } else {
            Some(("请先配置豆包 App ID 和 Access Token")@)
        }
    } else if active == ("whisper_local")@ {
        if whisper_model_downloaded {
            None
        } else {
            Some(("请先下载 Whisper 模型")@)
        }
    } else if active == ("whisper_api")@ {
        if whisper_api_ready {
            None
        } else {
            Some(("请先配置 Whisper API Key")@)
        }
    } else {
        Some(("未知的 ASR Provider")@)
    }
}

/// Decides whether recording may start with the active backend, and
/// with which message it is refused. Whether the local model artifact
/// is on disk is the caller's filesystem fact, passed in.
pub fn provider_start_error(asr: &AsrConfig, whisper_model_downloaded: bool) -> (r: Option<String>)
    ensures
        ({
            let doubao_ready = match asr.doubao {
                Option::Some(c) => c.app_id@.len() > 0 && c.access_token@.len() > 0,
                Option::None => false,
            };
            let api_ready = match asr.whisper_api {
                Option::Some(c) => c.api_key@.len() > 0,
                Option::None => false,
            };
            let expected = spec_provider_start_error(
                asr.active_provider@,
                doubao_ready,
                whisper_model_downloaded,
                api_ready,
            );
            &&& (r is Some <==> expected is Some)
            &&& (r is Some ==> r.unwrap()@ == expected.unwrap())
        }),
{
    if str_eq(asr.active_provider.as_str(), "doubao") {
        let ready = match &asr.doubao {
            Some(c) => c.is_configured(),
            None => false,
        };
        if ready {
            None
        } else {
            Some(String::from_str("请先配置豆包 App ID 和 Access Token"))
        }
    } else if str_eq(asr.active_provider.as_str(), "whisper_local") {
        if whisper_model_downloaded {
            None
        } else {
            Some(String::from_str("请先下载 Whisper 模型"))
        }
    } else if str_eq(asr.active_provider.as_str(), "whisper_api") {
        let ready = match &asr.whisper_api {
            Some(c) => c.is_configured(),
            None => false,
        };
        if ready {
            None
        } else {
            Some(String::from_str("请先配置 Whisper API Key"))
        }
    } else {
        Some(String::from_str("未知的 ASR Provider"))
    }
}

/// Selects the local model a file name names: succeeds — rewriting the
/// local backend's configuration to that size, keeping its other
/// settings (or defaults where the section was absent) — exactly when
/// the name is a known artifact.
pub fn set_whisper_model(config: &mut AppConfig, model_id: &str) -> (r: bool)
    ensures
        r <==> spec_from_filename(model_id@) is Some,
        !r ==> *final(config) == *old(config),
        r ==> (final(config).asr.whisper_local matches Some(w) && w.model_size
            == spec_from_filename(model_id@).unwrap() && (match old(config).asr.whisper_local {
            Option::Some(o) => (w.model_path is Some <==> o.model_path is Some) && (w.model_path
                is Some ==> w.model_path.unwrap()@ == o.model_path.unwrap()@) && w.language@
                == o.language@ && w.translate_to_english == o.translate_to_english,
            Option::None => w.model_path is None && w.language@ == ("zh")@
                && !w.translate_to_english,
        })),
        final(config).asr.active_provider == old(config).asr.active_provider,
        final(config).asr.doubao == old(config).asr.doubao,
        final(config).asr.whisper_api == old(config).asr.whisper_api,
{
    let size = match WhisperModelSize::from_filename(model_id) {
        Some(size) => size,
        None => {
            return false;
        },
    };
    let mut section = match &config.asr.whisper_local {
        Some(w) => WhisperLocalConfig {
            model_size: w.model_size,
            model_path: match &w.model_path {
                Some(p) => Some(p.clone()),
                None => None,
            },
            language: w.language.clone(),
            translate_to_english: w.translate_to_english,
        },
        None => WhisperLocalConfig::default(),
    };
    section.model_size = size;
    config.asr.whisper_local = Some(section);
    true
}

/// The application's mutable state: the recording phase, the running
/// transcript, and the loaded configuration. Persistence and sharing
/// across threads are the embedding's concern.
pub struct AppState {
    pub recording_state: RecordingState,
    pub current_transcript: String,
    pub config: AppConfig,
}

impl AppState {
    /// A fresh state: idle, empty transcript, the given configuration.
    pub fn new(config: AppConfig) -> (r: AppState)
        ensures
            r.recording_state == RecordingState::Idle,
            r.current_transcript@.len() == 0,
            r.config == config,
    {
        AppState { recording_state: RecordingState::Idle, current_transcript: String::new(), config }
    }

    pub fn set_recording_state(&mut self, state: RecordingState)
        ensures
            final(self).recording_state == state,
            final(self).current_transcript == old(self).current_transcript,
            final(self).config == old(self).config,
    {
        self.recording_state = state;
    }

    pub fn get_recording_state(&self) -> (r: RecordingState)
        ensures
            r == self.recording_state,
    {
        self.recording_state
    }

    pub fn set_transcript(&mut self, text: String)
        ensures
            final(self).current_transcript@ == text@,
            final(self).recording_state == old(self).recording_state,
            final(self).config == old(self).config,
    {
        self.current_transcript = text;
    }

    pub fn get_transcript(&self) -> (r: String)
        ensures
            r@ == self.current_transcript@,
    {
        self.current_transcript.clone()
    }

    pub fn clear_transcript(&mut self)
        ensures
            final(self).current_transcript@.len() == 0,
            final(self).recording_state == old(self).recording_state,
            final(self).config == old(self).config,
    {
        self.current_transcript = String::new();
    }

    pub fn update_config(&mut self, config: AppConfig)
        ensures
            final(self).config == config,
            final(self).recording_state == old(self).recording_state,
            final(self).current_transcript == old(self).current_transcript,
    {
        self.config = config;
    }

    /// Starting while another session runs must fail fast: succeeds —
    /// entering `Recording` with a cleared transcript — exactly when no
    /// recording is active.
    pub fn try_start_recording(&mut self) -> (r: bool)
        ensures
            r <==> old(self).recording_state != RecordingState::Recording,
            r ==> final(self).recording_state == RecordingState::Recording,
            r ==> final(self).current_transcript@.len() == 0,
            !r ==> *final(self) == *old(self),
            final(self).config == old(self).config,
    {
        if self.recording_state == RecordingState::Recording {
            false
        } else {
            self.recording_state = RecordingState::Recording;
            self.current_transcript = String::new();
            true
        }
    }

    /// Stopping succeeds — entering `Processing` — exactly when a
    /// recording is active.
    pub fn try_stop_recording(&mut self) -> (r: bool)
        ensures
            r <==> old(self).recording_state == RecordingState::Recording,
            r ==> final(self).recording_state == RecordingState::Processing,
            !r ==> *final(self) == *old(self),
            final(self).config == old(self).config,
            final(self).current_transcript == old(self).current_transcript,
    {
        if self.recording_state == RecordingState::Recording {
            self.recording_state = RecordingState::Processing;
            true
        } else {
            false
        }
    }
}

} // verus!
