//! Streaming speech-to-text pipeline: binary frame codec, request signing,
//! session and download state machines, provider selection and result
//! dispatch, with machine-checked contracts.

pub mod audio;
pub mod client;
pub mod dispatch;
pub mod doubao;
pub mod history;
pub mod input;
pub mod logging;
pub mod codec;
pub mod model_manager;
pub mod postprocess;
pub mod protocol;
pub mod provider;
pub mod session;
pub mod shortcut;
pub mod state;
pub mod text;
pub mod whisper_api;
pub mod whisper_local;

pub use text::u64_to_string;
