//! The provider abstraction shared by all recognition backends:
//! results, errors, status reporting, and model bookkeeping types.

use vstd::prelude::*;

verus! {

/// One recognition result in the unified form every backend emits:
/// the text and whether it is the authoritative final form (`false`
/// marks an interim guess).
#[derive(Clone, Debug)]
pub struct AsrResult {
    pub text: String,
    pub is_final: bool,
}

/// Why a backend operation failed. Each failure kind is reported
/// distinctly and none is retried here: retry policy belongs to the
/// caller.
#[derive(Clone, Debug, PartialEq)]
pub enum AsrError {
    /// Transport or handshake failure: fatal to the session.
    Connection(String),
    /// Missing credentials or model selection: surfaced before any
    /// connection attempt.
    Configuration(String),
    /// Backend-side failure mid-session.
    Transcription(String),
    /// The selected local model artifact is absent.
    ModelNotFound(String),
    /// A model download failed.
    ModelDownload(String),
    /// A user-initiated abort of a download: not a failure of the
    /// subsystem, and the partial file stays for a later resume.
    Cancelled(String),
    /// An input/output failure, carried as its message.
    Io(String),
}

/// A backend's readiness, derived on demand and never cached.
#[derive(Clone, Debug, PartialEq)]
pub enum ProviderStatus {
    Ready,
    NeedsConfiguration,
    NeedsModelDownload { model: String, size_mb: u64 },
    Downloading { percent: u32 },
    Error(String),
}

/// A backend's identity and current status, for display.
#[derive(Clone, Debug)]
pub struct ProviderInfo {
    pub id: String,
    pub display_name: String,
    pub status: ProviderStatus,
}

/// One selectable local-model artifact, recomputed from disk state on
/// each query.
#[derive(Clone, Debug)]
pub struct ModelInfo {
    pub id: String,
    pub name: String,
    pub size_bytes: u64,
    pub is_downloaded: bool,
    pub is_selected: bool,
}

/// One download progress report, emitted at most once per whole-percent
/// step.
#[derive(Clone, Debug)]
pub struct DownloadProgress {
    pub model_id: String,
    pub downloaded_bytes: u64,
    pub total_bytes: u64,
    pub percent: u32,
}

} // verus!
