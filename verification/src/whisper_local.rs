//! The local batch backend: model artifact bookkeeping and the audio
//! preparation for on-device inference. The inference itself runs in a
//! native library on a dedicated worker; everything that can be
//! decided from plain values — which artifact, which URL, whether the
//! backend is ready, what audio goes in — is decided here.

use vstd::prelude::*;

use crate::audio::{pcm_to_samples, spec_sample};
use crate::provider::{AsrError, ModelInfo, ProviderStatus};
use crate::text::str_eq;

verus! {

/// The selectable local model sizes.
#[derive(Clone, Copy, Debug, PartialEq, Eq, Structural)]
pub enum WhisperModelSize {
    Tiny,
    Base,
    Small,
    Medium,
    Large,
    LargeV3,
}

/// The artifact file name of a model size.
pub open spec fn spec_filename(m: WhisperModelSize) -> Seq<char> {
    match m {
        WhisperModelSize::Tiny => ("ggml-tiny.bin")@,
        WhisperModelSize::Base => ("ggml-base.bin")@,
        WhisperModelSize::Small => ("ggml-small.bin")@,
        WhisperModelSize::Medium => ("ggml-medium.bin")@,
        WhisperModelSize::Large => ("ggml-large.bin")@,
        WhisperModelSize::LargeV3 => ("ggml-large-v3.bin")@,
    }
}

/// The artifact size in bytes of a model size.
pub open spec fn spec_size_bytes(m: WhisperModelSize) -> u64 {
    match m {
        WhisperModelSize::Tiny => 75_000_000,
        WhisperModelSize::Base => 142_000_000,
        WhisperModelSize::Small => 466_000_000,
        WhisperModelSize::Medium => 1_500_000_000,
        WhisperModelSize::Large => 2_900_000_000,
        WhisperModelSize::LargeV3 => 3_100_000_000,
    }
}

/// The label a model size is shown under.
pub open spec fn spec_display_name(m: WhisperModelSize) -> Seq<char> {
    match m {
        WhisperModelSize::Tiny => ("Tiny (75 MB)")@,
        WhisperModelSize::Base => ("Base (142 MB)")@,
        WhisperModelSize::Small => ("Small (466 MB)")@,
        WhisperModelSize::Medium => ("Medium (1 GB)")@,
        WhisperModelSize::Large => ("Large (2 GB)")@,
        WhisperModelSize::LargeV3 => ("Large V3 (3 GB)")@,
    }
}

impl WhisperModelSize {
    /// Every selectable size, smallest first.
    pub fn all() -> (r: Vec<WhisperModelSize>)
        ensures
            r@.len() == 6,
            r@[0] == WhisperModelSize::Tiny,
            r@[1] == WhisperModelSize::Base,
            r@[2] == WhisperModelSize::Small,
            r@[3] == WhisperModelSize::Medium,
            r@[4] == WhisperModelSize::Large,
            r@[5] == WhisperModelSize::LargeV3,
    {
        let mut v: Vec<WhisperModelSize> = Vec::new();
        v.push(WhisperModelSize::Tiny);
        v.push(WhisperModelSize::Base);
        v.push(WhisperModelSize::Small);
        v.push(WhisperModelSize::Medium);
        v.push(WhisperModelSize::Large);
        v.push(WhisperModelSize::LargeV3);
        v
    }

    /// The artifact file name.
    pub fn filename(&self) -> (r: &'static str)
        ensures
            r@ == spec_filename(*self),
    {
        match self {
            WhisperModelSize::Tiny => "ggml-tiny.bin",
            WhisperModelSize::Base => "ggml-base.bin",
            WhisperModelSize::Small => "ggml-small.bin",
            WhisperModelSize::Medium => "ggml-medium.bin",
            WhisperModelSize::Large => "ggml-large.bin",
            WhisperModelSize::LargeV3 => "ggml-large-v3.bin",
        }
    }

    /// The artifact size in bytes.
    pub fn size_bytes(&self) -> (r: u64)
        ensures
            r == spec_size_bytes(*self),
    {
        match self {
            WhisperModelSize::Tiny => 75_000_000,
            WhisperModelSize::Base => 142_000_000,
            WhisperModelSize::Small => 466_000_000,
            WhisperModelSize::Medium => 1_500_000_000,
            WhisperModelSize::Large => 2_900_000_000,
            WhisperModelSize::LargeV3 => 3_100_000_000,
        }
    }

    /// The label shown for this size, with its rounded artifact size.
    pub fn display_name(&self) -> (r: String)
        ensures
            r@ == spec_display_name(*self),
    {
        let label = match self {
            WhisperModelSize::Tiny => "Tiny (75 MB)",
            WhisperModelSize::Base => "Base (142 MB)",
            WhisperModelSize::Small => "Small (466 MB)",
            WhisperModelSize::Medium => "Medium (1 GB)",
            WhisperModelSize::Large => "Large (2 GB)",
            WhisperModelSize::LargeV3 => "Large V3 (3 GB)",
        };
        String::from_str(label)
    }

    /// Where the artifact is fetched from: the model repository path
    /// ending in the artifact file name.
    pub fn download_url(&self) -> (r: String)
        ensures
            r@ == ("https://huggingface.co/ggerganov/whisper.cpp/resolve/main/")@ + spec_filename(
                *self,
            ),
    {
        let mut s = String::from_str("https://huggingface.co/ggerganov/whisper.cpp/resolve/main/");
        s.append(self.filename());
        s
    }

    /// The size a file name selects, if it names one.
    pub fn from_filename(filename: &str) -> (r: Option<WhisperModelSize>)
        ensures
            r == spec_from_filename(filename@),
    {
        if str_eq(filename, "ggml-tiny.bin") {
            Some(WhisperModelSize::Tiny)
        } else if str_eq(filename, "ggml-base.bin") {
            Some(WhisperModelSize::Base)
        } else if str_eq(filename, "ggml-small.bin") {
            Some(WhisperModelSize::Small)
        } else if str_eq(filename, "ggml-medium.bin") {
            Some(WhisperModelSize::Medium)
        } else if str_eq(filename, "ggml-large.bin") {
            Some(WhisperModelSize::Large)
        } else if str_eq(filename, "ggml-large-v3.bin") {
            Some(WhisperModelSize::LargeV3)
        } else {
            None
        }
    }
}

/// Which size a file name selects: exactly the six artifact names.
pub open spec fn spec_from_filename(s: Seq<char>) -> Option<WhisperModelSize> {
    if s == ("ggml-tiny.bin")@ {
        Some(WhisperModelSize::Tiny)
    } else if s == ("ggml-base.bin")@ {
        Some(WhisperModelSize::Base)
    } else if s == ("ggml-small.bin")@ {
        Some(WhisperModelSize::Small)
    } else if s == ("ggml-medium.bin")@ {
        Some(WhisperModelSize::Medium)
    } else if s == ("ggml-large.bin")@ {
        Some(WhisperModelSize::Large)
    } else if s == ("ggml-large-v3.bin")@ {
        Some(WhisperModelSize::LargeV3)
    } else {
        None
    }
}

/// The default recognition language for the local backend.
pub fn default_language() -> (r: String)
    ensures
        r@ == ("zh")@,
{
    String::from_str("zh")
}

/// Configuration of the local backend.
#[derive(Clone, Debug)]
pub struct WhisperLocalConfig {
    pub model_size: WhisperModelSize,
    /// A custom artifact path; the models directory is used where
    /// absent.
    pub model_path: Option<String>,
    pub language: String,
    pub translate_to_english: bool,
}

impl Default for WhisperLocalConfig {
    fn default() -> (r: WhisperLocalConfig)
        ensures
            r.model_size == WhisperModelSize::Base,
            r.model_path is None,
            r.language@ == ("zh")@,
            !r.translate_to_english,
    {
        WhisperLocalConfig {
            model_size: WhisperModelSize::Base,
            model_path: None,
            language: default_language(),
            translate_to_english: false,
        }
    }
}

/// The local batch backend. Whether the selected artifact is on disk
/// is a fact about the filesystem: callers query it and pass it in.
pub struct WhisperLocalProvider {
    pub config: WhisperLocalConfig,
}

impl WhisperLocalProvider {
    pub fn new(config: WhisperLocalConfig) -> (r: WhisperLocalProvider)
        ensures
            r.config.model_size == config.model_size,
            r.config.model_path == config.model_path,
            r.config.language@ == config.language@,
            r.config.translate_to_english == config.translate_to_english,
    {
        WhisperLocalProvider { config }
    }

    pub fn id(&self) -> (r: &'static str)
        ensures
            r@ == ("whisper_local")@,
    {
        "whisper_local"
    }

    pub fn display_name(&self) -> (r: &'static str)
        ensures
            r@ == ("Whisper 本地")@,
    {
        "Whisper 本地"
    }

    /// The artifact path the backend loads: the custom path where one
    /// is set, else the selected size's file under the models
    /// directory.
    pub fn model_path(&self, models_dir: &str) -> (r: String)
        ensures
            self.config.model_path is Some ==> r@ == self.config.model_path.unwrap()@,
            self.config.model_path is None ==> r@ == models_dir@ + ("/")@ + spec_filename(
                self.config.model_size,
            ),
    {
        match &self.config.model_path {
            Some(p) => p.clone(),
            None => {
                let mut s = String::new();
                s.append(models_dir);
                s.append("/");
                s.append(self.config.model_size.filename());
                s
            },
        }
    }

    /// Ready exactly when the selected artifact is downloaded (exists
    /// with non-zero size); otherwise names the artifact and its
    /// size in megabytes.
    pub fn status(&self, model_downloaded: bool) -> (r: ProviderStatus)
        ensures
            model_downloaded ==> r == ProviderStatus::Ready,
            !model_downloaded ==> (r matches ProviderStatus::NeedsModelDownload { model, size_mb }
                && model@ == spec_filename(self.config.model_size) && size_mb == spec_size_bytes(
                self.config.model_size,
            ) / 1_000_000),
    {
        if model_downloaded {
            ProviderStatus::Ready
        } else {
            ProviderStatus::NeedsModelDownload {
                model: String::from_str(self.config.model_size.filename()),
                size_mb: self.config.model_size.size_bytes() / 1_000_000,
            }
        }
    }

    /// Fails exactly when the selected artifact is not downloaded.
    pub fn validate(&self, model_downloaded: bool) -> (r: Result<(), AsrError>)
        ensures
            r is Ok <==> model_downloaded,
            !model_downloaded ==> (r.unwrap_err() matches AsrError::ModelNotFound(m) && m@ == (
            "需要先下载 ")@ + spec_filename(self.config.model_size) + (" 模型")@),
    {
        if model_downloaded {
            Ok(())
        } else {
            let mut m = String::new();
            m.append("需要先下载 ");
            m.append(self.config.model_size.filename());
            m.append(" 模型");
            proof {
                assert(m@ =~= ("需要先下载 ")@ + spec_filename(self.config.model_size) + (
                " 模型")@);
            }
            Err(AsrError::ModelNotFound(m))
        }
    }

    /// One entry per selectable size: its artifact name, label and
    /// size, whether its artifact is on disk (as the caller found it),
    /// and whether it is the configured selection.
    pub fn available_models(&self, downloaded: &Vec<bool>) -> (r: Vec<ModelInfo>)
        requires
            downloaded@.len() == 6,
        ensures
            r@.len() == 6,
            forall|i: int|
                0 <= i < 6 ==> {
                    let sizes = seq![
                        WhisperModelSize::Tiny,
                        WhisperModelSize::Base,
                        WhisperModelSize::Small,
                        WhisperModelSize::Medium,
                        WhisperModelSize::Large,
                        WhisperModelSize::LargeV3,
                    ];
                    &&& (#[trigger] r@[i]).id@ == spec_filename(sizes[i])
                    &&& r@[i].name@ == spec_display_name(sizes[i])
                    &&& r@[i].size_bytes == spec_size_bytes(sizes[i])
                    &&& r@[i].is_downloaded == downloaded@[i]
                    &&& r@[i].is_selected == (sizes[i] == self.config.model_size)
                },
    {
        let ghost sizes = seq![
            WhisperModelSize::Tiny,
            WhisperModelSize::Base,
            WhisperModelSize::Small,
            WhisperModelSize::Medium,
            WhisperModelSize::Large,
            WhisperModelSize::LargeV3,
        ];
        let all = WhisperModelSize::all();
        let mut out: Vec<ModelInfo> = Vec::new();
        let mut i: usize = 0;
        while i < 6
            invariant
                i <= 6,
                all@.len() == 6,
                downloaded@.len() == 6,
                out@.len() == i,
                forall|j: int| 0 <= j < 6 ==> all@[j] == sizes[j],
                forall|j: int|
                    0 <= j < i ==> {
                        &&& (#[trigger] out@[j]).id@ == spec_filename(sizes[j])
                        &&& out@[j].name@ == spec_display_name(sizes[j])
                        &&& out@[j].size_bytes == spec_size_bytes(sizes[j])
                        &&& out@[j].is_downloaded == downloaded@[j]
                        &&& out@[j].is_selected == (sizes[j] == self.config.model_size)
                    },
            decreases 6 - i,
        {
            let size = all[i];
            let entry = ModelInfo {
                id: String::from_str(size.filename()),
                name: size.display_name(),
                size_bytes: size.size_bytes(),
                is_downloaded: downloaded[i],
                is_selected: size == self.config.model_size,
            };
            out.push(entry);
            i = i + 1;
        }
        out
    }

    /// The audio that inference runs on: the accumulated PCM bytes as
    /// signed samples. `None` exactly where no whole sample arrived —
    /// an empty recording runs no inference and emits no result.
    pub fn prepare_audio(&self, audio: &[u8]) -> (r: Option<Vec<i16>>)
        ensures
            r is Some <==> audio@.len() >= 2,
            r is Some ==> r.unwrap()@.len() == audio@.len() / 2,
            r is Some ==> forall|i: int|
                0 <= i < audio@.len() / 2 ==> r.unwrap()@[i] == spec_sample(
                    audio@[2 * i],
                    audio@[2 * i + 1],
                ),
    {
        if audio.len() < 2 {
            return None;
        }
        Some(pcm_to_samples(audio))
    }
}

} // verus!
