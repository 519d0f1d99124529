//! The cloud batch backend: accumulates the whole audio stream, wraps
//! it as a WAV container, and asks a transcription endpoint for one
//! final result. The HTTP exchange itself is the driver's work; the
//! request and response handling here is exact.

use vstd::prelude::*;
use vstd::bytes::{spec_u16_to_le_bytes, spec_u32_to_le_bytes, u16_to_le_bytes, u32_to_le_bytes};
use vstd::string::StringSliceAdditionalSpecFns;

use crate::codec::push_bytes;
use crate::provider::{AsrError, AsrResult, ProviderStatus};
use crate::text::u64_to_string;

verus! {

/// The default endpoint for the transcription API.
pub fn default_api_base() -> (r: String)
    ensures
        r@ == ("https://api.openai.com/v1")@,
{
    String::from_str("https://api.openai.com/v1")
}

/// The default transcription model.
pub fn default_model() -> (r: String)
    ensures
        r@ == ("whisper-1")@,
{
    String::from_str("whisper-1")
}

/// Credentials and options for the transcription endpoint.
#[derive(Clone, Debug)]
pub struct WhisperApiConfig {
    pub api_key: String,
    pub api_base: String,
    pub model: String,
    pub language: Option<String>,
}

impl Default for WhisperApiConfig {
    /// No key, the default endpoint and model, no language pin.
    fn default() -> (r: WhisperApiConfig)
        ensures
            r.api_key@.len() == 0,
            r.api_base@ == ("https://api.openai.com/v1")@,
            r.model@ == ("whisper-1")@,
            r.language is None,
    {
        WhisperApiConfig {
            api_key: String::new(),
            api_base: default_api_base(),
            model: default_model(),
            language: None,
        }
    }
}

impl WhisperApiConfig {
    /// Configured exactly when an API key is present.
    pub fn is_configured(&self) -> (r: bool)
        ensures
            r == (self.api_key@.len() > 0),
    {
        !self.api_key.as_str().is_empty()
    }
}

/// The canonical 44-byte WAV header followed by the raw PCM data:
/// RIFF/WAVE with one PCM `fmt ` chunk declaring the given sample rate,
/// channel count and bit depth, then one `data` chunk holding the
/// samples.
pub open spec fn spec_wav(pcm: Seq<u8>, sample_rate: u32, channels: u16, bits: u16) -> Seq<u8>
    recommends
        pcm.len() + 36 <= u32::MAX,
        sample_rate * channels * bits <= u32::MAX,
        channels * bits <= u16::MAX,
{
    ("RIFF").spec_bytes() + spec_u32_to_le_bytes((36 + pcm.len()) as u32) + ("WAVE").spec_bytes()
        + ("fmt ").spec_bytes() + spec_u32_to_le_bytes(16u32) + spec_u16_to_le_bytes(1u16)
        + spec_u16_to_le_bytes(channels) + spec_u32_to_le_bytes(sample_rate)
        + spec_u32_to_le_bytes(
        ((sample_rate * channels as u32 * bits as u32) / 8) as u32,
    ) + spec_u16_to_le_bytes(((channels * bits) / 8) as u16) + spec_u16_to_le_bytes(bits) + (
    "data").spec_bytes() + spec_u32_to_le_bytes(pcm.len() as u32) + pcm
}

/// Wraps raw PCM data in a WAV container: the 44-byte canonical header
/// declaring the capture format, then the data unchanged.
pub fn pcm_to_wav(pcm_data: &[u8], sample_rate: u32, channels: u16, bits_per_sample: u16) -> (r:
    Vec<u8>)
    requires
        pcm_data@.len() + 36 <= u32::MAX,
        1 <= channels,
        1 <= bits_per_sample,
        sample_rate as int * channels as int * bits_per_sample as int <= u32::MAX,
        channels as int * bits_per_sample as int <= u16::MAX,
    ensures
        r@ == spec_wav(pcm_data@, sample_rate, channels, bits_per_sample),
        r@.len() == 44 + pcm_data@.len(),
{
    let data_size: u32 = pcm_data.len() as u32;
    proof {
        assert(sample_rate as int * channels as int <= sample_rate as int * channels as int
            * bits_per_sample as int) by (nonlinear_arith)
            requires
                1 <= bits_per_sample,
                0 <= sample_rate as int * channels as int,
        ;
    }
    let byte_rate: u32 = sample_rate * (channels as u32) * (bits_per_sample as u32) / 8;
    let block_align: u16 = channels * bits_per_sample / 8;
    let mut wav: Vec<u8> = Vec::new();
    push_bytes(&mut wav, "RIFF".as_bytes());
    let riff_size = u32_to_le_bytes(36 + data_size);
    push_bytes(&mut wav, riff_size.as_slice());
    push_bytes(&mut wav, "WAVE".as_bytes());
    push_bytes(&mut wav, "fmt ".as_bytes());
    let fmt_size = u32_to_le_bytes(16);
    push_bytes(&mut wav, fmt_size.as_slice());
    let audio_format = u16_to_le_bytes(1);
    push_bytes(&mut wav, audio_format.as_slice());
    let channel_bytes = u16_to_le_bytes(channels);
    push_bytes(&mut wav, channel_bytes.as_slice());
    let rate_bytes = u32_to_le_bytes(sample_rate);
    push_bytes(&mut wav, rate_bytes.as_slice());
    let byte_rate_bytes = u32_to_le_bytes(byte_rate);
    push_bytes(&mut wav, byte_rate_bytes.as_slice());
    let block_align_bytes = u16_to_le_bytes(block_align);
    push_bytes(&mut wav, block_align_bytes.as_slice());
    let bits_bytes = u16_to_le_bytes(bits_per_sample);
    push_bytes(&mut wav, bits_bytes.as_slice());
    push_bytes(&mut wav, "data".as_bytes());
    let data_size_bytes = u32_to_le_bytes(data_size);
    push_bytes(&mut wav, data_size_bytes.as_slice());
    push_bytes(&mut wav, pcm_data);
    proof {
        vstd::bytes::lemma_auto_spec_u32_to_from_le_bytes();
        vstd::bytes::lemma_auto_spec_u16_to_from_le_bytes();
        assert(wav@ =~= spec_wav(pcm_data@, sample_rate, channels, bits_per_sample));
        reveal_strlit("RIFF");
        reveal_strlit("WAVE");
        reveal_strlit("fmt ");
        reveal_strlit("data");
        assert(vstd::utf8::is_ascii_chars(("RIFF")@));
        assert(vstd::utf8::is_ascii_chars(("WAVE")@));
        assert(vstd::utf8::is_ascii_chars(("fmt ")@));
        assert(vstd::utf8::is_ascii_chars(("data")@));
        vstd::utf8::is_ascii_chars_encode_utf8(("RIFF")@);
        vstd::utf8::is_ascii_chars_encode_utf8(("WAVE")@);
        vstd::utf8::is_ascii_chars_encode_utf8(("fmt ")@);
        vstd::utf8::is_ascii_chars_encode_utf8(("data")@);
    }
    wav
}

/// One prepared batch transcription request: the WAV upload and the
/// form fields that go with it.
pub struct TranscriptionRequest {
    pub wav: Vec<u8>,
    pub model: String,
    pub language: Option<String>,
}

/// The `text` member a transcription endpoint answers with, where the
/// body is a JSON object carrying one.
pub uninterp spec fn transcription_text_of(b: Seq<u8>) -> Option<Seq<char>>;

/// Relies on serde_json: reads the `text` member of a JSON object
/// body. `None` where the body is not a JSON object or has no string
/// `text` member.
#[verifier::external_body]
fn parse_transcription_json(body: &[u8]) -> (r: Option<String>)
    ensures
        r is Some <==> transcription_text_of(body@) is Some,
        r is Some ==> r.unwrap()@ == transcription_text_of(body@).unwrap(),
{
    let v: serde_json::Value = serde_json::from_slice(body).ok()?;
    Some(v.get("text")?.as_str()?.to_string())
}

/// The cloud batch backend.
pub struct WhisperApiProvider {
    pub config: WhisperApiConfig,
}

impl WhisperApiProvider {
    pub fn new(config: WhisperApiConfig) -> (r: WhisperApiProvider)
        ensures
            r.config.api_key@ == config.api_key@,
            r.config.api_base@ == config.api_base@,
            r.config.model@ == config.model@,
            r.config.language == config.language,
    {
        WhisperApiProvider { config }
    }

    pub fn id(&self) -> (r: &'static str)
        ensures
            r@ == ("whisper_api")@,
    {
        "whisper_api"
    }

    pub fn display_name(&self) -> (r: &'static str)
        ensures
            r@ == ("Whisper API")@,
    {
        "Whisper API"
    }

    /// Ready exactly when an API key is configured.
    pub fn status(&self) -> (r: ProviderStatus)
        ensures
            self.config.api_key@.len() > 0 ==> r == ProviderStatus::Ready,
            self.config.api_key@.len() == 0 ==> r == ProviderStatus::NeedsConfiguration,
    {
        if self.config.is_configured() {
            ProviderStatus::Ready
        } else {
            ProviderStatus::NeedsConfiguration
        }
    }

    /// Fails exactly when the API key is missing.
    pub fn validate(&self) -> (r: Result<(), AsrError>)
        ensures
            r is Ok <==> self.config.api_key@.len() > 0,
            r is Err ==> (r.unwrap_err() matches AsrError::Configuration(m) && m@ == (
            "API Key 不能为空")@),
    {
        if self.config.api_key.as_str().is_empty() {
            Err(AsrError::Configuration(String::from_str("API Key 不能为空")))
        } else {
            Ok(())
        }
    }

    /// Prepares the one batch request for an accumulated audio buffer:
    /// `None` exactly for an empty buffer — an empty recording makes no
    /// request and emits no result. Otherwise the upload is the WAV
    /// wrapping of the buffer in the fixed capture format.
    pub fn prepare_request(&self, audio: &[u8]) -> (r: Option<TranscriptionRequest>)
        requires
            audio@.len() + 36 <= u32::MAX,
        ensures
            r is Some <==> audio@.len() > 0,
            r is Some ==> r.unwrap().wav@ == spec_wav(audio@, 16000, 1, 16),
            r is Some ==> r.unwrap().wav@.len() == 44 + audio@.len(),
            r is Some ==> r.unwrap().model@ == self.config.model@,
            r is Some ==> r.unwrap().language == self.config.language,
    {
        if audio.len() == 0 {
            return None;
        }
        let wav = pcm_to_wav(audio, 16000, 1, 16);
        Some(
            TranscriptionRequest {
                wav,
                model: self.config.model.clone(),
                language: match &self.config.language {
                    Some(l) => Some(l.clone()),
                    None => None,
                },
            },
        )
    }

    /// Turns the endpoint's answer into the session's one final result.
    /// A non-success status or an unreadable body is a transcription
    /// error; otherwise the result carries the answered text and is
    /// final.
    pub fn handle_response(&self, status: u16, success: bool, body: &[u8]) -> (r: Result<
        AsrResult,
        AsrError,
    >)
        ensures
            r is Ok <==> (success && transcription_text_of(body@) is Some),
            r is Ok ==> r.unwrap().text@ == transcription_text_of(body@).unwrap(),
            r is Ok ==> r.unwrap().is_final,
            !success ==> (r.unwrap_err() matches AsrError::Transcription(m) && m@ == (
            "API 请求失败 (")@ + crate::text::spec_dec(status as nat) + (")")@),
    {
        if !success {
            let mut m = String::new();
            m.append("API 请求失败 (");
            let code = u64_to_string(status as u64);
            m.append(code.as_str());
            m.append(")");
            proof {
                assert(m@ =~= ("API 请求失败 (")@ + crate::text::spec_dec(status as nat) + (")")@);
            }
            return Err(AsrError::Transcription(m));
        }
        match parse_transcription_json(body) {
            Some(text) => Ok(AsrResult { text, is_final: true }),
            None => Err(AsrError::Transcription(String::from_str("解析响应失败"))),
        }
    }
}

} // verus!
