//! Provider behaviour: batch requests, empty-input no-ops, statuses,
//! response handling, and the response model.

use speaky::audio::{accumulate_chunks, pcm_to_samples};
use speaky::client::AsrClient;
use speaky::doubao::{convert_result, DoubaoConfig, DoubaoProvider};
use speaky::protocol::{parse_asr_response, AsrResultWrapper};
use speaky::provider::{AsrError, ProviderStatus};
use speaky::whisper_api::{pcm_to_wav, WhisperApiConfig, WhisperApiProvider};
use speaky::whisper_local::{
    default_language, WhisperLocalConfig, WhisperLocalProvider, WhisperModelSize,
};

#[test]
fn batch_wav_from_three_chunks_of_3200_bytes() {
    // 3 x 3200 bytes = 300 ms of 16 kHz mono 16-bit audio
    let chunks = vec![vec![1u8; 3200], vec![2u8; 3200], vec![3u8; 3200]];
    let audio = accumulate_chunks(&chunks);
    assert_eq!(audio.len(), 9600);
    let provider = WhisperApiProvider::new(WhisperApiConfig {
        api_key: "k".to_string(),
        api_base: "b".to_string(),
        model: "whisper-1".to_string(),
        language: None,
    });
    let request = provider.prepare_request(&audio).unwrap();
    assert_eq!(request.wav.len(), 44 + 9600);
    let expected_header: [u8; 44] = [
        82, 73, 70, 70, 164, 37, 0, 0, 87, 65, 86, 69, 102, 109, 116, 32, 16, 0, 0, 0, 1, 0, 1, 0,
        128, 62, 0, 0, 0, 125, 0, 0, 2, 0, 16, 0, 100, 97, 116, 97, 128, 37, 0, 0,
    ];
    assert_eq!(&request.wav[..44], &expected_header[..]);
    assert_eq!(&request.wav[44..44 + 3200], &vec![1u8; 3200][..]);
    // exactly one final result comes out of a successful response
    let result = provider
        .handle_response(200, true, b"{\"text\":\"hello world\"}")
        .unwrap();
    assert_eq!(result.text, "hello world");
    assert!(result.is_final);
}

#[test]
fn empty_audio_makes_no_batch_request() {
    let provider = WhisperApiProvider::new(WhisperApiConfig {
        api_key: "k".to_string(),
        api_base: "b".to_string(),
        model: "m".to_string(),
        language: None,
    });
    let chunks: Vec<Vec<u8>> = Vec::new();
    let audio = accumulate_chunks(&chunks);
    assert!(audio.is_empty());
    assert!(provider.prepare_request(&audio).is_none());
}

#[test]
fn empty_audio_runs_no_local_inference() {
    let provider = WhisperLocalProvider::new(WhisperLocalConfig::default());
    assert!(provider.prepare_audio(&[]).is_none());
    assert!(provider.prepare_audio(&[7]).is_none());
    assert!(provider.prepare_audio(&[7, 0]).is_some());
}

#[test]
fn batch_error_response_is_transcription_error() {
    let provider = WhisperApiProvider::new(WhisperApiConfig::default());
    match provider.handle_response(500, false, b"oops") {
        Err(AsrError::Transcription(m)) => assert_eq!(m, "API 请求失败 (500)"),
        other => panic!("unexpected: {:?}", other),
    }
    match provider.handle_response(200, true, b"not json") {
        Err(AsrError::Transcription(_)) => {}
        other => panic!("unexpected: {:?}", other),
    }
}

#[test]
fn pcm_bytes_to_samples_little_endian() {
    let bytes = [0x00u8, 0x00, 0x01, 0x00, 0xff, 0xff, 0x00, 0x80];
    let samples = pcm_to_samples(&bytes);
    assert_eq!(samples, vec![0i16, 1, -1, -32768]);
    // a trailing odd byte is dropped
    assert_eq!(pcm_to_samples(&[1, 2, 3]).len(), 1);
}

#[test]
fn wav_container_layout() {
    let wav = pcm_to_wav(&[0u8; 4], 16000, 1, 16);
    assert_eq!(wav.len(), 48);
    assert_eq!(&wav[0..4], b"RIFF");
    assert_eq!(&wav[8..12], b"WAVE");
    assert_eq!(&wav[12..16], b"fmt ");
    assert_eq!(&wav[36..40], b"data");
    assert_eq!(u32::from_le_bytes([wav[40], wav[41], wav[42], wav[43]]), 4);
}

#[test]
fn doubao_status_and_validation() {
    let unconfigured = DoubaoProvider::new(DoubaoConfig::default());
    assert_eq!(unconfigured.status(), ProviderStatus::NeedsConfiguration);
    assert!(matches!(
        unconfigured.validate(),
        Err(AsrError::Configuration(m)) if m == "App ID 不能为空"
    ));
    let missing_token = DoubaoProvider::new(DoubaoConfig {
        app_id: "a".to_string(),
        access_token: String::new(),
        secret_key: String::new(),
    });
    assert!(matches!(
        missing_token.validate(),
        Err(AsrError::Configuration(m)) if m == "Access Token 不能为空"
    ));
    let ready = DoubaoProvider::new(DoubaoConfig {
        app_id: "a".to_string(),
        access_token: "t".to_string(),
        secret_key: String::new(),
    });
    assert_eq!(ready.id(), "doubao");
    assert_eq!(ready.status(), ProviderStatus::Ready);
    assert!(ready.validate().is_ok());
}

#[test]
fn whisper_api_status_depends_on_key() {
    assert!(!WhisperApiConfig::default().is_configured());
    let provider = WhisperApiProvider::new(WhisperApiConfig::default());
    assert_eq!(provider.id(), "whisper_api");
    assert_eq!(provider.status(), ProviderStatus::NeedsConfiguration);
    let keyed = WhisperApiProvider::new(WhisperApiConfig {
        api_key: "k".to_string(),
        ..WhisperApiConfig::default()
    });
    assert_eq!(keyed.status(), ProviderStatus::Ready);
}

#[test]
fn whisper_local_status_names_missing_model() {
    let provider = WhisperLocalProvider::new(WhisperLocalConfig::default());
    assert_eq!(provider.id(), "whisper_local");
    assert_eq!(provider.status(true), ProviderStatus::Ready);
    match provider.status(false) {
        ProviderStatus::NeedsModelDownload { model, size_mb } => {
            assert_eq!(model, "ggml-base.bin");
            assert_eq!(size_mb, 142);
        }
        other => panic!("unexpected: {:?}", other),
    }
    assert!(provider.validate(true).is_ok());
    assert!(matches!(provider.validate(false), Err(AsrError::ModelNotFound(_))));
}

#[test]
fn whisper_model_size_table() {
    assert_eq!(WhisperModelSize::all().len(), 6);
    assert_eq!(WhisperModelSize::Tiny.filename(), "ggml-tiny.bin");
    assert_eq!(WhisperModelSize::Tiny.size_bytes(), 75_000_000);
    assert_eq!(WhisperModelSize::Base.display_name(), "Base (142 MB)");
    assert_eq!(WhisperModelSize::LargeV3.filename(), "ggml-large-v3.bin");
    assert_eq!(
        WhisperModelSize::Small.download_url(),
        "https://huggingface.co/ggerganov/whisper.cpp/resolve/main/ggml-small.bin"
    );
    assert_eq!(
        WhisperModelSize::from_filename("ggml-medium.bin"),
        Some(WhisperModelSize::Medium)
    );
    assert_eq!(WhisperModelSize::from_filename("nonsense.bin"), None);
    assert_eq!(default_language(), "zh");
}

#[test]
fn available_models_reflect_disk_and_selection() {
    let provider = WhisperLocalProvider::new(WhisperLocalConfig::default());
    let downloaded = vec![true, false, false, true, false, false];
    let models = provider.available_models(&downloaded);
    assert_eq!(models.len(), 6);
    assert_eq!(models[0].id, "ggml-tiny.bin");
    assert!(models[0].is_downloaded);
    assert!(!models[0].is_selected);
    assert!(models[1].is_selected);
    assert!(!models[1].is_downloaded);
    assert_eq!(models[3].size_bytes, 1_500_000_000);
}

#[test]
fn model_path_prefers_custom_path() {
    let mut config = WhisperLocalConfig::default();
    config.model_path = Some("/tmp/custom.bin".to_string());
    let provider = WhisperLocalProvider::new(config);
    assert_eq!(provider.model_path("/models"), "/tmp/custom.bin");
    let plain = WhisperLocalProvider::new(WhisperLocalConfig::default());
    assert_eq!(plain.model_path("/models"), "/models/ggml-base.bin");
}

#[test]
fn response_single_object_with_prefetch() {
    let body = b"{\"code\":0,\"result\":{\"text\":\"hi\",\"prefetch\":true}}";
    let response = parse_asr_response(body).unwrap();
    assert!(response.is_success());
    assert_eq!(response.get_text(), "hi");
    assert!(response.is_prefetch());
}

#[test]
fn response_array_takes_first_element() {
    let body = b"{\"result\":[{\"text\":\"first\"},{\"text\":\"second\"}]}";
    let response = parse_asr_response(body).unwrap();
    assert!(response.is_success());
    assert_eq!(response.get_text(), "first");
    assert!(!response.is_prefetch());
}

#[test]
fn response_without_result_succeeds_only_with_code_1000() {
    let plain = parse_asr_response(b"{\"message\":\"x\"}").unwrap();
    assert!(matches!(plain.result, AsrResultWrapper::Missing));
    assert!(!plain.is_success());
    assert_eq!(plain.get_text(), "");
    let coded = parse_asr_response(b"{\"code\":1000}").unwrap();
    assert!(coded.is_success());
    let rejected = parse_asr_response(b"{\"code\":45000001}").unwrap();
    assert!(!rejected.is_success());
}

#[test]
fn response_malformed_json_is_none() {
    assert!(parse_asr_response(b"").is_none());
    assert!(parse_asr_response(b"{").is_none());
    assert!(parse_asr_response(&[0xff, 0xfe]).is_none());
}

#[test]
fn wire_result_conversion_inverts_prefetch() {
    let interim = convert_result(speaky::client::AsrResult {
        text: "a".to_string(),
        is_prefetch: true,
    });
    assert_eq!(interim.text, "a");
    assert!(!interim.is_final);
    let final_form = convert_result(speaky::client::AsrResult {
        text: "b".to_string(),
        is_prefetch: false,
    });
    assert!(final_form.is_final);
}

#[test]
fn parse_response_ignores_non_result_message_types() {
    // a full-client frame (type 0x01) is not a result-bearing type
    let frame = AsrClient::build_audio_message(b"abcd");
    assert!(AsrClient::parse_response(&frame).is_none());
    assert!(AsrClient::parse_response(&[]).is_none());
}

#[test]
fn parse_response_reads_result_frame() {
    // type 0x09, flags 0: 4-byte prefix inside the body, then JSON
    let json = b"{\"result\":{\"text\":\"ok\"}}";
    let mut data = vec![0x11u8, 0x90, 0x00, 0x00];
    data.extend_from_slice(&(json.len() as u32).to_be_bytes());
    data.extend_from_slice(json);
    let response = AsrClient::parse_response(&data).unwrap();
    assert_eq!(response.get_text(), "ok");
}
