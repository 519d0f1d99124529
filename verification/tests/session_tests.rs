//! Session and dispatcher behaviour, including the end-to-end
//! streaming scenario.

use speaky::dispatch::ResultDispatcher;
use speaky::protocol::AsrConfig;
use speaky::session::{SessionPhase, StreamingSession};

fn result_frame(json: &[u8]) -> Vec<u8> {
    let mut data = vec![0x11u8, 0x90, 0x00, 0x00];
    data.extend_from_slice(&(json.len() as u32).to_be_bytes());
    data.extend_from_slice(json);
    data
}

#[test]
fn session_life_cycle() {
    let mut session = StreamingSession::new();
    assert_eq!(session.phase, SessionPhase::Connecting);
    // no audio is accepted before streaming
    assert!(session.on_audio_chunk(&[0u8; 4]).is_none());
    let config_frame = session.start_streaming(&AsrConfig::default()).unwrap();
    assert_eq!(session.phase, SessionPhase::Streaming);
    // the configuration frame is full-client, compressed
    assert_eq!(config_frame[1] >> 4, 0x01);
    assert_eq!(config_frame[2] & 0x0f, 0x01);
    // audio flows while streaming
    let audio = session.on_audio_chunk(&[1u8, 2, 3, 4]).unwrap();
    assert_eq!(audio[1], 0x20);
    // the channel closes: one finish frame, then no more audio
    let finish = session.on_audio_closed().unwrap();
    assert_eq!(finish[1], 0x22);
    assert_eq!(session.phase, SessionPhase::Finishing);
    assert!(session.on_audio_chunk(&[1u8]).is_none());
    assert!(session.on_audio_closed().is_none());
    session.on_connection_closed();
    assert_eq!(session.phase, SessionPhase::Closed);
}

#[test]
fn session_cancel_sends_finish_frame() {
    let mut session = StreamingSession::new();
    session.start_streaming(&AsrConfig::default()).unwrap();
    let finish = session.on_cancel().unwrap();
    assert_eq!(finish.len(), 8);
    assert_eq!(finish[1], 0x22);
    assert!(session.on_cancel().is_none());
}

#[test]
fn session_connect_failure_closes_without_streaming() {
    let mut session = StreamingSession::new();
    session.connect_failed();
    assert_eq!(session.phase, SessionPhase::Closed);
    assert!(session.on_audio_chunk(&[1u8]).is_none());
}

#[test]
fn config_frame_decodes_to_configuration_json() {
    let mut session = StreamingSession::new();
    let config = AsrConfig::default();
    let uid = config.user.uid.clone();
    let frame = session.start_streaming(&config).unwrap();
    let (msg_type, _flags, payload) = speaky::codec::decode_message(&frame).unwrap();
    assert_eq!(msg_type, 0x01);
    let text = String::from_utf8(payload).unwrap();
    let expected = format!(
        "{{\"user\":{{\"uid\":\"{}\"}},\"audio\":{{\"format\":\"pcm\",\"codec\":\"pcm\",\"rate\":16000,\"bits\":16,\"channel\":1}},\"request\":{{\"model_name\":\"bigmodel\",\"enable_punc\":true,\"enable_itn\":true,\"result_type\":\"single\",\"show_utterances\":false}}}}",
        uid
    );
    assert_eq!(text, expected);
}

#[test]
fn session_surfaces_only_successful_nonempty_results() {
    let session = StreamingSession::new();
    let good = session
        .on_inbound_frame(&result_frame(b"{\"result\":{\"text\":\"hello\",\"prefetch\":true}}"))
        .unwrap();
    assert_eq!(good.text, "hello");
    assert!(good.is_prefetch);
    // empty text is dropped
    assert!(session
        .on_inbound_frame(&result_frame(b"{\"result\":{\"text\":\"\"}}"))
        .is_none());
    // a failed response is dropped
    assert!(session.on_inbound_frame(&result_frame(b"{\"code\":4}")).is_none());
    // garbage frames are tolerated
    assert!(session.on_inbound_frame(&[0xde, 0xad]).is_none());
}

#[test]
fn dispatcher_first_result_is_never_dropped() {
    let mut dispatcher = ResultDispatcher::new();
    let emit = dispatcher.on_result("first".to_string(), false, 5);
    assert_eq!(emit.as_deref(), Some("first"));
}

#[test]
fn dispatcher_throttles_intermediate_updates() {
    let mut dispatcher = ResultDispatcher::new();
    assert!(dispatcher.on_result("a".to_string(), false, 0).is_some());
    // within 100 ms: coalesced
    assert!(dispatcher.on_result("b".to_string(), false, 50).is_none());
    assert!(dispatcher.on_result("c".to_string(), false, 99).is_none());
    // the running transcript still tracks every update
    assert_eq!(dispatcher.transcript, "c");
    // after the interval: forwarded again
    assert_eq!(dispatcher.on_result("d".to_string(), false, 100).as_deref(), Some("d"));
}

#[test]
fn dispatcher_last_write_wins_and_final_reaches_consumer() {
    // the end-to-end streaming scenario: a prefetch "hello", then the
    // authoritative "hello world", close together
    let mut dispatcher = ResultDispatcher::new();
    let first = dispatcher.on_result("hello".to_string(), false, 0);
    assert_eq!(first.as_deref(), Some("hello"));
    let second = dispatcher.on_result("hello world".to_string(), true, 10);
    // the second update may be coalesced by the throttle...
    assert!(second.is_none());
    // ...but the running transcript holds it, and session end delivers it
    assert_eq!(dispatcher.transcript, "hello world");
    assert_eq!(dispatcher.finish().as_deref(), Some("hello world"));
}

#[test]
fn dispatcher_empty_session_delivers_nothing() {
    let dispatcher = ResultDispatcher::new();
    assert!(dispatcher.finish().is_none());
}
