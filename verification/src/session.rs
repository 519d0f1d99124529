//! The streaming session state machine.
//!
//! A session moves `Connecting → Streaming → Finishing → Closed`. The
//! connection itself is outside work; this machine decides, for each
//! event, which frame to send and which result to surface, and the
//! driver performs the sends.

use vstd::prelude::*;

use crate::client::{spec_parse_response, AsrClient, AsrResult};
use crate::codec::{
    gzip_of, spec_decode, spec_frame, FLAGS_FINISH, MESSAGE_TYPE_AUDIO_ONLY,
    MESSAGE_TYPE_FULL_CLIENT,
};
use crate::protocol::{spec_config_json, spec_response_text, AsrConfig, AsrResultWrapper};

verus! {

/// Where a session stands in its life cycle.
#[derive(Clone, Copy, Debug, PartialEq, Eq, Structural)]
pub enum SessionPhase {
    Connecting,
    Streaming,
    Finishing,
    Closed,
}

/// One duplex session. Frames are only produced while the phase allows
/// them: nothing is accepted after `Closed`.
pub struct StreamingSession {
    pub phase: SessionPhase,
}

impl StreamingSession {
    /// A fresh session, about to open its connection.
    pub fn new() -> (r: StreamingSession)
        ensures
            r.phase == SessionPhase::Connecting,
    {
        StreamingSession { phase: SessionPhase::Connecting }
    }

    /// The connection opened: enter `Streaming` and emit the one
    /// configuration frame, always compressed. `None` only where the
    /// compressed configuration outgrows the length field.
    pub fn start_streaming(&mut self, config: &AsrConfig) -> (r: Option<Vec<u8>>)
        requires
            old(self).phase == SessionPhase::Connecting,
        ensures
            final(self).phase == SessionPhase::Streaming,
            r is Some <==> (spec_config_json(*config).len() <= u32::MAX && gzip_of(
                spec_config_json(*config),
            ).len() <= u32::MAX),
            r is Some ==> spec_decode(r.unwrap()@) == Some(
                (MESSAGE_TYPE_FULL_CLIENT, 0u8, spec_config_json(*config)),
            ),
    {
        self.phase = SessionPhase::Streaming;
        let payload = config.to_json_bytes();
        if payload.len() > (u32::MAX as usize) {
            return None;
        }
        AsrClient::build_seed_message(MESSAGE_TYPE_FULL_CLIENT, payload.as_slice(), true)
    }

    /// The connection could not be opened: the session closes without
    /// ever streaming.
    pub fn connect_failed(&mut self)
        requires
            old(self).phase == SessionPhase::Connecting,
        ensures
            final(self).phase == SessionPhase::Closed,
    {
        self.phase = SessionPhase::Closed;
    }

    /// One chunk of audio arrived: while streaming it becomes an
    /// audio-only frame with the chunk as payload; in any other phase
    /// nothing is sent.
    pub fn on_audio_chunk(&self, chunk: &[u8]) -> (r: Option<Vec<u8>>)
        requires
            chunk@.len() <= u32::MAX,
        ensures
            r is Some <==> self.phase == SessionPhase::Streaming,
            r is Some ==> r.unwrap()@ == spec_frame(MESSAGE_TYPE_AUDIO_ONLY, 0, 0, 0, chunk@),
            r is Some ==> spec_decode(r.unwrap()@) == Some((MESSAGE_TYPE_AUDIO_ONLY, 0u8, chunk@)),
    {
        match self.phase {
            SessionPhase::Streaming => Some(AsrClient::build_audio_message(chunk)),
            _ => None,
        }
    }

    /// The audio channel closed — the natural end of recording: while
    /// streaming, send one finish frame and enter `Finishing`.
    pub fn on_audio_closed(&mut self) -> (r: Option<Vec<u8>>)
        ensures
            r is Some <==> old(self).phase == SessionPhase::Streaming,
            old(self).phase == SessionPhase::Streaming ==> final(self).phase
                == SessionPhase::Finishing,
            old(self).phase != SessionPhase::Streaming ==> final(self).phase == old(self).phase,
            r is Some ==> r.unwrap()@ == spec_frame(
                MESSAGE_TYPE_AUDIO_ONLY,
                FLAGS_FINISH,
                0,
                0,
                Seq::empty(),
            ),
    {
        match self.phase {
            SessionPhase::Streaming => {
                self.phase = SessionPhase::Finishing;
                Some(AsrClient::build_finish_message())
            },
            _ => None,
        }
    }

    /// An external cancel signal: the same path as a closing audio
    /// channel — one finish frame, then `Finishing`.
    pub fn on_cancel(&mut self) -> (r: Option<Vec<u8>>)
        ensures
            r is Some <==> old(self).phase == SessionPhase::Streaming,
            old(self).phase == SessionPhase::Streaming ==> final(self).phase
                == SessionPhase::Finishing,
            old(self).phase != SessionPhase::Streaming ==> final(self).phase == old(self).phase,
            r is Some ==> r.unwrap()@ == spec_frame(
                MESSAGE_TYPE_AUDIO_ONLY,
                FLAGS_FINISH,
                0,
                0,
                Seq::empty(),
            ),
    {
        self.on_audio_closed()
    }

    /// An inbound binary frame: decoded through the codec, surfaced as
    /// a result exactly when it parses as a successful response with
    /// non-empty text. The result's finality is the inverse of the
    /// response's prefetch flag. Malformed frames surface nothing and
    /// never end the session.
    pub fn on_inbound_frame(&self, data: &[u8]) -> (r: Option<AsrResult>)
        ensures
            r is Some <==> {
                let resp = spec_parse_response(data@);
                resp is Some && (!(resp.unwrap().result is Missing) || resp.unwrap().code == 1000)
                    && spec_response_text(resp.unwrap()).len() > 0
            },
            r is Some ==> r.unwrap().text@ == spec_response_text(spec_parse_response(data@).unwrap()),
            r is Some ==> r.unwrap().is_prefetch == (spec_parse_response(data@).unwrap().result
                matches AsrResultWrapper::Single(s) && s.prefetch),
    {
        match AsrClient::parse_response(data) {
            None => None,
            Some(response) => {
                if response.is_success() {
                    let text = response.get_text();
                    if !text.as_str().is_empty() {
                        let is_prefetch = response.is_prefetch();
                        Some(AsrResult { text, is_prefetch })
                    } else {
                        None
                    }
                } else {
                    None
                }
            },
        }
    }

    /// The server closed the connection, or a transport error ended a
    /// duty: the session is over and no further frame is accepted.
    pub fn on_connection_closed(&mut self)
        ensures
            final(self).phase == SessionPhase::Closed,
    {
        self.phase = SessionPhase::Closed;
    }
}

} // verus!
