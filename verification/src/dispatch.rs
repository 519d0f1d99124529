//! The result dispatcher: turns the raw result stream into a throttled
//! last-value-wins transcript.
//!
//! Every inbound result overwrites the running transcript, final or
//! not. Updates are forwarded at most once per throttle interval, but
//! the very first result and the final text at session end always
//! reach the consumer.

use vstd::prelude::*;

verus! {

/// Forwarded updates come at most once per this many milliseconds.
pub const THROTTLE_MS: u64 = 100;

/// The dispatcher's state across one session.
pub struct ResultDispatcher {
    /// The running best-effort transcript: the last text seen.
    pub transcript: String,
    /// Whether any result has arrived yet.
    pub started: bool,
    /// When the last forwarded update went out, in milliseconds.
    pub last_emit_ms: u64,
}

impl ResultDispatcher {
    pub fn new() -> (r: ResultDispatcher)
        ensures
            r.transcript@.len() == 0,
            !r.started,
            r.last_emit_ms == 0,
    {
        ResultDispatcher { transcript: String::new(), started: false, last_emit_ms: 0 }
    }

    /// Takes one inbound result at time `now_ms`. The running
    /// transcript becomes this text whatever its finality — later
    /// results always overwrite earlier ones. The text is forwarded to
    /// consumers exactly when it is the session's first result or the
    /// throttle interval has passed; the caller's clock must not run
    /// backwards.
    pub fn on_result(&mut self, text: String, is_final: bool, now_ms: u64) -> (emit: Option<String>)
        requires
            now_ms >= old(self).last_emit_ms,
        ensures
            final(self).transcript@ == text@,
            final(self).started,
            emit is Some <==> (!old(self).started || now_ms - old(self).last_emit_ms
                >= THROTTLE_MS),
            emit is Some ==> emit.unwrap()@ == text@,
            emit is Some ==> final(self).last_emit_ms == now_ms,
            emit is None ==> final(self).last_emit_ms == old(self).last_emit_ms,
    {
        let first = !self.started;
        self.started = true;
        self.transcript = text.clone();
        if first || now_ms - self.last_emit_ms >= THROTTLE_MS {
            self.last_emit_ms = now_ms;
            Some(text)
        } else {
            let _ = is_final;
            None
        }
    }

    /// The channel closed: hands the consumer the running transcript —
    /// the final authoritative text is never lost to throttling. An
    /// empty transcript (no result, or an empty last text) yields
    /// nothing.
    pub fn finish(&self) -> (r: Option<String>)
        ensures
            r is Some <==> self.transcript@.len() > 0,
            r is Some ==> r.unwrap()@ == self.transcript@,
    {
        if self.transcript.as_str().is_empty() {
            None
        } else {
            Some(self.transcript.clone())
        }
    }
}

} // verus!
