//! Live text injection accounting: what the keyboard worker is told,
//! and how many characters a live update must erase first. The key
//! presses themselves are the embedding's concern.

use vstd::prelude::*;

use crate::text::char_count;

verus! {

/// What the keyboard worker is asked to do.
pub enum KeyboardCommand {
    /// Replace the previously injected text with this one.
    UpdateText(String),
    /// The session is over; reset the injection state.
    Finish,
}

/// Tracks how many characters the last live update injected, so the
/// next one erases exactly those before typing.
pub struct InjectionTracker {
    pub last_input_len: usize,
}

impl InjectionTracker {
    pub fn new() -> (r: InjectionTracker)
        ensures
            r.last_input_len == 0,
    {
        InjectionTracker { last_input_len: 0 }
    }

    /// A new session starts: nothing is on screen to erase.
    pub fn reset_input_state(&mut self)
        ensures
            final(self).last_input_len == 0,
    {
        self.last_input_len = 0;
    }

    /// Plans one live update: erase exactly what the previous update
    /// injected, then inject the new text, whose character count is
    /// recorded for the next round.
    pub fn plan_update(&mut self, new_text: &str) -> (backspaces: usize)
        ensures
            backspaces == old(self).last_input_len,
            final(self).last_input_len == new_text@.len(),
    {
        let backspaces = self.last_input_len;
        self.last_input_len = char_count(new_text);
        backspaces
    }

    /// The live session is over: the injected text stays as it is.
    pub fn finish_realtime_input(&mut self)
        ensures
            final(self).last_input_len == 0,
    {
        self.last_input_len = 0;
    }
}

} // verus!
