//! Log-file bookkeeping: the on/off switch, the line layout, and the
//! tail window for reading logs back. The file itself is the
//! embedding's concern.

use vstd::prelude::*;

verus! {

/// How many lines are read back by default.
pub const DEFAULT_LOG_TAIL_LINES: usize = 500;

/// What the log surface reports about itself.
#[derive(Clone, Debug)]
pub struct LogInfo {
    pub path: String,
    pub size: u64,
    pub enabled: bool,
}

/// The file logger's state: whether log lines are written at all.
pub struct FileLogger {
    pub enabled: bool,
}

impl FileLogger {
    pub fn new(enabled: bool) -> (r: FileLogger)
        ensures
            r.enabled == enabled,
    {
        FileLogger { enabled }
    }

    pub fn set_logging_enabled(&mut self, enabled: bool)
        ensures
            final(self).enabled == enabled,
    {
        self.enabled = enabled;
    }

    pub fn is_logging_enabled(&self) -> (r: bool)
        ensures
            r == self.enabled,
    {
        self.enabled
    }

    /// One log line: `[<timestamp>] [<level>] <message>`.
    pub fn format_line(timestamp: &str, level: &str, message: &str) -> (r: String)
        ensures
            r@ == ("[")@ + timestamp@ + ("] [")@ + level@ + ("] ")@ + message@,
    {
        let mut s = String::new();
        s.append("[");
        s.append(timestamp);
        s.append("] [");
        s.append(level);
        s.append("] ");
        s.append(message);
        proof {
            assert(s@ =~= ("[")@ + timestamp@ + ("] [")@ + level@ + ("] ")@ + message@);
        }
        s
    }
}

/// Where the tail window of a log starts: the last `max_lines` lines,
/// or the whole log where it is shorter.
pub fn tail_start(total_lines: usize, max_lines: usize) -> (r: usize)
    ensures
        total_lines > max_lines ==> r == total_lines - max_lines,
        total_lines <= max_lines ==> r == 0,
        r <= total_lines,
{
    if total_lines > max_lines {
        total_lines - max_lines
    } else {
        0
    }
}

} // verus!
