//! The daemon's log-line format and the logger's configuration.
//!
//! A line is `<timestamp> <level, bracketed, padded to 7> [t=<thread> ]comp=<target>  <message>`;
//! the formatting is verified here, and the sinks that print it are the
//! caller's part.

use vstd::prelude::*;
use vstd::string::StringExecFns;

verus! {

/// A verbosity level; also a filter, with `Off` admitting nothing and each
/// level admitting itself and everything above it.
#[derive(Clone, Copy, Debug, PartialEq, Eq, Structural)]
pub enum Level {
    Off,
    Error,
    Warn,
    Info,
    Debug,
    Trace,
}

/// The rank of a level: higher means more verbose.
pub open spec fn level_rank(l: Level) -> int {
    match l {
        Level::Off => 0,
        Level::Error => 1,
        Level::Warn => 2,
        Level::Info => 3,
        Level::Debug => 4,
        Level::Trace => 5,
    }
}

/// The bracketed level tag, left-aligned in seven columns.
pub open spec fn level_tag(l: Level) -> Seq<char> {
    match l {
        Level::Off => "[OFF]  "@,
        Level::Error => "[ERROR]"@,
        Level::Warn => "[WARN] "@,
        Level::Info => "[INFO] "@,
        Level::Debug => "[DEBUG]"@,
        Level::Trace => "[TRACE]"@,
    }
}

/// One formatted log line.
pub open spec fn line_chars(
    with_thread: bool,
    timestamp: Seq<char>,
    level: Level,
    thread_name: Seq<char>,
    target: Seq<char>,
    message: Seq<char>,
) -> Seq<char> {
    let thread_part = if with_thread {
        "t="@ + thread_name + " "@
    } else {
        Seq::<char>::empty()
    };
    timestamp + " "@ + level_tag(level) + " "@ + thread_part + "comp="@ + target + " "@ + " "@
        + message
}

/// The configured logger: which levels it admits, which sinks it writes,
/// and whether lines carry the thread name.
pub struct Logger {
    pub level: Level,
    pub stderr: bool,
    pub stdout: bool,
    pub thread: bool,
}

impl Logger {
    /// Whether a record at `level` is admitted by the configured filter.
    pub fn enabled(&self, level: Level) -> (b: bool)
        ensures
            b == (level_rank(level) <= level_rank(self.level)),
    {
        self.rank(level) <= self.rank(self.level)
    }

    fn rank(&self, l: Level) -> (r: u8)
        ensures
            r as int == level_rank(l),
    {
        match l {
            Level::Off => 0,
            Level::Error => 1,
            Level::Warn => 2,
            Level::Info => 3,
            Level::Debug => 4,
            Level::Trace => 5,
        }
    }

    /// Formats one log line from its parts.
    pub fn format_line(
        &self,
        timestamp: &str,
        level: Level,
        thread_name: &str,
        target: &str,
        message: &str,
    ) -> (s: String)
        ensures
            s@ == line_chars(self.thread, timestamp@, level, thread_name@, target@, message@),
    {
        let mut out = String::new();
        out.append(timestamp);
        out.append(" ");
        let tag = match level {
            Level::Off => "[OFF]  ",
            Level::Error => "[ERROR]",
            Level::Warn => "[WARN] ",
            Level::Info => "[INFO] ",
            Level::Debug => "[DEBUG]",
            Level::Trace => "[TRACE]",
        };
        out.append(tag);
        out.append(" ");
        if self.thread {
            out.append("t=");
            out.append(thread_name);
            out.append(" ");
        }
        out.append("comp=");
        out.append(target);
        out.append(" ");
        out.append(" ");
        out.append(message);
        proof {
            assert(out@ =~= line_chars(
                self.thread,
                timestamp@,
                level,
                thread_name@,
                target@,
                message@,
            ));
        }
        out
    }
}

/// Builds a [`Logger`], starting from everything off.
pub struct LoggerBuilder {
    pub level: Level,
    pub stderr: bool,
    pub stdout: bool,
    pub thread: bool,
}

impl Default for LoggerBuilder {
    /// Level `Off`, no sinks, no thread names.
    fn default() -> (r: LoggerBuilder)
        ensures
            r.level == Level::Off,
            !r.stderr,
            !r.stdout,
            !r.thread,
    {
        LoggerBuilder { level: Level::Off, stderr: false, stdout: false, thread: false }
    }
}

impl LoggerBuilder {
    /// Level `Off`, no sinks, no thread names.
    pub fn new() -> (r: LoggerBuilder)
        ensures
            r.level == Level::Off,
            !r.stderr,
            !r.stdout,
            !r.thread,
    {
        LoggerBuilder { level: Level::Off, stderr: false, stdout: false, thread: false }
    }

    /// Sets the level filter.
    pub fn with_level(self, level: Level) -> (r: LoggerBuilder)
        ensures
            r == (LoggerBuilder { level, ..self }),
    {
        LoggerBuilder { level, ..self }
    }

    /// Turns the stderr sink on or off.
    pub fn to_stderr(self, enabled: bool) -> (r: LoggerBuilder)
        ensures
            r == (LoggerBuilder { stderr: enabled, ..self }),
    {
        LoggerBuilder { stderr: enabled, ..self }
    }

    /// Turns the stdout sink on or off.
    pub fn to_stdout(self, enabled: bool) -> (r: LoggerBuilder)
        ensures
            r == (LoggerBuilder { stdout: enabled, ..self }),
    {
        LoggerBuilder { stdout: enabled, ..self }
    }

    /// Turns thread names in lines on or off.
    pub fn with_threads(self, enabled: bool) -> (r: LoggerBuilder)
        ensures
            r == (LoggerBuilder { thread: enabled, ..self }),
    {
        LoggerBuilder { thread: enabled, ..self }
    }

    /// The configured logger.
    pub fn build(self) -> (r: Logger)
        ensures
            r.level == self.level,
            r.stderr == self.stderr,
            r.stdout == self.stdout,
            r.thread == self.thread,
    {
        Logger { level: self.level, stderr: self.stderr, stdout: self.stdout, thread: self.thread }
    }
}

} // verus!
