//! Runtime diagnostics: log levels, the line written for a log entry, and
//! where the log file goes.
use vstd::prelude::*;

use crate::path::{join_path, joined};

verus! {

/// Log levels
#[derive(Debug, Clone, Copy, PartialEq, Eq, Structural)]
pub enum Level {
    Info,
    Warn,
    Error,
    Debug,
}

pub open spec fn level_name(l: Level) -> Seq<char> {
    match l {
        Level::Info => "INFO"@,
        Level::Warn => "WARN"@,
        Level::Error => "ERROR"@,
        Level::Debug => "DEBUG"@,
    }
}

impl Level {
    pub fn as_str(&self) -> (r: &'static str)
        ensures
            r@ == level_name(*self),
    {
        match self {
            Level::Info => "INFO",
            Level::Warn => "WARN",
            Level::Error => "ERROR",
            Level::Debug => "DEBUG",
        }
    }
}

/// The line written for a log entry: `[<timestamp>] <LEVEL> [<category>] <message>` and a newline.
pub open spec fn log_line_of(
    timestamp: Seq<char>,
    level: Level,
    category: Seq<char>,
    message: Seq<char>,
) -> Seq<char> {
    "["@ + timestamp + "] "@ + level_name(level) + " ["@ + category + "] "@ + message + "\n"@
}

pub fn log_line(timestamp: &str, level: Level, category: &str, message: &str) -> (r: String)
    ensures
        r@ == log_line_of(timestamp@, level, category@, message@),
{
    let mut out = String::from_str("[");
    out.append(timestamp);
    out.append("] ");
    out.append(level.as_str());
    out.append(" [");
    out.append(category);
    out.append("] ");
    out.append(message);
    out.append("\n");
    out
}

/// The line that an info message appends to the log.
pub fn info(timestamp: &str, category: &str, message: &str) -> (r: String)
    ensures
        r@ == log_line_of(timestamp@, Level::Info, category@, message@),
{
    log_line(timestamp, Level::Info, category, message)
}

/// The line that a warning appends to the log.
pub fn warn(timestamp: &str, category: &str, message: &str) -> (r: String)
    ensures
        r@ == log_line_of(timestamp@, Level::Warn, category@, message@),
{
    log_line(timestamp, Level::Warn, category, message)
}

/// The line that an error message appends to the log.
pub fn error(timestamp: &str, category: &str, message: &str) -> (r: String)
    ensures
        r@ == log_line_of(timestamp@, Level::Error, category@, message@),
{
    log_line(timestamp, Level::Error, category, message)
}

/// The line that a debug message appends to the log.
pub fn debug(timestamp: &str, category: &str, message: &str) -> (r: String)
    ensures
        r@ == log_line_of(timestamp@, Level::Debug, category@, message@),
{
    log_line(timestamp, Level::Debug, category, message)
}

/// Where the log goes: the project-local `.byte/logs/byte.log` where its
/// directory exists, else `.byte/logs/byte.log` under the home directory,
/// else `/tmp/byte.log`.
pub open spec fn log_path_of(local_dir_exists: bool, home: Option<Seq<char>>) -> Seq<char> {
    if local_dir_exists {
        ".byte/logs/byte.log"@
    } else {
        match home {
            Some(h) => joined(h, ".byte/logs/byte.log"@),
            None => "/tmp/byte.log"@,
        }
    }
}

pub fn determine_log_path(local_dir_exists: bool, home: Option<&str>) -> (r: String)
    ensures
        r@ == log_path_of(
            local_dir_exists,
            match home {
                Some(h) => Some(h@),
                None => None,
            },
        ),
{
    if local_dir_exists {
        return String::from_str(".byte/logs/byte.log");
    }
    match home {
        Some(h) => join_path(h, ".byte/logs/byte.log"),
        None => String::from_str("/tmp/byte.log"),
    }
}

/// The runtime log: where its lines go.
#[derive(Debug, Clone)]
pub struct Logger {
    log_path: String,
}

impl Logger {
    /// A logger writing to the file at `log_path`.
    pub fn new(log_path: &str) -> (r: Logger)
        ensures
            r.path()@ == log_path@,
    {
        Logger { log_path: String::from_str(log_path) }
    }

    pub closed spec fn path(&self) -> String {
        self.log_path
    }

    /// The file the log goes to.
    pub fn log_path(&self) -> (r: &str)
        ensures
            r@ == self.path()@,
    {
        self.log_path.as_str()
    }

    /// The line this logger appends for an entry.
    pub fn entry(&self, timestamp: &str, level: Level, category: &str, message: &str) -> (r: String)
        ensures
            r@ == log_line_of(timestamp@, level, category@, message@),
    {
        log_line(timestamp, level, category, message)
    }
}

} // verus!
