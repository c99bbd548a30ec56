use vstd::prelude::*;
use vstd::string::StringExecFns;

verus! {

/// The kind of a log message, chosen by its numeric level.
#[derive(Clone, Copy, Debug, PartialEq, Eq, Structural)]
pub enum LogLevel {
    Info,
    Warn,
    Error,
    Other,
}

/// Level 0 is informational, 1 a warning, 2 an error; any other level is
/// logged without a severity.
pub open spec fn level_of(level: i8) -> LogLevel {
    if level == 0 {
        LogLevel::Info
    } else if level == 1 {
        LogLevel::Warn
    } else if level == 2 {
        LogLevel::Error
    } else {
        LogLevel::Other
    }
}

/// Levels 0, 1 and 2 are the only informational, warning and error levels;
/// every other level, negative or above 2, is a plain log level.
pub proof fn levels_are_classified(level: i8)
    ensures
        (level_of(level) == LogLevel::Info) <==> (level == 0),
        (level_of(level) == LogLevel::Warn) <==> (level == 1),
        (level_of(level) == LogLevel::Error) <==> (level == 2),
        (level_of(level) == LogLevel::Other) <==> (level != 0 && level != 1 && level != 2),
{
}

/// The text that starts a line of the given kind.
pub open spec fn prefix_of(kind: LogLevel) -> Seq<char> {
    match kind {
        LogLevel::Info => "[INFO] "@,
        LogLevel::Warn => "[WARN] "@,
        LogLevel::Error => "[ERROR] "@,
        LogLevel::Other => "[LOG] "@,
    }
}

/// A line ready to be written: its text, and whether it goes to standard
/// error rather than standard output.
pub struct LogLine {
    pub text: String,
    pub to_stderr: bool,
}

/// The kind of a message of the given numeric level.
pub fn log_level(level: i8) -> (k: LogLevel)
    ensures
        k == level_of(level),
        (k == LogLevel::Info) <==> (level == 0),
        (k == LogLevel::Warn) <==> (level == 1),
        (k == LogLevel::Error) <==> (level == 2),
        (k == LogLevel::Other) <==> (level != 0 && level != 1 && level != 2),
{
    match level {
        0 => LogLevel::Info,
        1 => LogLevel::Warn,
        2 => LogLevel::Error,
        _ => LogLevel::Other,
    }
}

impl LogLevel {
    /// The text that starts a line of this kind.
    pub fn prefix(&self) -> (r: &'static str)
        ensures
            r@ == prefix_of(*self),
            *self == LogLevel::Info ==> r@ == "[INFO] "@,
            *self == LogLevel::Warn ==> r@ == "[WARN] "@,
            *self == LogLevel::Error ==> r@ == "[ERROR] "@,
            *self == LogLevel::Other ==> r@ == "[LOG] "@,
    {
        match self {
            LogLevel::Info => "[INFO] ",
            LogLevel::Warn => "[WARN] ",
            LogLevel::Error => "[ERROR] ",
            LogLevel::Other => "[LOG] ",
        }
    }

    /// Whether a line of this kind goes to standard error: only errors do.
    pub fn to_stderr(&self) -> (r: bool)
        ensures
            r == (*self == LogLevel::Error),
    {
        match self {
            LogLevel::Error => true,
            _ => false,
        }
    }
}

/// The line that logging `msg` at `level` writes: the level's prefix followed
/// by the message, on standard error for level 2 and on standard output
/// otherwise.
pub fn log_line(msg: &str, level: i8) -> (line: LogLine)
    ensures
        line.text@ == prefix_of(level_of(level)) + msg@,
        line.to_stderr == (level == 2),
        level == 0 ==> line.text@ == "[INFO] "@ + msg@,
        level == 1 ==> line.text@ == "[WARN] "@ + msg@,
        level == 2 ==> line.text@ == "[ERROR] "@ + msg@,
        (level != 0 && level != 1 && level != 2) ==> line.text@ == "[LOG] "@ + msg@,
{
    let kind = log_level(level);
    let text = String::from_str(kind.prefix()).concat(msg);
    LogLine { text, to_stderr: kind.to_stderr() }
}

/// Each kind of line starts with its own prefix: an informational line with
/// `[INFO] `, a warning with `[WARN] `, an error with `[ERROR] ` and any other
/// line with `[LOG] `; no two kinds share a prefix.
pub proof fn prefixes_are_distinct(a: LogLevel, b: LogLevel)
    ensures
        prefix_of(LogLevel::Info) == "[INFO] "@,
        prefix_of(LogLevel::Warn) == "[WARN] "@,
        prefix_of(LogLevel::Error) == "[ERROR] "@,
        prefix_of(LogLevel::Other) == "[LOG] "@,
        (prefix_of(a) == prefix_of(b)) <==> (a == b),
{
    reveal_strlit("[INFO] ");
    reveal_strlit("[WARN] ");
    reveal_strlit("[ERROR] ");
    reveal_strlit("[LOG] ");
    if a != b {
        assert(prefix_of(a)[1] != prefix_of(b)[1] || prefix_of(a).len() != prefix_of(b).len());
    }
}

} // verus!
