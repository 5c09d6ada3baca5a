use vstd::prelude::*;
use vstd::string::*;
use crate::models::base_extensions::optional_text;
use crate::text::{lowercase_of, to_lowercase};

verus! {

/// How grave a log entry is.
#[derive(Clone, Copy, Debug, PartialEq, Eq, Structural)]
pub enum LogLevel {
    INFO,
    WARN,
    ERROR,
}

impl LogLevel {
    /// The name under which entries of the level are written.
    pub open spec fn name(self) -> Seq<char> {
        match self {
            LogLevel::INFO => "INFO"@,
            LogLevel::WARN => "WARN"@,
            LogLevel::ERROR => "ERROR"@,
        }
    }

    pub fn prefix(self) -> (name: &'static str)
        ensures
            name@ == self.name(),
    {
        match self {
            LogLevel::INFO => "INFO",
            LogLevel::WARN => "WARN",
            LogLevel::ERROR => "ERROR",
        }
    }
}

/// The file that entries go to when none is named.
pub open spec fn default_file() -> Seq<char> {
    "commercyfy-core"@
}

/// The category that entries have when none is named.
pub open spec fn default_category() -> Seq<char> {
    "default"@
}

/// The path of the log of `file` and `category`: the category counts in
/// lowercase.
pub open spec fn log_path(file: Seq<char>, category: Seq<char>) -> Seq<char> {
    "./logs/"@ + file + "-"@ + lowercase_of(category) + ".log"@
}

/// The line that is written at the time `time` for a message under the
/// prefix `prefix`.
pub open spec fn log_line_at(time: Seq<char>, prefix: Seq<char>, message: Seq<char>) -> Seq<char> {
    "["@ + time + "]["@ + prefix + "]: "@ + message + "\n"@
}

/// What a logger wants written: a line, and the path of the file at whose
/// end it belongs.
#[derive(Debug)]
pub struct LogRecord {
    pub path: String,
    pub line: String,
}

/// The text that `chrono` writes for the time of day and date that lies
/// `seconds` after the beginning of the year 1970, in Coordinated
/// Universal Time, by the pattern `pattern`; `None` where `chrono` has no
/// date for that many seconds or cannot write by the pattern.
pub uninterp spec fn timestamp_text(seconds: u64, pattern: Seq<char>) -> Option<Seq<char>>;

/// The pattern of the stamp of a log line: year, month and day, then
/// hour, minute and second.
pub const TIMESTAMP_PATTERN: &'static str = "%Y-%m-%d %H:%M:%S";

/// The last second of the year 9999.
pub const END_OF_YEAR_9999: u64 = 253402300799;

/// Whether `part` can stand between brackets and be read back: it is not
/// empty, and no `]` follows its first character.
pub open spec fn readable_in_brackets(part: Seq<char>) -> bool {
    part.len() > 0 && forall|i: int| 1 <= i < part.len() ==> part[i] != ']'
}

/// Calls `chrono::DateTime::from_timestamp` on the seconds and writes the
/// time by the pattern with `DelayedFormat::write_to`. Nothing is proved
/// of it. The contract names the result, which depends on the seconds and
/// the pattern alone, and states of the pattern of the stamp what the
/// crate's source shows: that every second up to the end of the year 9999
/// has a text, and that a text is made of digits, signs, hyphens, colons
/// and a space, so that it is not empty and holds no `]`.
#[verifier::external_body]
pub(crate) fn format_timestamp(seconds: u64, pattern: &str) -> (text: Option<String>)
    ensures
        optional_text(text) == timestamp_text(seconds, pattern@),
        pattern@ == TIMESTAMP_PATTERN@ && seconds <= END_OF_YEAR_9999 ==> text is Some,
        pattern@ == TIMESTAMP_PATTERN@ ==> (text matches Some(written) ==> written@.len() > 0
            && !written@.contains(']')),
{
    let time = chrono::DateTime::from_timestamp(i64::try_from(seconds).ok()?, 0)?;
    let mut text = String::new();
    match time.format(pattern).write_to(&mut text) {
        Ok(()) => Some(text),
        Err(_) => None,
    }
}

/// The stamp of a line that is written `now` seconds after the beginning
/// of the year 1970; `None` where there is no date for that many
/// seconds.
pub open spec fn stamp_of(now: u64) -> Option<Seq<char>> {
    timestamp_text(now, TIMESTAMP_PATTERN@)
}

/// The stamp of a line that is written `now` seconds after the beginning
/// of the year 1970. Every time up to the end of the year 9999 has a
/// stamp, and a stamp can stand between brackets.
pub fn timestamp(now: u64) -> (stamp: Option<String>)
    ensures
        optional_text(stamp) == stamp_of(now),
        now <= END_OF_YEAR_9999 ==> stamp is Some,
        stamp matches Some(written) ==> readable_in_brackets(written@),
{
    format_timestamp(now, TIMESTAMP_PATTERN)
}

/// Whether `record` is what a logger wants written at the time `now`
/// for `message` at `level` in the log of `file` and `category`: the line
/// with the stamp of the time, at the end of the file of the log. There
/// is nothing to write where the time has no stamp, which no time up to
/// the end of the year 9999 lacks; a stamp can stand between brackets.
pub open spec fn records(
    record: Option<LogRecord>,
    now: u64,
    level: LogLevel,
    file: Seq<char>,
    category: Seq<char>,
    message: Seq<char>,
) -> bool {
    &&& now <= END_OF_YEAR_9999 ==> record is Some
    &&& match stamp_of(now) {
        Some(time) => {
            &&& readable_in_brackets(time)
            &&& record matches Some(written)
            &&& written.path@ == log_path(file, category)
            &&& written.line@ == log_line_at(time, level.name(), message)
        },
        None => record is None,
    }
}

/// The line for `message` under `prefix` at the time `time`.
pub fn format_log_at(time: &str, prefix: &str, message: &str) -> (line: String)
    ensures
        line@ == log_line_at(time@, prefix@, message@),
{
    let mut line = String::from_str("[");
    line.append(time);
    line.append("][");
    line.append(prefix);
    line.append("]: ");
    line.append(message);
    line.append("\n");
    line
}

/// The path of the log of `file` and `category`.
pub fn log_file_path(file: &str, category: &str) -> (path: String)
    ensures
        path@ == log_path(file@, category@),
{
    let lower = to_lowercase(category);
    let mut path = String::from_str("./logs/");
    path.append(file);
    path.append("-");
    path.append(lower.as_str());
    path.append(".log");
    path
}

/// Says what to write for a message at a time: each method gives the
/// line and the file for one way of naming the level, the category and
/// the file. The time is given in seconds since the beginning of the year
/// 1970.
pub trait Logger {
    fn log(&self, level: LogLevel, message: &str, now: u64) -> (record: Option<LogRecord>)
        ensures
            records(record, now, level, default_file(), default_category(), message@),
    ;

    fn info(&self, message: &str, now: u64) -> (record: Option<LogRecord>)
        ensures
            records(record, now, LogLevel::INFO, default_file(), default_category(), message@),
    ;

    fn warn(&self, message: &str, now: u64) -> (record: Option<LogRecord>)
        ensures
            records(record, now, LogLevel::WARN, default_file(), default_category(), message@),
    ;

    fn error(&self, message: &str, now: u64) -> (record: Option<LogRecord>)
        ensures
            records(record, now, LogLevel::ERROR, default_file(), default_category(), message@),
    ;

    fn category_log(&self, level: LogLevel, category: &str, message: &str, now: u64) -> (record:
        Option<LogRecord>)
        ensures
            records(record, now, level, default_file(), category@, message@),
    ;

    fn category_info(&self, category: &str, message: &str, now: u64) -> (record: Option<LogRecord>)
        ensures
            records(record, now, LogLevel::INFO, default_file(), category@, message@),
    ;

    fn category_warn(&self, category: &str, message: &str, now: u64) -> (record: Option<LogRecord>)
        ensures
            records(record, now, LogLevel::WARN, default_file(), category@, message@),
    ;

    fn category_error(&self, category: &str, message: &str, now: u64) -> (record: Option<LogRecord>)
        ensures
            records(record, now, LogLevel::ERROR, default_file(), category@, message@),
    ;

    fn file_category_log(
        &self,
        level: LogLevel,
        file: &str,
        category: &str,
        message: &str,
        now: u64,
    ) -> (record: Option<LogRecord>)
        ensures
            records(record, now, level, file@, category@, message@),
    ;

    fn file_category_info(&self, file: &str, category: &str, message: &str, now: u64) -> (record:
        Option<LogRecord>)
        ensures
            records(record, now, LogLevel::INFO, file@, category@, message@),
    ;

    fn file_category_warn(&self, file: &str, category: &str, message: &str, now: u64) -> (record:
        Option<LogRecord>)
        ensures
            records(record, now, LogLevel::WARN, file@, category@, message@),
    ;

    fn file_category_error(&self, file: &str, category: &str, message: &str, now: u64) -> (record:
        Option<LogRecord>)
        ensures
            records(record, now, LogLevel::ERROR, file@, category@, message@),
    ;
}

/// The logger of the service.
#[derive(Clone, Copy, Debug)]
pub struct GenericLogger {}

impl GenericLogger {
    pub fn new() -> (logger: Self)
        ensures
            logger == (GenericLogger {  }),
    {
        GenericLogger {  }
    }

    /// The line for `message` under `prefix`, with the stamp of the time
    /// `now`; `None` where the time has no stamp.
    pub fn format_log(&self, prefix: &str, message: &str, now: u64) -> (line: Option<String>)
        ensures
            now <= END_OF_YEAR_9999 ==> line is Some,
            match stamp_of(now) {
                Some(time) => {
                    &&& readable_in_brackets(time)
                    &&& line matches Some(written)
                    &&& written@ == log_line_at(time, prefix@, message@)
                },
                None => line is None,
            },
    {
        match timestamp(now) {
            Some(time) => Some(format_log_at(time.as_str(), prefix, message)),
            None => None,
        }
    }

    /// The record of `message`, already formatted, for the log of `file`
    /// and `category`.
    pub fn write_to_file(&self, file: &str, category: &str, message: String) -> (record: LogRecord)
        ensures
            record.path@ == log_path(file@, category@),
            record.line == message,
    {
        LogRecord { path: log_file_path(file, category), line: message }
    }

    /// The record of `message` at `level` for the log of `file` and
    /// `category`, with the stamp of the time `now`.
    fn record_at(&self, level: LogLevel, file: &str, category: &str, message: &str, now: u64) -> (record:
        Option<LogRecord>)
        ensures
            records(record, now, level, file@, category@, message@),
    {
        match self.format_log(level.prefix(), message, now) {
            Some(line) => Some(self.write_to_file(file, category, line)),
            None => None,
        }
    }
}

impl Logger for GenericLogger {
    fn log(&self, level: LogLevel, message: &str, now: u64) -> (record: Option<LogRecord>) {
        match level {
            LogLevel::INFO => self.info(message, now),
            LogLevel::WARN => self.warn(message, now),
            LogLevel::ERROR => self.error(message, now),
        }
    }

    fn info(&self, message: &str, now: u64) -> (record: Option<LogRecord>) {
        self.category_info("default", message, now)
    }

    fn warn(&self, message: &str, now: u64) -> (record: Option<LogRecord>) {
        self.category_warn("default", message, now)
    }

    fn error(&self, message: &str, now: u64) -> (record: Option<LogRecord>) {
        self.category_error("default", message, now)
    }

    fn category_log(&self, level: LogLevel, category: &str, message: &str, now: u64) -> (record:
        Option<LogRecord>) {
        match level {
            LogLevel::INFO => self.category_info(category, message, now),
            LogLevel::WARN => self.category_warn(category, message, now),
            LogLevel::ERROR => self.category_error(category, message, now),
        }
    }

    fn category_info(&self, category: &str, message: &str, now: u64) -> (record: Option<LogRecord>) {
        self.file_category_info("commercyfy-core", category, message, now)
    }

    fn category_warn(&self, category: &str, message: &str, now: u64) -> (record: Option<LogRecord>) {
        self.file_category_warn("commercyfy-core", category, message, now)
    }

    fn category_error(&self, category: &str, message: &str, now: u64) -> (record: Option<LogRecord>) {
        self.file_category_error("commercyfy-core", category, message, now)
    }

    fn file_category_log(
        &self,
        level: LogLevel,
        file: &str,
        category: &str,
        message: &str,
        now: u64,
    ) -> (record: Option<LogRecord>) {
        match level {
            LogLevel::INFO => self.file_category_info(file, category, message, now),
            LogLevel::WARN => self.file_category_warn(file, category, message, now),
            LogLevel::ERROR => self.file_category_error(file, category, message, now),
        }
    }

    fn file_category_info(&self, file: &str, category: &str, message: &str, now: u64) -> (record:
        Option<LogRecord>) {
        self.record_at(LogLevel::INFO, file, category, message, now)
    }

    fn file_category_warn(&self, file: &str, category: &str, message: &str, now: u64) -> (record:
        Option<LogRecord>) {
        self.record_at(LogLevel::WARN, file, category, message, now)
    }

    fn file_category_error(&self, file: &str, category: &str, message: &str, now: u64) -> (record:
        Option<LogRecord>) {
        self.record_at(LogLevel::ERROR, file, category, message, now)
    }
}

} // verus!
