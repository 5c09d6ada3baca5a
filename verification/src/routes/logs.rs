use vstd::prelude::*;
use vstd::string::*;
use crate::schemas::logs::CreateLog;
use crate::services::logger::{
    default_category, default_file, log_line_at, readable_in_brackets, records, stamp_of,
    LogLevel, LogRecord, Logger,
};
use crate::text::{chars_of, text_between};

verus! {

/// The body of a reply that has nothing to say.
#[derive(Clone, Copy, Debug, PartialEq, Eq, Structural)]
pub struct EmptyResponse {}

/// One line of a log file, taken apart.
#[derive(Debug)]
pub struct LogView {
    pub file: String,
    pub timestamp: String,
    pub level: String,
    pub message: String,
}

/// What a line of the log is refused with.
pub open spec fn incorrect_log_format() -> Seq<char> {
    "Incorrect log format"@
}

/// The position of the first `]` of `line` at or after `from`; the length
/// of the line where there is none.
pub open spec fn closing_from(line: Seq<char>, from: int) -> int
    decreases line.len() - from,
{
    if from < 0 || from >= line.len() {
        line.len() as int
    } else if line[from] == ']' {
        from
    } else {
        closing_from(line, from + 1)
    }
}

/// The bracketed part of `line` that starts at `start`: what stands
/// between the brackets, and the position after the closing one. The
/// character after `[` always belongs to the part, so the part is never
/// empty and may begin with `]`; it ends before the first `]` that
/// follows. `None` where no such part starts at `start`.
pub open spec fn bracketed_at(line: Seq<char>, start: int) -> Option<(Seq<char>, int)> {
    if 0 <= start && start + 1 < line.len() && line[start] == '[' && closing_from(line, start + 2)
        < line.len() {
        let close = closing_from(line, start + 2);
        Some((line.subrange(start + 1, close), close + 1))
    } else {
        None
    }
}

/// The message of `line` that starts at `start`: what follows a colon and
/// a space, up to the end of the line. `None` where the two do not stand
/// at `start`.
pub open spec fn message_at(line: Seq<char>, start: int) -> Option<Seq<char>> {
    if 0 <= start && start + 1 < line.len() && line[start] == ':' && line[start + 1] == ' ' {
        Some(line.subrange(start + 2, line.len() as int))
    } else {
        None
    }
}

/// A line of the log taken apart: its timestamp, its level and its
/// message. A line has the form `[timestamp][level]: message`.
pub open spec fn log_line(line: Seq<char>) -> Option<(Seq<char>, Seq<char>, Seq<char>)> {
    match bracketed_at(line, 0) {
        Some((timestamp, after_timestamp)) => match bracketed_at(line, after_timestamp) {
            Some((level, after_level)) => match message_at(line, after_level) {
                Some(message) => Some((timestamp, level, message)),
                None => None,
            },
            None => None,
        },
        None => None,
    }
}

/// Where a `]` stands at `close` and none stands from `from` up to it,
/// `closing_from` finds it.
proof fn lemma_closing_at(line: Seq<char>, from: int, close: int)
    requires
        0 <= from <= close < line.len(),
        line[close] == ']',
        forall|i: int| from <= i < close ==> line[i] != ']',
    ensures
        closing_from(line, from) == close,
    decreases close - from,
{
    if from < close {
        lemma_closing_at(line, from + 1, close);
    }
}

/// What the logger writes, the parser reads back: the line that is
/// written for a message at some time and under some prefix, without the
/// line break at its end, is taken apart into that time, that prefix and
/// that message, if the time and the prefix can stand between brackets.
pub proof fn lemma_written_line_is_read_back(time: Seq<char>, prefix: Seq<char>, message: Seq<char>)
    requires
        readable_in_brackets(time),
        readable_in_brackets(prefix),
    ensures
        log_line(log_line_at(time, prefix, message).drop_last()) == Some((time, prefix, message)),
{
    reveal_strlit("[");
    reveal_strlit("][");
    reveal_strlit("]: ");
    reveal_strlit("\n");
    let line = "["@ + time + "]["@ + prefix + "]: "@ + message;
    assert(log_line_at(time, prefix, message).drop_last() =~= line);
    let after_time: int = 2 + (time.len() as int);
    let after_prefix: int = after_time + 2 + (prefix.len() as int);
    assert(line[0] == '[');
    assert(line[after_time - 1] == ']');
    assert(line[after_time] == '[');
    assert(line[after_prefix - 1] == ']');
    assert(line[after_prefix] == ':');
    assert(line[after_prefix + 1] == ' ');
    assert forall|i: int| 2 <= i < after_time - 1 implies line[i] != ']' by {
        assert(line[i] == time[i - 1]);
    }
    lemma_closing_at(line, 2, after_time - 1);
    assert(line.subrange(1, after_time - 1) =~= time);
    assert forall|i: int| after_time + 2 <= i < after_prefix - 1 implies line[i] != ']' by {
        assert(line[i] == prefix[i - after_time - 1]);
    }
    lemma_closing_at(line, after_time + 2, after_prefix - 1);
    assert(line.subrange(after_time + 1, after_prefix - 1) =~= prefix);
    assert(line.subrange(after_prefix + 2, line.len() as int) =~= message);
}

/// Reads the bracketed part that starts at `position` and moves
/// `position` behind it. Where no such part starts there, `position`
/// stays.
pub fn parse_log_bracketed(chars: &Vec<char>, position: &mut usize) -> (parsed: Result<
    String,
    String,
>)
    requires
        *old(position) <= chars@.len(),
    ensures
        *final(position) <= chars@.len(),
        match bracketed_at(chars@, *old(position) as int) {
            Some((part, next)) => parsed matches Ok(text) && text@ == part && *final(position)
                == next,
            None => parsed matches Err(message) && message@ == incorrect_log_format()
                && *final(position) == *old(position),
        },
{
    let start = *position;
    if start >= chars.len() || chars[start] != '[' {
        return Err(String::from_str("Incorrect log format"));
    }
    if chars.len() - start < 2 {
        return Err(String::from_str("Incorrect log format"));
    }
    let mut close: usize = start + 2;
    while close < chars.len() && chars[close] != ']'
        invariant
            start + 2 <= close <= chars@.len(),
            closing_from(chars@, start + 2) == closing_from(chars@, close as int),
        decreases chars@.len() - close,
    {
        close += 1;
    }
    if close >= chars.len() {
        return Err(String::from_str("Incorrect log format"));
    }
    let text = text_between(chars, start + 1, close);
    *position = close + 1;
    Ok(text)
}

/// Reads the message that starts at `position` and moves `position` to
/// the end of the line. Where no message starts there, `position` stays.
pub fn parse_log_message(chars: &Vec<char>, position: &mut usize) -> (parsed: Result<
    String,
    String,
>)
    requires
        *old(position) <= chars@.len(),
    ensures
        *final(position) <= chars@.len(),
        match message_at(chars@, *old(position) as int) {
            Some(message) => parsed matches Ok(text) && text@ == message && *final(position)
                == chars@.len(),
            None => parsed matches Err(message) && message@ == incorrect_log_format()
                && *final(position) == *old(position),
        },
{
    let start = *position;
    if start >= chars.len() || chars[start] != ':' {
        return Err(String::from_str("Incorrect log format"));
    }
    if chars.len() - start < 2 || chars[start + 1] != ' ' {
        return Err(String::from_str("Incorrect log format"));
    }
    let text = text_between(chars, start + 2, chars.len());
    *position = chars.len();
    Ok(text)
}

/// Takes the line `line` of the log file `file` apart.
pub fn parse_log(file: &str, line: &str) -> (parsed: Result<LogView, String>)
    ensures
        match log_line(line@) {
            Some((timestamp, level, message)) => {
                &&& parsed matches Ok(view)
                &&& view.file@ == file@
                &&& view.timestamp@ == timestamp
                &&& view.level@ == level
                &&& view.message@ == message
            },
            None => parsed matches Err(reason) && reason@ == incorrect_log_format(),
        },
{
    let chars = chars_of(line);
    let mut position: usize = 0;
    let timestamp = match parse_log_bracketed(&chars, &mut position) {
        Ok(timestamp) => timestamp,
        Err(reason) => return Err(reason),
    };
    let level = match parse_log_bracketed(&chars, &mut position) {
        Ok(level) => level,
        Err(reason) => return Err(reason),
    };
    let message = match parse_log_message(&chars, &mut position) {
        Ok(message) => message,
        Err(reason) => return Err(reason),
    };
    Ok(LogView { file: String::from_str(file), timestamp, level, message })
}

/// The file that a request to log names, or the file of the service.
pub open spec fn requested_file(payload: CreateLog) -> Seq<char> {
    match payload.file {
        Some(file) => file@,
        None => default_file(),
    }
}

/// The category that a request to log names, or the default one.
pub open spec fn requested_category(payload: CreateLog) -> Seq<char> {
    match payload.category {
        Some(category) => category@,
        None => default_category(),
    }
}

/// The name of every level can stand between brackets.
pub proof fn lemma_level_names_are_readable(level: LogLevel)
    ensures
        readable_in_brackets(level.name()),
{
    reveal_strlit("INFO");
    reveal_strlit("WARN");
    reveal_strlit("ERROR");
}

/// What is to be written at the time `now` for a request to log: the
/// message at the level of the request, in the log of the file and the
/// category that the request names; where it names none, the defaults
/// take their place. The line that is written is one that `parse_log`
/// takes apart into the stamp of the time, the name of the level and the
/// message.
pub fn create_log<L: Logger>(logger: &L, payload: &CreateLog, now: u64) -> (record: Option<
    LogRecord,
>)
    ensures
        records(
            record,
            now,
            payload.level,
            requested_file(*payload),
            requested_category(*payload),
            payload.message@,
        ),
        record matches Some(written) ==> stamp_of(now) is Some && log_line(
            written.line@.drop_last(),
        ) == Some((stamp_of(now)->0, payload.level.name(), payload.message@)),
{
    let record = match (&payload.file, &payload.category) {
        (Some(file), Some(category)) => logger.file_category_log(
            payload.level,
            file.as_str(),
            category.as_str(),
            payload.message.as_str(),
            now,
        ),
        (Some(file), None) => logger.file_category_log(
            payload.level,
            file.as_str(),
            "default",
            payload.message.as_str(),
            now,
        ),
        (None, Some(category)) => logger.category_log(
            payload.level,
            category.as_str(),
            payload.message.as_str(),
            now,
        ),
        (None, None) => logger.log(payload.level, payload.message.as_str(), now),
    };
    proof {
        if stamp_of(now) is Some {
            lemma_level_names_are_readable(payload.level);
            lemma_written_line_is_read_back(
                stamp_of(now)->0,
                payload.level.name(),
                payload.message@,
            );
        }
    }
    record
}

} // verus!
