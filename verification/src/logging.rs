//! The logger of the iOS example app: level tags and colours, the
//! wall-clock timestamp, the line written to stderr and the TCP relay, the
//! relay's reconnection cooldown, and the build-time level setting.
use vstd::prelude::*;
use crate::strings::{append, digit, digit_char, owned, str_eq};

verus! {

/// Log record levels, most severe first.
#[derive(Clone, Copy, Debug, PartialEq, Eq, Structural)]
pub enum LogLevel {
    Error,
    Warn,
    Info,
    Debug,
    Trace,
}

/// The most verbose level a logger lets through.
#[derive(Clone, Copy, Debug, PartialEq, Eq, Structural)]
pub enum LevelFilter {
    Off,
    Error,
    Warn,
    Info,
    Debug,
    Trace,
}

/// Verbosity rank of a level: Error 1 up to Trace 5.
pub open spec fn level_rank(level: LogLevel) -> int {
    match level {
        LogLevel::Error => 1,
        LogLevel::Warn => 2,
        LogLevel::Info => 3,
        LogLevel::Debug => 4,
        LogLevel::Trace => 5,
    }
}

/// Verbosity rank of a filter: Off 0 up to Trace 5.
pub open spec fn filter_rank(filter: LevelFilter) -> int {
    match filter {
        LevelFilter::Off => 0,
        LevelFilter::Error => 1,
        LevelFilter::Warn => 2,
        LevelFilter::Info => 3,
        LevelFilter::Debug => 4,
        LevelFilter::Trace => 5,
    }
}

fn level_rank_exec(level: LogLevel) -> (r: u8)
    ensures
        r == level_rank(level),
{
    match level {
        LogLevel::Error => 1,
        LogLevel::Warn => 2,
        LogLevel::Info => 3,
        LogLevel::Debug => 4,
        LogLevel::Trace => 5,
    }
}

fn filter_rank_exec(filter: LevelFilter) -> (r: u8)
    ensures
        r == filter_rank(filter),
{
    match filter {
        LevelFilter::Off => 0,
        LevelFilter::Error => 1,
        LevelFilter::Warn => 2,
        LevelFilter::Info => 3,
        LevelFilter::Debug => 4,
        LevelFilter::Trace => 5,
    }
}

/// A record is logged when its level is no more verbose than the maximum.
pub fn enabled(level: LogLevel, max_level: LevelFilter) -> (b: bool)
    ensures
        b == (level_rank(level) <= filter_rank(max_level)),
{
    level_rank_exec(level) <= filter_rank_exec(max_level)
}

/// The filters are ordered by verbosity: a record passes the filter named
/// like its level and every more verbose one, and no less verbose one.
/// Error passes only from Error up, Warn from Warn up, Info from Info up,
/// Debug from Debug up, Trace only at Trace; Off lets nothing through and
/// Trace lets everything through.
pub proof fn lemma_level_filtering(level: LogLevel)
    ensures
        level_rank(level) > filter_rank(LevelFilter::Off),
        level_rank(level) <= filter_rank(LevelFilter::Trace),
        level_rank(LogLevel::Error) <= filter_rank(LevelFilter::Error),
        level_rank(LogLevel::Warn) <= filter_rank(LevelFilter::Warn),
        level_rank(LogLevel::Warn) > filter_rank(LevelFilter::Error),
        level_rank(LogLevel::Info) <= filter_rank(LevelFilter::Info),
        level_rank(LogLevel::Info) > filter_rank(LevelFilter::Warn),
        level_rank(LogLevel::Debug) <= filter_rank(LevelFilter::Debug),
        level_rank(LogLevel::Debug) > filter_rank(LevelFilter::Info),
        level_rank(LogLevel::Trace) <= filter_rank(LevelFilter::Trace),
        level_rank(LogLevel::Trace) > filter_rank(LevelFilter::Debug),
        forall|f: LevelFilter, g: LevelFilter|
            #![trigger filter_rank(f), filter_rank(g)]
            filter_rank(f) <= filter_rank(g) && level_rank(level) <= filter_rank(f) ==> level_rank(
                level,
            ) <= filter_rank(g),
{
}

/// The ANSI colour escape of a level's tag.
pub fn level_color(level: LogLevel) -> (c: &'static str)
    ensures
        c@ == match level {
            LogLevel::Error => "\x1b[31m"@,
            LogLevel::Warn => "\x1b[33m"@,
            LogLevel::Info => "\x1b[32m"@,
            LogLevel::Debug => "\x1b[36m"@,
            LogLevel::Trace => "\x1b[90m"@,
        },
{
    match level {
        LogLevel::Error => "\x1b[31m",
        LogLevel::Warn => "\x1b[33m",
        LogLevel::Info => "\x1b[32m",
        LogLevel::Debug => "\x1b[36m",
        LogLevel::Trace => "\x1b[90m",
    }
}

/// The five-character tag of a level.
pub fn level_tag(level: LogLevel) -> (t: &'static str)
    ensures
        t@ == match level {
            LogLevel::Error => "ERROR"@,
            LogLevel::Warn => "WARN "@,
            LogLevel::Info => "INFO "@,
            LogLevel::Debug => "DEBUG"@,
            LogLevel::Trace => "TRACE"@,
        },
{
    match level {
        LogLevel::Error => "ERROR",
        LogLevel::Warn => "WARN ",
        LogLevel::Info => "INFO ",
        LogLevel::Debug => "DEBUG",
        LogLevel::Trace => "TRACE",
    }
}

/// `n` in two decimal digits, zero-padded.
pub open spec fn two_digits(n: int) -> Seq<char> {
    seq![digit_char(n / 10), digit_char(n % 10)]
}

/// `n` in three decimal digits, zero-padded.
pub open spec fn three_digits(n: int) -> Seq<char> {
    seq![digit_char(n / 100), digit_char((n / 10) % 10), digit_char(n % 10)]
}

/// The clock time `HH:MM:SS.mmm` (UTC, hours modulo 24) of an instant given
/// as whole seconds since the epoch and the milliseconds past that second.
pub open spec fn spec_timestamp(total_secs: u64, millis: u32) -> Seq<char> {
    two_digits(((total_secs / 3600) % 24) as int) + seq![':'] + two_digits(
        ((total_secs / 60) % 60) as int,
    ) + seq![':'] + two_digits((total_secs % 60) as int) + seq!['.'] + three_digits(millis as int)
}

pub fn format_timestamp(total_secs: u64, millis: u32) -> (s: String)
    requires
        millis < 1000,
    ensures
        s@ == spec_timestamp(total_secs, millis),
{
    let hours = ((total_secs / 3600) % 24) as u128;
    let minutes = ((total_secs / 60) % 60) as u128;
    let seconds = (total_secs % 60) as u128;
    let ms = millis as u128;
    let mut s = String::new();
    s.push(digit(hours / 10));
    s.push(digit(hours % 10));
    s.push(':');
    s.push(digit(minutes / 10));
    s.push(digit(minutes % 10));
    s.push(':');
    s.push(digit(seconds / 10));
    s.push(digit(seconds % 10));
    s.push('.');
    s.push(digit(ms / 100));
    s.push(digit((ms / 10) % 10));
    s.push(digit(ms % 10));
    proof {
        assert(s@ =~= spec_timestamp(total_secs, millis));
    }
    s
}

/// A timestamp is always twelve characters: `HH:MM:SS.mmm`.
pub proof fn lemma_timestamp_len(total_secs: u64, millis: u32)
    ensures
        spec_timestamp(total_secs, millis).len() == 12,
        spec_timestamp(total_secs, millis)[2] == ':',
        spec_timestamp(total_secs, millis)[5] == ':',
        spec_timestamp(total_secs, millis)[8] == '.',
{
}

/// The line a record is written as: timestamp, coloured level tag, the
/// record's target in brackets, and the message.
pub open spec fn spec_log_line(timestamp: Seq<char>, level: LogLevel, target: Seq<char>, message: Seq<char>) -> Seq<char> {
    timestamp + " "@ + (match level {
        LogLevel::Error => "\x1b[31m"@,
        LogLevel::Warn => "\x1b[33m"@,
        LogLevel::Info => "\x1b[32m"@,
        LogLevel::Debug => "\x1b[36m"@,
        LogLevel::Trace => "\x1b[90m"@,
    }) + (match level {
        LogLevel::Error => "ERROR"@,
        LogLevel::Warn => "WARN "@,
        LogLevel::Info => "INFO "@,
        LogLevel::Debug => "DEBUG"@,
        LogLevel::Trace => "TRACE"@,
    }) + "\x1b[0m"@ + " ["@ + target + "] "@ + message
}

pub fn format_log_line(timestamp: &str, level: LogLevel, target: &str, message: &str) -> (line: String)
    ensures
        line@ == spec_log_line(timestamp@, level, target@, message@),
{
    let mut line = owned(timestamp);
    append(&mut line, " ");
    append(&mut line, level_color(level));
    append(&mut line, level_tag(level));
    append(&mut line, "\x1b[0m");
    append(&mut line, " [");
    append(&mut line, target);
    append(&mut line, "] ");
    append(&mut line, message);
    line
}

/// Milliseconds between two reconnection attempts to the log relay.
pub const TCP_RECONNECT_COOLDOWN_MS: u64 = 5000;

/// The log relay connection's reconnection bookkeeping.
#[derive(Clone, Copy, Debug, PartialEq, Eq, Structural)]
pub struct RelayReconnectState {
    pub last_reconnect_attempt_ms: u64,
}

impl RelayReconnectState {
    /// Whether to try reconnecting now. An attempt is made once the
    /// cooldown since the last attempt has passed (a clock that went back
    /// counts as no time passed), and the attempt time is recorded.
    pub fn begin_attempt(&mut self, now_ms: u64) -> (attempt: bool)
        ensures
            attempt == (if now_ms >= old(self).last_reconnect_attempt_ms {
                now_ms - old(self).last_reconnect_attempt_ms
            } else {
                0
            } >= TCP_RECONNECT_COOLDOWN_MS),
            attempt ==> final(self).last_reconnect_attempt_ms == now_ms,
            !attempt ==> *final(self) == *old(self),
    {
        let elapsed = now_ms.saturating_sub(self.last_reconnect_attempt_ms);
        if elapsed < TCP_RECONNECT_COOLDOWN_MS {
            return false;
        }
        self.last_reconnect_attempt_ms = now_ms;
        true
    }
}

/// Two attempts made through this state are at least the cooldown apart.
pub proof fn lemma_attempts_spaced(last: u64, now: u64)
    requires
        (if now >= last { now - last } else { 0 }) >= TCP_RECONNECT_COOLDOWN_MS,
    ensures
        now >= last + TCP_RECONNECT_COOLDOWN_MS,
{
}

/// The maximum level set at build time (`GPUI_LOG_LEVEL`): `trace`,
/// `debug`, `info`, `warn` or `error` in lower or upper case; anything
/// else, or no setting, means debug.
pub open spec fn spec_parse_level_filter(value: Option<Seq<char>>) -> LevelFilter {
    match value {
        Some(v) => if v == "trace"@ || v == "TRACE"@ {
            LevelFilter::Trace
        } else if v == "debug"@ || v == "DEBUG"@ {
            LevelFilter::Debug
        } else if v == "info"@ || v == "INFO"@ {
            LevelFilter::Info
        } else if v == "warn"@ || v == "WARN"@ {
            LevelFilter::Warn
        } else if v == "error"@ || v == "ERROR"@ {
            LevelFilter::Error
        } else {
            LevelFilter::Debug
        },
        None => LevelFilter::Debug,
    }
}

pub fn parse_level_filter(value: Option<&str>) -> (f: LevelFilter)
    ensures
        f == spec_parse_level_filter(
            match value {
                Some(v) => Some(v@),
                None => None,
            },
        ),
{
    match value {
        Some(v) => {
            if str_eq(v, "trace") || str_eq(v, "TRACE") {
                LevelFilter::Trace
            } else if str_eq(v, "debug") || str_eq(v, "DEBUG") {
                LevelFilter::Debug
            } else if str_eq(v, "info") || str_eq(v, "INFO") {
                LevelFilter::Info
            } else if str_eq(v, "warn") || str_eq(v, "WARN") {
                LevelFilter::Warn
            } else if str_eq(v, "error") || str_eq(v, "ERROR") {
                LevelFilter::Error
            } else {
                LevelFilter::Debug
            }
        },
        None => LevelFilter::Debug,
    }
}

/// The build-time level setting: each level name, in lower or upper case,
/// selects that level; anything else, mixed case included, and no setting
/// select debug.
pub proof fn lemma_level_setting()
    ensures
        spec_parse_level_filter(Some("trace"@)) == LevelFilter::Trace,
        spec_parse_level_filter(Some("TRACE"@)) == LevelFilter::Trace,
        spec_parse_level_filter(Some("debug"@)) == LevelFilter::Debug,
        spec_parse_level_filter(Some("info"@)) == LevelFilter::Info,
        spec_parse_level_filter(Some("INFO"@)) == LevelFilter::Info,
        spec_parse_level_filter(Some("warn"@)) == LevelFilter::Warn,
        spec_parse_level_filter(Some("WARN"@)) == LevelFilter::Warn,
        spec_parse_level_filter(Some("error"@)) == LevelFilter::Error,
        spec_parse_level_filter(Some("ERROR"@)) == LevelFilter::Error,
        spec_parse_level_filter(Some("Warn"@)) == LevelFilter::Debug,
        spec_parse_level_filter(None) == LevelFilter::Debug,
{
    reveal_strlit("trace");
    reveal_strlit("TRACE");
    reveal_strlit("debug");
    reveal_strlit("DEBUG");
    reveal_strlit("info");
    reveal_strlit("INFO");
    reveal_strlit("warn");
    reveal_strlit("WARN");
    reveal_strlit("error");
    reveal_strlit("ERROR");
    reveal_strlit("Warn");
    assert("TRACE"@[0] != "trace"@[0]);
    assert("debug"@[0] != "trace"@[0]);
    assert("debug"@[0] != "TRACE"@[0]);
    assert("info"@.len() != "trace"@.len());
    assert("info"@.len() != "TRACE"@.len());
    assert("info"@.len() != "debug"@.len());
    assert("info"@.len() != "DEBUG"@.len());
    assert("INFO"@.len() != "trace"@.len());
    assert("INFO"@.len() != "TRACE"@.len());
    assert("INFO"@.len() != "debug"@.len());
    assert("INFO"@.len() != "DEBUG"@.len());
    assert("INFO"@[0] != "info"@[0]);
    assert("warn"@.len() != "trace"@.len());
    assert("warn"@.len() != "TRACE"@.len());
    assert("warn"@.len() != "debug"@.len());
    assert("warn"@.len() != "DEBUG"@.len());
    assert("warn"@[0] != "info"@[0]);
    assert("warn"@[0] != "INFO"@[0]);
    assert("WARN"@.len() != "trace"@.len());
    assert("WARN"@.len() != "TRACE"@.len());
    assert("WARN"@.len() != "debug"@.len());
    assert("WARN"@.len() != "DEBUG"@.len());
    assert("WARN"@[0] != "info"@[0]);
    assert("WARN"@[0] != "INFO"@[0]);
    assert("WARN"@[0] != "warn"@[0]);
    assert("error"@[0] != "trace"@[0]);
    assert("error"@[0] != "TRACE"@[0]);
    assert("error"@[0] != "debug"@[0]);
    assert("error"@[0] != "DEBUG"@[0]);
    assert("error"@.len() != "info"@.len());
    assert("error"@.len() != "INFO"@.len());
    assert("error"@.len() != "warn"@.len());
    assert("error"@.len() != "WARN"@.len());
    assert("ERROR"@[0] != "trace"@[0]);
    assert("ERROR"@[0] != "TRACE"@[0]);
    assert("ERROR"@[0] != "debug"@[0]);
    assert("ERROR"@[0] != "DEBUG"@[0]);
    assert("ERROR"@.len() != "info"@.len());
    assert("ERROR"@.len() != "INFO"@.len());
    assert("ERROR"@.len() != "warn"@.len());
    assert("ERROR"@.len() != "WARN"@.len());
    assert("ERROR"@[0] != "error"@[0]);
    assert("Warn"@.len() != "trace"@.len());
    assert("Warn"@.len() != "TRACE"@.len());
    assert("Warn"@.len() != "debug"@.len());
    assert("Warn"@.len() != "DEBUG"@.len());
    assert("Warn"@[0] != "info"@[0]);
    assert("Warn"@[0] != "INFO"@[0]);
    assert("Warn"@[0] != "warn"@[0]);
    assert("Warn"@[1] != "WARN"@[1]);
    assert("Warn"@.len() != "error"@.len());
    assert("Warn"@.len() != "ERROR"@.len());
    assert("Warn"@.len() != "trace"@.len());
    assert("Warn"@.len() != "TRACE"@.len());
    assert("Warn"@.len() != "debug"@.len());
    assert("Warn"@.len() != "DEBUG"@.len());
    assert("Warn"@[0] != "info"@[0]);
    assert("Warn"@[0] != "INFO"@[0]);
    assert("Warn"@[0] != "warn"@[0]);
    assert("Warn"@[1] != "WARN"@[1]);
    assert("Warn"@.len() != "error"@.len());
    assert("Warn"@.len() != "ERROR"@.len());
}

} // verus!
