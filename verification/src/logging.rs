//! Log levels as `tracing` reads and writes them, and the filter directives
//! that a configured level gives.
use vstd::prelude::*;
use crate::text::{chars_of, parse_u64, parse_u64_spec, push_str, string_from};

verus! {

/// A `tracing` level.
#[derive(PartialEq, Eq, Structural, Clone, Copy, Debug)]
pub enum LogLevel {
    Error,
    Warn,
    Info,
    Debug,
    Trace,
}

/// `s` is `lower` with any of its letters in the case that `upper` gives.
pub open spec fn same_ignoring_case(s: Seq<char>, lower: Seq<char>, upper: Seq<char>) -> bool {
    &&& s.len() == lower.len()
    &&& forall|i: int| 0 <= i < s.len() ==> s[i] == lower[i] || s[i] == upper[i]
}

/// The level that `tracing::Level::from_str` reads: a number from 1 (error)
/// to 5 (trace) as `usize::from_str` reads it, else one of the five names in
/// any ASCII case.
pub open spec fn parse_log_level(s: Seq<char>) -> Option<LogLevel> {
    let n = parse_u64_spec(s);
    if n == Ok::<u64, crate::text::IntErrorKind>(1) {
        Some(LogLevel::Error)
    } else if n == Ok::<u64, crate::text::IntErrorKind>(2) {
        Some(LogLevel::Warn)
    } else if n == Ok::<u64, crate::text::IntErrorKind>(3) {
        Some(LogLevel::Info)
    } else if n == Ok::<u64, crate::text::IntErrorKind>(4) {
        Some(LogLevel::Debug)
    } else if n == Ok::<u64, crate::text::IntErrorKind>(5) {
        Some(LogLevel::Trace)
    } else if same_ignoring_case(s, "error"@, "ERROR"@) {
        Some(LogLevel::Error)
    } else if same_ignoring_case(s, "warn"@, "WARN"@) {
        Some(LogLevel::Warn)
    } else if same_ignoring_case(s, "info"@, "INFO"@) {
        Some(LogLevel::Info)
    } else if same_ignoring_case(s, "debug"@, "DEBUG"@) {
        Some(LogLevel::Debug)
    } else if same_ignoring_case(s, "trace"@, "TRACE"@) {
        Some(LogLevel::Trace)
    } else {
        None
    }
}

/// How `tracing` displays a level.
pub open spec fn level_display(l: LogLevel) -> Seq<char> {
    match l {
        LogLevel::Error => "ERROR"@,
        LogLevel::Warn => "WARN"@,
        LogLevel::Info => "INFO"@,
        LogLevel::Debug => "DEBUG"@,
        LogLevel::Trace => "TRACE"@,
    }
}

/// What `tracing::ParseLevelError` displays.
pub open spec fn parse_level_error_text() -> Seq<char> {
    "error parsing level: expected one of \"error\", \"warn\", \"info\", \"debug\", \"trace\", or a number 1-5"@
}

/// The level of the `openraft` directive: `debug` for every level that is
/// not more verbose than `DEBUG` in `tracing`'s order (all but `TRACE`),
/// `info` for `TRACE`.
pub open spec fn openraft_level(l: LogLevel) -> Seq<char> {
    if l is Trace {
        "info"@
    } else {
        "debug"@
    }
}

fn same_ignoring_case_exec(s: &[char], lower: &str, upper: &str) -> (r: bool)
    requires
        lower@.len() == upper@.len(),
    ensures
        r == same_ignoring_case(s@, lower@, upper@),
{
    let lo = chars_of(lower);
    let up = chars_of(upper);
    if s.len() != lo.len() {
        return false;
    }
    let mut i: usize = 0;
    while i < s.len()
        invariant
            s@.len() == lo@.len(),
            lo@.len() == up@.len(),
            lo@ == lower@,
            up@ == upper@,
            i <= s@.len(),
            forall|j: int| 0 <= j < i ==> s@[j] == lo@[j] || s@[j] == up@[j],
        decreases s@.len() - i,
    {
        if s[i] != lo[i] && s[i] != up[i] {
            return false;
        }
        i = i + 1;
    }
    true
}

/// Reads a level the way `tracing::Level::from_str` does.
pub fn parse_level(s: &str) -> (r: Option<LogLevel>)
    ensures
        r == parse_log_level(s@),
{
    proof {
        reveal_strlit("error");
        reveal_strlit("ERROR");
        reveal_strlit("warn");
        reveal_strlit("WARN");
        reveal_strlit("info");
        reveal_strlit("INFO");
        reveal_strlit("debug");
        reveal_strlit("DEBUG");
        reveal_strlit("trace");
        reveal_strlit("TRACE");
    }
    let cs = chars_of(s);
    match parse_u64(&cs) {
        Ok(1) => return Some(LogLevel::Error),
        Ok(2) => return Some(LogLevel::Warn),
        Ok(3) => return Some(LogLevel::Info),
        Ok(4) => return Some(LogLevel::Debug),
        Ok(5) => return Some(LogLevel::Trace),
        _ => {},
    }
    if same_ignoring_case_exec(&cs, "error", "ERROR") {
        Some(LogLevel::Error)
    } else if same_ignoring_case_exec(&cs, "warn", "WARN") {
        Some(LogLevel::Warn)
    } else if same_ignoring_case_exec(&cs, "info", "INFO") {
        Some(LogLevel::Info)
    } else if same_ignoring_case_exec(&cs, "debug", "DEBUG") {
        Some(LogLevel::Debug)
    } else if same_ignoring_case_exec(&cs, "trace", "TRACE") {
        Some(LogLevel::Trace)
    } else {
        None
    }
}

/// The filter directives of a configured level: `ferrium=<LEVEL>` and
/// `openraft=<debug|info>`; for a level that does not read, the error
/// `Invalid log level: ` and what `tracing` says of it.
pub fn log_filter_directives(level: &str) -> (r: Result<(String, String), String>)
    ensures
        match parse_log_level(level@) {
            Some(l) => r matches Ok((f, o)) && f@ == "ferrium="@ + level_display(l) && o@
                == "openraft="@ + openraft_level(l),
            None => r matches Err(m) && m@ == "Invalid log level: "@ + parse_level_error_text(),
        },
{
    match parse_level(level) {
        Some(l) => {
            let mut f = string_from("ferrium=");
            match l {
                LogLevel::Error => push_str(&mut f, "ERROR"),
                LogLevel::Warn => push_str(&mut f, "WARN"),
                LogLevel::Info => push_str(&mut f, "INFO"),
                LogLevel::Debug => push_str(&mut f, "DEBUG"),
                LogLevel::Trace => push_str(&mut f, "TRACE"),
            }
            let mut o = string_from("openraft=");
            match l {
                LogLevel::Trace => push_str(&mut o, "info"),
                _ => push_str(&mut o, "debug"),
            }
            Ok((f, o))
        },
        None => {
            let mut m = string_from("Invalid log level: ");
            push_str(
                &mut m,
                "error parsing level: expected one of \"error\", \"warn\", \"info\", \"debug\", \"trace\", or a number 1-5",
            );
            Err(m)
        },
    }
}

} // verus!
