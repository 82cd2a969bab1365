//! Reading the level, time and message of core log lines.
use vstd::prelude::*;
use vstd::string::*;
use crate::strs::{
    char_is_ws, chars_contains_str, chars_find_from, chars_lower, chars_sub, chars_trim,
    contains, find, from_chars, is_ws, lemma_find_sound, lower, occurs_at, owned, str_eq, to_chars, trim,
};
use crate::text::{safe_text, redact, link_marker, terminal_safe_log_text};

verus! {

/// The level a log line carries, as the table shows it.
pub open spec fn log_level_text(log: Seq<char>) -> Seq<char> {
    let l = lower(log);
    if contains(l, "level=fatal"@) || contains(l, "level=\"fatal\""@) || contains(l, "[fatal]"@)
        || contains(l, "fatal:"@) {
        "致命"@
    } else if contains(l, "level=error"@) || contains(l, "level=\"error\""@) || contains(
        l,
        "[error]"@,
    ) || contains(l, "error:"@) {
        "错误"@
    } else if contains(l, "level=warn"@) || contains(l, "level=\"warn\""@) || contains(
        l,
        "[warn]"@,
    ) || contains(l, "warning:"@) {
        "警告"@
    } else if contains(l, "level=debug"@) || contains(l, "level=\"debug\""@) || contains(
        l,
        "level=trace"@,
    ) || contains(l, "level=\"trace\""@) || contains(l, "[debug]"@) || contains(l, "[trace]"@) {
        "调试"@
    } else if contains(l, "level=info"@) || contains(l, "level=\"info\""@) || contains(
        l,
        "[info]"@,
    ) {
        "信息"@
    } else {
        "其他"@
    }
}

/// The level of a log line, judged case-insensitively from `level=..`,
/// `[..]` and `..:` markers.
pub fn log_level(log: &str) -> (r: &'static str)
    ensures
        r@ == log_level_text(log@),
{
    let c = to_chars(log);
    let l = chars_lower(&c);
    if chars_contains_str(&l, "level=fatal") || chars_contains_str(&l, "level=\"fatal\"")
        || chars_contains_str(&l, "[fatal]") || chars_contains_str(&l, "fatal:") {
        "致命"
    } else if chars_contains_str(&l, "level=error") || chars_contains_str(&l, "level=\"error\"")
        || chars_contains_str(&l, "[error]") || chars_contains_str(&l, "error:") {
        "错误"
    } else if chars_contains_str(&l, "level=warn") || chars_contains_str(&l, "level=\"warn\"")
        || chars_contains_str(&l, "[warn]") || chars_contains_str(&l, "warning:") {
        "警告"
    } else if chars_contains_str(&l, "level=debug") || chars_contains_str(&l, "level=\"debug\"")
        || chars_contains_str(&l, "level=trace") || chars_contains_str(&l, "level=\"trace\"")
        || chars_contains_str(&l, "[debug]") || chars_contains_str(&l, "[trace]") {
        "调试"
    } else if chars_contains_str(&l, "level=info") || chars_contains_str(&l, "level=\"info\"")
        || chars_contains_str(&l, "[info]") {
        "信息"
    } else {
        "其他"
    }
}

/// The position of the first whitespace character of `s` at or after `i`,
/// or the length of `s`.
pub open spec fn ws_index(s: Seq<char>, i: int) -> int
    decreases s.len() - i,
{
    if i < 0 || i >= s.len() {
        s.len() as int
    } else if is_ws(s[i]) {
        i
    } else {
        ws_index(s, i + 1)
    }
}

/// The value of `key=` in a log line: the quoted text up to the closing
/// quote (or the end), else the text up to the next whitespace, `None` when
/// the key is missing or its unquoted value is empty.
pub open spec fn log_field_value(log: Seq<char>, key: Seq<char>) -> Option<Seq<char>> {
    let prefix = key + "="@;
    match find(log, prefix) {
        None => None,
        Some(i) => {
            let value = log.skip(i + prefix.len());
            if value.len() > 0 && value[0] == '"' {
                let stripped = value.skip(1);
                let end = match find(stripped, seq!['"']) {
                    Some(e) => e,
                    None => stripped.len() as int,
                };
                Some(stripped.take(end))
            } else {
                let v = trim(value.take(ws_index(value, 0)));
                if v.len() == 0 {
                    None
                } else {
                    Some(v)
                }
            }
        },
    }
}

fn chars_ws_index(s: &[char]) -> (r: usize)
    ensures
        r == ws_index(s@, 0),
        r <= s.len(),
{
    let mut i: usize = 0;
    while i < s.len()
        invariant
            i <= s.len(),
            ws_index(s@, 0) == ws_index(s@, i as int),
        decreases s.len() - i,
    {
        if char_is_ws(s[i]) {
            return i;
        }
        i += 1;
    }
    i
}

/// Reads `key=value` or `key="value"` from a log line.
pub fn log_field(log: &str, key: &str) -> (r: Option<String>)
    ensures
        match r {
            Some(v) => log_field_value(log@, key@) == Some(v@),
            None => log_field_value(log@, key@) is None,
        },
{
    let c = to_chars(log);
    let mut prefix = to_chars(key);
    prefix.push('=');
    proof {
        assert(prefix@ =~= key@ + "="@) by {
            reveal_strlit("=");
        }
    }
    let i = match chars_find_from(&c, &prefix, 0) {
        None => {
            return None;
        },
        Some(i) => i,
    };
    assert(occurs_at(c@, prefix@, i as int));
    assert(i + prefix@.len() <= c@.len());
    let plen = prefix.len();
    assert(plen == prefix@.len());
    assert(i + plen <= c.len());
    let start = i + plen;
    let value = chars_sub(&c, start, c.len());
    proof {
        assert(value@ =~= log@.skip(i + prefix@.len()));
    }
    if value.len() > 0 && value[0] == '"' {
        let stripped = chars_sub(&value, 1, value.len());
        let quote = vec!['"'];
        let end = match chars_find_from(&stripped, &quote, 0) {
            Some(e) => {
                proof {
                    lemma_find_sound(stripped@, quote@, 0);
                }
                e
            },
            None => stripped.len(),
        };
        proof {
            assert(stripped@ =~= value@.skip(1));
            assert(quote@ =~= seq!['"']);
        }
        return Some(from_chars(&chars_sub(&stripped, 0, end)));
    }
    let end = chars_ws_index(&value);
    let v = chars_trim(&chars_sub(&value, 0, end));
    if v.len() == 0 {
        None
    } else {
        Some(from_chars(&v))
    }
}

/// One row of the log table.
#[derive(Debug, Clone, PartialEq, Eq)]
pub struct LogRow {
    pub level: &'static str,
    pub time: String,
    pub message: String,
}

/// What a log line shows in the table: its level, its `time` (or `-`) and
/// its `msg` (or the whole safe line), all read from the terminal-safe,
/// redacted line.
pub open spec fn log_row_view(log: Seq<char>) -> (Seq<char>, Seq<char>, Seq<char>) {
    let safe = safe_text(redact(log, link_marker()));
    (
        log_level_text(safe),
        match log_field_value(safe, "time"@) {
            Some(t) => t,
            None => "-"@,
        },
        match log_field_value(safe, "msg"@) {
            Some(m) => m,
            None => safe,
        },
    )
}

impl LogRow {
    /// The table row of a log line.
    pub fn from_log(log: &str) -> (r: LogRow)
        ensures
            (r.level@, r.time@, r.message@) == log_row_view(log@),
    {
        let safe = terminal_safe_log_text(log);
        let level = log_level(safe.as_str());
        let time = match log_field(safe.as_str(), "time") {
            Some(t) => t,
            None => owned("-"),
        };
        let message = match log_field(safe.as_str(), "msg") {
            Some(m) => m,
            None => safe,
        };
        LogRow { level, time, message }
    }
}

/// Error (fatal included) and warning counts of the log.
#[derive(Debug, Clone, Copy, PartialEq, Eq, Structural)]
pub struct LogSummary {
    pub errors: usize,
    pub warnings: usize,
}

/// The number of lines whose level is one of `levels`.
pub open spec fn count_levels(logs: Seq<Seq<char>>, levels: Seq<Seq<char>>) -> nat
    decreases logs.len(),
{
    if logs.len() == 0 {
        0
    } else {
        count_levels(logs.drop_last(), levels) + if levels.contains(log_level_text(logs.last())) {
            1nat
        } else {
            0nat
        }
    }
}

pub open spec fn error_levels() -> Seq<Seq<char>> {
    seq!["错误"@, "致命"@]
}

pub open spec fn warning_levels() -> Seq<Seq<char>> {
    seq!["警告"@]
}

pub open spec fn string_views(v: Seq<String>) -> Seq<Seq<char>> {
    v.map_values(|s: String| s@)
}

impl LogSummary {
    /// Counts error and warning lines.
    pub fn from_logs(logs: &[String]) -> (r: LogSummary)
        ensures
            r.errors == count_levels(string_views(logs@), error_levels()),
            r.warnings == count_levels(string_views(logs@), warning_levels()),
    {
        let mut errors: usize = 0;
        let mut warnings: usize = 0;
        let mut i: usize = 0;
        proof {
            reveal_strlit("错误");
            reveal_strlit("致命");
            reveal_strlit("警告");
        }
        while i < logs.len()
            invariant
                i <= logs.len(),
                errors <= i,
                warnings <= i,
                errors == count_levels(string_views(logs@.take(i as int)), error_levels()),
                warnings == count_levels(string_views(logs@.take(i as int)), warning_levels()),
            decreases logs.len() - i,
        {
            let level = log_level(logs[i].as_str());
            proof {
                assert(string_views(logs@.take(i + 1)).drop_last() =~= string_views(
                    logs@.take(i as int),
                ));
                assert(string_views(logs@.take(i + 1)).last() == logs@[i as int]@);
                assert(error_levels().contains(level@) <==> (level@ == "错误"@ || level@
                    == "致命"@)) by {
                    if level@ == "致命"@ {
                        assert(error_levels()[1] == level@);
                    }
                    if level@ == "错误"@ {
                        assert(error_levels()[0] == level@);
                    }
                }
                reveal_strlit("错误");
                reveal_strlit("致命");
                reveal_strlit("警告");
                assert("错误"@[0] != "警告"@[0] && "致命"@[0] != "警告"@[0]);
                assert(warning_levels().contains(level@) <==> level@ == "警告"@) by {
                    if level@ == "警告"@ {
                        assert(warning_levels()[0] == level@);
                    }
                }
            }
            if str_eq(level, "错误") || str_eq(level, "致命") {
                errors += 1;
            } else if str_eq(level, "警告") {
                warnings += 1;
            }
            i += 1;
        }
        proof {
            assert(logs@.take(logs.len() as int) =~= logs@);
        }
        LogSummary { errors, warnings }
    }
}

} // verus!
