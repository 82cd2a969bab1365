//! Making untrusted text safe to show in a terminal: control characters,
//! line breaks and URLs (which may carry subscription tokens).
use vstd::prelude::*;
use vstd::string::*;
use crate::strs::{
    blank, byte_len, char_is_control, char_is_ws, chars_byte_len, lemma_byte_len_prefix_monotone, chars_contains, chars_eq,
    chars_find_from, chars_lower, chars_sub, contains, find, from_chars, is_control, is_ws,
    lemma_find_sound, lower, occurs_at, owned, push_all, push_str, str_blank, str_eq, str_trim,
    to_chars, trim,
};

verus! {

/// The marker that stands for a line break in terminal output.
pub open spec fn newline_marker() -> Seq<char> {
    " <换行> "@
}

/// What one character becomes in terminal-safe text.
pub open spec fn safe_char(c: char) -> Seq<char> {
    if c == '\n' || c == '\r' {
        newline_marker()
    } else if c == '\t' || is_control(c) {
        seq![' ']
    } else {
        seq![c]
    }
}

/// Terminal-safe text: line breaks become a visible marker, tabs and other
/// control characters become a space.
pub open spec fn safe_text(s: Seq<char>) -> Seq<char>
    decreases s.len(),
{
    if s.len() == 0 {
        Seq::empty()
    } else {
        safe_text(s.drop_last()) + safe_char(s.last())
    }
}

pub open spec fn http_scheme() -> Seq<char> {
    seq!['h', 't', 't', 'p', ':', '/', '/']
}

pub open spec fn https_scheme() -> Seq<char> {
    seq!['h', 't', 't', 'p', 's', ':', '/', '/']
}

/// The earliest URL scheme in `s`: its position and its length.
pub open spec fn next_url(s: Seq<char>) -> Option<(int, int)> {
    match (find(s, http_scheme()), find(s, https_scheme())) {
        (Some(h), Some(hs)) => Some(if h <= hs { (h, 7) } else { (hs, 8) }),
        (Some(h), None) => Some((h, 7)),
        (None, Some(hs)) => Some((hs, 8)),
        (None, None) => None,
    }
}

/// A character that ends a URL.
pub open spec fn is_url_stop(c: char) -> bool {
    is_ws(c) || c == '"' || c == '\'' || c == ')' || c == ']' || c == '}' || c == ',' || c == ';'
}

/// The first position at or after `i` that ends a URL.
pub open spec fn find_stop(s: Seq<char>, i: int) -> Option<int>
    decreases s.len() + 1 - i,
{
    if i < 0 || i >= s.len() {
        None
    } else if is_url_stop(s[i]) {
        Some(i)
    } else {
        find_stop(s, i + 1)
    }
}

pub proof fn lemma_next_url_sound(s: Seq<char>)
    ensures
        next_url(s) matches Some((o, sl)) ==> {
            &&& (sl == 7 || sl == 8)
            &&& 0 <= o
            &&& o + sl <= s.len()
            &&& sl == 7 ==> occurs_at(s, http_scheme(), o)
            &&& sl == 8 ==> occurs_at(s, https_scheme(), o)
        },
{
    lemma_find_sound(s, http_scheme(), 0);
    lemma_find_sound(s, https_scheme(), 0);
}

pub proof fn lemma_find_stop_sound(s: Seq<char>, i: int)
    ensures
        find_stop(s, i) matches Some(e) ==> i <= e < s.len() && is_url_stop(s[e]) && (forall|
            j: int,
        | i <= j < e ==> !is_url_stop(#[trigger] s[j])),
        find_stop(s, i) is None ==> 0 <= i ==> forall|j: int| i <= j < s.len() ==> !is_url_stop(
            #[trigger] s[j],
        ),
    decreases s.len() + 1 - i,
{
    if i < 0 || i >= s.len() {
    } else if is_url_stop(s[i]) {
    } else {
        lemma_find_stop_sound(s, i + 1);
    }
}

/// Where the text after a URL resumes, given the URL at `o` with a scheme of
/// length `sl`: right after the scheme when nothing but whitespace (or
/// nothing) follows it, else after the URL.
pub open spec fn url_resume(s: Seq<char>, o: int, sl: int) -> int {
    let tail = s.skip(o + sl);
    if tail.len() == 0 || is_ws(tail[0]) {
        o + sl
    } else {
        match find_stop(tail, 0) {
            Some(e) => o + sl + e,
            None => s.len() as int,
        }
    }
}

/// `s` with every URL replaced by `r`; a bare scheme followed by whitespace
/// (or by nothing) is kept.
pub open spec fn redact(s: Seq<char>, r: Seq<char>) -> Seq<char>
    decreases s.len(),
{
    match next_url(s) {
        None => s,
        Some((o, sl)) => {
            proof {
                lemma_next_url_sound(s);
                lemma_find_stop_sound(s.skip(o + sl), 0);
            }
            let tail = s.skip(o + sl);
            if 0 <= o && 0 < sl && o + sl <= s.len() {
                if tail.len() == 0 || is_ws(tail[0]) {
                    s.take(o + sl) + redact(tail, r)
                } else {
                    s.take(o) + r + redact(s.skip(url_resume(s, o, sl)), r)
                }
            } else {
                s
            }
        },
    }
}

/// The replacement that stands for a URL in logs and status history.
pub open spec fn link_marker() -> Seq<char> {
    "[链接]"@
}

/// The replacement that stands for a URL in error messages.
pub open spec fn subscription_link_marker() -> Seq<char> {
    "[订阅链接]"@
}

/// What `sanitize_url_error` returns.
pub open spec fn sanitized(s: Seq<char>) -> Seq<char> {
    let out = redact(s, subscription_link_marker());
    if blank(out) {
        "未知错误"@
    } else {
        out
    }
}

/// What `profile_update_message_label` returns.
pub open spec fn update_message_label(s: Seq<char>) -> Seq<char> {
    if blank(s) {
        Seq::empty()
    } else {
        let t = trim(sanitized(s));
        if t == "profile updated"@ || t == "订阅已更新"@ {
            "订阅已更新"@
        } else if t == "profile updated; runtime refreshed"@ || t == "订阅已更新；运行配置已刷新"@ {
            "订阅已更新；运行配置已刷新"@
        } else if t == "profile updated; runtime refreshed; core restarted"@ || t
            == "订阅已更新；运行配置已刷新；核心已重启"@ {
            "订阅已更新；运行配置已刷新；核心已重启"@
        } else if t == "profile updated; runtime refresh needs attention"@ || t
            == "订阅已更新；运行配置刷新需要处理"@ {
            "订阅已更新；运行配置刷新需要处理"@
        } else {
            sanitized(s)
        }
    }
}

/// Text with line breaks and carriage returns removed.
pub open spec fn without_line_breaks(s: Seq<char>) -> Seq<char>
    decreases s.len(),
{
    if s.len() == 0 {
        s
    } else if s.last() == '\r' || s.last() == '\n' {
        without_line_breaks(s.drop_last())
    } else {
        without_line_breaks(s.drop_last()).push(s.last())
    }
}

fn safe_text_chars(s: &[char]) -> (out: Vec<char>)
    ensures
        out@ == safe_text(s@),
{
    let mut out: Vec<char> = Vec::new();
    let mut i: usize = 0;
    while i < s.len()
        invariant
            i <= s.len(),
            out@ == safe_text(s@.take(i as int)),
        decreases s.len() - i,
    {
        let ch = s[i];
        if ch == '\n' || ch == '\r' {
            push_str(&mut out, " <换行> ");
        } else if ch == '\t' || char_is_control(ch) {
            out.push(' ');
        } else {
            out.push(ch);
        }
        proof {
            assert(s@.take(i + 1).drop_last() =~= s@.take(i as int));
            assert(out@ =~= safe_text(s@.take(i + 1)));
        }
        i += 1;
    }
    proof {
        assert(s@.take(s.len() as int) =~= s@);
    }
    out
}

/// Makes text safe for one terminal line: `\n` and `\r` become ` <换行> `,
/// tabs and other control characters become a space.
pub fn terminal_safe_text(value: &str) -> (out: String)
    ensures
        out@ == safe_text(value@),
{
    let c = to_chars(value);
    let out = safe_text_chars(&c);
    from_chars(&out)
}

fn scheme_chars(https: bool) -> (r: Vec<char>)
    ensures
        r@ == (if https { https_scheme() } else { http_scheme() }),
{
    if https {
        vec!['h', 't', 't', 'p', 's', ':', '/', '/']
    } else {
        vec!['h', 't', 't', 'p', ':', '/', '/']
    }
}

fn next_url_chars(s: &[char]) -> (r: Option<(usize, usize)>)
    ensures
        match r {
            Some((o, sl)) => next_url(s@) == Some((o as int, sl as int)),
            None => next_url(s@) is None,
        },
{
    let http = scheme_chars(false);
    let https = scheme_chars(true);
    let h = chars_find_from(s, &http, 0);
    let hs = chars_find_from(s, &https, 0);
    match (h, hs) {
        (Some(h), Some(hs)) => Some(
            if h <= hs {
                (h, 7)
            } else {
                (hs, 8)
            },
        ),
        (Some(h), None) => Some((h, 7)),
        (None, Some(hs)) => Some((hs, 8)),
        (None, None) => None,
    }
}

/// The earliest `http://` or `https://` in the text: its byte offset and the
/// byte length of the scheme.
pub fn next_url_offset(value: &str) -> (r: Option<(usize, usize)>)
    requires
        byte_len(value@) <= usize::MAX,
    ensures
        match next_url(value@) {
            Some((o, sl)) => r == Some((byte_len(value@.take(o)) as usize, sl as usize)),
            None => r is None,
        },
{
    let c = to_chars(value);
    match next_url_chars(&c) {
        Some((o, sl)) => {
            proof {
                lemma_next_url_sound(c@);
                assert(c@.take(c@.len() as int) =~= c@);
                lemma_byte_len_prefix_monotone(c@, o as int, c@.len() as int);
            }
            Some((chars_byte_len(&c, o), sl))
        },
        None => None,
    }
}

fn find_stop_chars(s: &[char]) -> (r: Option<usize>)
    ensures
        match r {
            Some(e) => find_stop(s@, 0) == Some(e as int),
            None => find_stop(s@, 0) is None,
        },
{
    let mut i: usize = 0;
    while i < s.len()
        invariant
            i <= s.len(),
            find_stop(s@, 0) == find_stop(s@, i as int),
        decreases s.len() - i,
    {
        let c = s[i];
        if char_is_ws(c) || c == '"' || c == '\'' || c == ')' || c == ']' || c == '}' || c == ','
            || c == ';' {
            return Some(i);
        }
        i += 1;
    }
    None
}

fn redact_chars(m: &[char], rep: &[char]) -> (out: Vec<char>)
    ensures
        out@ == redact(m@, rep@),
{
    let mut out: Vec<char> = Vec::new();
    let mut rem: Vec<char> = chars_sub(m, 0, m.len());
    proof {
        assert(rem@ =~= m@);
    }
    loop
        invariant
            out@ + redact(rem@, rep@) == redact(m@, rep@),
        decreases rem.len(),
    {
        match next_url_chars(&rem) {
            None => {
                let ghost out0 = out@;
                push_all(&mut out, &rem);
                proof {
                    assert(redact(rem@, rep@) == rem@);
                }
                return out;
            },
            Some((o, sl)) => {
                proof {
                    lemma_next_url_sound(rem@);
                }
                let after = o + sl;
                let tail = chars_sub(&rem, after, rem.len());
                proof {
                    assert(tail@ =~= rem@.skip(after as int));
                }
                let ghost out0 = out@;
                if tail.len() == 0 || char_is_ws(tail[0]) {
                    let head = chars_sub(&rem, 0, after);
                    proof {
                        assert(head@ =~= rem@.take(after as int));
                        assert(redact(rem@, rep@) == head@ + redact(tail@, rep@));
                    }
                    push_all(&mut out, &head);
                    proof {
                        assert(out@ + redact(tail@, rep@) =~= out0 + (head@ + redact(tail@, rep@)));
                    }
                    rem = tail;
                } else {
                    let head = chars_sub(&rem, 0, o);
                    push_all(&mut out, &head);
                    push_all(&mut out, rep);
                    proof {
                        lemma_find_stop_sound(tail@, 0);
                    }
                    let resume = match find_stop_chars(&tail) {
                        Some(e) => after + e,
                        None => rem.len(),
                    };
                    proof {
                        lemma_find_stop_sound(tail@, 0);
                        assert(head@ =~= rem@.take(o as int));
                        assert(resume as int == url_resume(rem@, o as int, sl as int));
                    }
                    let next = chars_sub(&rem, resume, rem.len());
                    proof {
                        assert(next@ =~= rem@.skip(resume as int));
                        assert(redact(rem@, rep@) == head@ + rep@ + redact(next@, rep@));
                        assert(out@ + redact(next@, rep@) =~= out0 + (head@ + rep@ + redact(
                            next@,
                            rep@,
                        )));
                    }
                    rem = next;
                }
            },
        }
    }
}

/// Replaces every URL (`http://…`, `https://…`) in `message` with
/// `replacement`; a scheme followed by whitespace or by nothing is kept.
pub fn redact_urls(message: &str, replacement: &str) -> (out: String)
    ensures
        out@ == redact(message@, replacement@),
{
    let m = to_chars(message);
    let r = to_chars(replacement);
    let out = redact_chars(&m, &r);
    from_chars(&out)
}

/// URLs replaced by `[链接]`, then made terminal-safe.
pub fn terminal_safe_log_text(value: &str) -> (out: String)
    ensures
        out@ == safe_text(redact(value@, link_marker())),
{
    let red = redact_urls(value, "[链接]");
    terminal_safe_text(red.as_str())
}

/// The form in which a status message is kept in the status history.
pub fn status_history_text(value: &str) -> (out: String)
    ensures
        out@ == safe_text(redact(value@, link_marker())),
{
    let red = redact_urls(value, "[链接]");
    terminal_safe_text(red.as_str())
}

/// URLs replaced by `[订阅链接]`; a message that is blank afterwards
/// becomes `未知错误`.
pub fn sanitize_url_error(message: &str) -> (out: String)
    ensures
        out@ == sanitized(message@),
{
    let output = redact_urls(message, "[订阅链接]");
    if str_blank(output.as_str()) {
        owned("未知错误")
    } else {
        output
    }
}

fn chars_eq_str(a: &[char], lit: &str) -> (r: bool)
    ensures
        r == (a@ == lit@),
{
    let b = to_chars(lit);
    chars_eq(a, &b)
}

/// The user-facing label of a profile-update job message: known English and
/// Chinese outcomes map to one Chinese wording, anything else is sanitized.
pub fn profile_update_message_label(message: &str) -> (out: String)
    ensures
        out@ == update_message_label(message@),
{
    if str_blank(message) {
        return String::new();
    }
    let sanitized = sanitize_url_error(message);
    let t = str_trim(sanitized.as_str());
    if chars_eq_str(&t, "profile updated") || chars_eq_str(&t, "订阅已更新") {
        owned("订阅已更新")
    } else if chars_eq_str(&t, "profile updated; runtime refreshed") || chars_eq_str(
        &t,
        "订阅已更新；运行配置已刷新",
    ) {
        owned("订阅已更新；运行配置已刷新")
    } else if chars_eq_str(&t, "profile updated; runtime refreshed; core restarted")
        || chars_eq_str(&t, "订阅已更新；运行配置已刷新；核心已重启") {
        owned("订阅已更新；运行配置已刷新；核心已重启")
    } else if chars_eq_str(&t, "profile updated; runtime refresh needs attention")
        || chars_eq_str(&t, "订阅已更新；运行配置刷新需要处理") {
        owned("订阅已更新；运行配置刷新需要处理")
    } else {
        sanitized
    }
}

/// Pasted text with `\r` and `\n` removed.
pub fn normalize_pasted_text(value: &str) -> (out: String)
    ensures
        out@ == without_line_breaks(value@),
{
    let c = to_chars(value);
    let mut out: Vec<char> = Vec::new();
    let mut i: usize = 0;
    while i < c.len()
        invariant
            i <= c.len(),
            out@ == without_line_breaks(c@.take(i as int)),
        decreases c.len() - i,
    {
        let ch = c[i];
        proof {
            assert(c@.take(i + 1).drop_last() =~= c@.take(i as int));
        }
        if ch != '\r' && ch != '\n' {
            out.push(ch);
        }
        i += 1;
    }
    proof {
        assert(c@.take(c.len() as int) =~= c@);
    }
    from_chars(&out)
}

/// What `url::Url::parse` makes of a text: `None` when it is no URL, else
/// the scheme and whether the URL has a host.
pub uninterp spec fn url_parts(value: Seq<char>) -> Option<(Seq<char>, bool)>;

/// Calls `url::Url::parse` and reports the parsed URL's `scheme()` and
/// whether `host_str()` is present. The contract only names the outcome; it
/// claims nothing of how the URL grammar is applied.
#[verifier::external_body]
fn parse_url(value: &str) -> (r: Option<(String, bool)>)
    ensures
        match r {
            Some((scheme, host)) => url_parts(value@) == Some((scheme@, host)),
            None => url_parts(value@) is None,
        },
{
    match url::Url::parse(value) {
        Ok(url) => Some((url.scheme().to_owned(), url.host_str().is_some())),
        Err(_) => None,
    }
}

/// The error message for a parsed subscription URL, `None` when it is accepted.
pub open spec fn url_verdict(parts: Option<(Seq<char>, bool)>) -> Option<Seq<char>> {
    match parts {
        None => Some("订阅链接格式不正确"@),
        Some((scheme, host)) => if scheme != "http"@ && scheme != "https"@ {
            Some("订阅链接必须以 http:// 或 https:// 开头"@)
        } else if !host {
            Some("订阅链接缺少主机名"@)
        } else {
            None
        },
    }
}

/// Decides a parsed subscription URL: it must be `http`/`https` with a host.
pub fn subscription_url_verdict(parsed: &Option<(String, bool)>) -> (r: Result<(), String>)
    ensures
        match parsed {
            None => r matches Err(e) && e@ == "订阅链接格式不正确"@,
            Some((scheme, host)) => match url_verdict(Some((scheme@, *host))) {
                None => r is Ok,
                Some(m) => r matches Err(e) && e@ == m,
            },
        },
{
    match parsed {
        None => Err(owned("订阅链接格式不正确")),
        Some((scheme, host)) => {
            if !str_eq(scheme.as_str(), "http") && !str_eq(scheme.as_str(), "https") {
                Err(owned("订阅链接必须以 http:// 或 https:// 开头"))
            } else if !*host {
                Err(owned("订阅链接缺少主机名"))
            } else {
                Ok(())
            }
        },
    }
}

/// Checks that a subscription link parses as an `http`/`https` URL with a host.
pub fn validate_subscription_url(value: &str) -> (r: Result<(), String>)
    ensures
        match url_verdict(url_parts(value@)) {
            None => r is Ok,
            Some(m) => r matches Err(e) && e@ == m,
        },
{
    let parsed = parse_url(value);
    subscription_url_verdict(&parsed)
}

/// The trimmed pasted text when it is a valid subscription URL.
pub fn pasted_subscription_url(value: &str) -> (r: Option<String>)
    ensures
        match r {
            Some(u) => u@ == trim(value@) && url_verdict(url_parts(trim(value@))) is None,
            None => url_verdict(url_parts(trim(value@))) is Some,
        },
{
    let t = str_trim(value);
    let ts = from_chars(&t);
    match validate_subscription_url(ts.as_str()) {
        Ok(()) => Some(ts),
        Err(_) => None,
    }
}

/// One of the ways a log line can carry level `level` (in lower case).
pub open spec fn has_level_marker(log: Seq<char>, level: Seq<char>) -> bool {
    ||| contains(log, "level="@ + level)
    ||| contains(log, "["@ + level + "]"@)
    ||| contains(log, level + ":"@)
    ||| contains(log, " "@ + level + " "@)
}

/// Whether the log line (case-insensitively) carries one of `levels`.
pub open spec fn log_has_level_spec(log: Seq<char>, levels: Seq<Seq<char>>) -> bool {
    exists|i: int| 0 <= i < levels.len() && has_level_marker(lower(log), #[trigger] levels[i])
}

fn level_marker_present(log: &[char], level: &str) -> (b: bool)
    ensures
        b == has_level_marker(log@, level@),
{
    let mut a: Vec<char> = Vec::new();
    push_str(&mut a, "level=");
    push_str(&mut a, level);
    let mut b: Vec<char> = Vec::new();
    push_str(&mut b, "[");
    push_str(&mut b, level);
    push_str(&mut b, "]");
    let mut c: Vec<char> = Vec::new();
    push_str(&mut c, level);
    push_str(&mut c, ":");
    let mut d: Vec<char> = Vec::new();
    push_str(&mut d, " ");
    push_str(&mut d, level);
    push_str(&mut d, " ");
    proof {
        assert(a@ =~= "level="@ + level@);
        assert(b@ =~= "["@ + level@ + "]"@);
        assert(c@ =~= level@ + ":"@);
        assert(d@ =~= " "@ + level@ + " "@);
    }
    chars_contains(log, &a) || chars_contains(log, &b) || chars_contains(log, &c) || chars_contains(
        log,
        &d,
    )
}

/// Whether a log line names one of the given levels, ignoring ASCII case of
/// the line.
pub fn log_has_level(log: &str, levels: &[&str]) -> (b: bool)
    ensures
        b == log_has_level_spec(log@, levels@.map_values(|l: &str| l@)),
{
    let c = to_chars(log);
    let low = chars_lower(&c);
    let ghost lv = levels@.map_values(|l: &str| l@);
    let mut i: usize = 0;
    while i < levels.len()
        invariant
            i <= levels.len(),
            low@ == lower(log@),
            lv == levels@.map_values(|l: &str| l@),
            forall|j: int| 0 <= j < i ==> !has_level_marker(lower(log@), #[trigger] lv[j]),
        decreases levels.len() - i,
    {
        if level_marker_present(&low, levels[i]) {
            proof {
                assert(has_level_marker(lower(log@), lv[i as int]));
            }
            return true;
        }
        i += 1;
    }
    false
}

} // verus!
