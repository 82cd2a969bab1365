//! Values shown on the dashboard: the terminal in use, switch markers,
//! transfer speeds, how long ago a profile was updated, list positions.
use vstd::prelude::*;
use vstd::string::*;
use crate::labels::{ceil_div, lemma_ceil_unique};
use crate::provider_dialog::{bytes_text, format_bytes};
use crate::strs::{blank, dec, from_chars, join, owned, push_dec, push_str, str_blank, to_chars, copy_string, join_strings, views};
use crate::selection::{index_position, lemma_position_sound, position};
use crate::models::KernelState;
use crate::labels::{kernel_state_label, kernel_state_text};
use crate::state::{ProfileEntry, TuiApp};

verus! {

/// The environment variables that describe the terminal, as read (an unset
/// variable is `None`).
#[derive(Debug, Clone, PartialEq, Eq)]
pub struct TerminalEnv {
    pub term: Option<String>,
    pub term_program: Option<String>,
    pub term_program_version: Option<String>,
    pub wt_session: Option<String>,
    pub konsole_version: Option<String>,
    pub vte_version: Option<String>,
    pub ssh_tty: Option<String>,
    pub ssh_connection: Option<String>,
    pub tmux: Option<String>,
    pub sty: Option<String>,
    pub colorterm: Option<String>,
}

/// A variable counts only when it is set and not blank.
pub open spec fn env_text(v: Option<String>) -> Option<Seq<char>> {
    match v {
        Some(s) => if blank(s@) {
            None
        } else {
            Some(s@)
        },
        None => None,
    }
}

fn env_value(v: &Option<String>) -> (r: Option<String>)
    ensures
        match r {
            Some(s) => env_text(*v) == Some(s@),
            None => env_text(*v) is None,
        },
{
    match v {
        Some(s) => if str_blank(s.as_str()) {
            None
        } else {
            Some(copy_string(s))
        },
        None => None,
    }
}

/// The terminal program: `TERM_PROGRAM` with its version, else a terminal
/// recognised by its own variable.
pub open spec fn program_text(env: TerminalEnv) -> Option<Seq<char>> {
    match env_text(env.term_program) {
        Some(p) => Some(
            match env_text(env.term_program_version) {
                Some(v) => p + " "@ + v,
                None => p,
            },
        ),
        None => if env_text(env.wt_session) is Some {
            Some("Windows Terminal"@)
        } else if env_text(env.konsole_version) is Some {
            Some("Konsole"@)
        } else if env_text(env.vte_version) is Some {
            Some("VTE"@)
        } else {
            None
        },
    }
}

/// Names the terminal program from the environment.
pub fn terminal_program_label(env: &TerminalEnv) -> (r: Option<String>)
    ensures
        match r {
            Some(s) => program_text(*env) == Some(s@),
            None => program_text(*env) is None,
        },
{
    if let Some(program) = env_value(&env.term_program) {
        return Some(
            match env_value(&env.term_program_version) {
                Some(version) => {
                    let mut v = to_chars(program.as_str());
                    push_str(&mut v, " ");
                    push_str(&mut v, version.as_str());
                    from_chars(&v)
                },
                None => program,
            },
        );
    }
    if env_value(&env.wt_session).is_some() {
        return Some(owned("Windows Terminal"));
    }
    if env_value(&env.konsole_version).is_some() {
        return Some(owned("Konsole"));
    }
    if env_value(&env.vte_version).is_some() {
        return Some(owned("VTE"));
    }
    None
}

/// The parts of the terminal description: program and `TERM` (or either
/// alone, or `未知`), then SSH, tmux, screen and the colour support.
pub open spec fn terminal_parts(env: TerminalEnv) -> Seq<Seq<char>> {
    let first: Seq<Seq<char>> = match program_text(env) {
        Some(p) => match env_text(env.term) {
            Some(t) => seq![p, t],
            None => seq![p],
        },
        None => match env_text(env.term) {
            Some(t) => seq![t],
            None => seq!["未知"@],
        },
    };
    let ssh: Seq<Seq<char>> = if env_text(env.ssh_tty) is Some || env_text(env.ssh_connection) is Some {
        seq!["SSH"@]
    } else {
        seq![]
    };
    let tmux: Seq<Seq<char>> = if env_text(env.tmux) is Some {
        seq!["tmux"@]
    } else {
        seq![]
    };
    let screen: Seq<Seq<char>> = if env_text(env.sty) is Some {
        seq!["screen"@]
    } else {
        seq![]
    };
    let color: Seq<Seq<char>> = match env_text(env.colorterm) {
        Some(c) => seq![c],
        None => seq![],
    };
    first + ssh + tmux + screen + color
}

/// Describes the terminal from its environment, parts joined by ` / `.
pub fn terminal_type_label(env: &TerminalEnv) -> (r: String)
    ensures
        r@ == join(terminal_parts(*env), " / "@),
{
    let term = env_value(&env.term);
    let mut parts: Vec<String> = Vec::new();
    if let Some(program) = terminal_program_label(env) {
        parts.push(program);
        if let Some(t) = term {
            parts.push(t);
        }
    } else if let Some(t) = term {
        parts.push(t);
    } else {
        parts.push(owned("未知"));
    }
    if env_value(&env.ssh_tty).is_some() || env_value(&env.ssh_connection).is_some() {
        parts.push(owned("SSH"));
    }
    if env_value(&env.tmux).is_some() {
        parts.push(owned("tmux"));
    }
    if env_value(&env.sty).is_some() {
        parts.push(owned("screen"));
    }
    if let Some(color) = env_value(&env.colorterm) {
        parts.push(color);
    }
    proof {
        assert(views(parts@) =~= terminal_parts(*env));
    }
    join_strings(&parts, " / ")
}

/// A switch state in brackets.
pub fn bracket_bool(enabled: bool) -> (r: &'static str)
    ensures
        r@ == (if enabled { "[开启]"@ } else { "[关闭]"@ }),
{
    if enabled {
        "[开启]"
    } else {
        "[关闭]"
    }
}

/// A transfer speed: bytes per second, or `-` when unknown.
pub fn format_speed(value: Option<u64>) -> (r: String)
    ensures
        r@ == (match value {
            Some(b) => bytes_text(b as nat) + "/s"@,
            None => "-"@,
        }),
{
    match value {
        Some(b) => {
            let mut v = to_chars(format_bytes(b).as_str());
            push_str(&mut v, "/s");
            from_chars(&v)
        },
        None => owned("-"),
    }
}

/// How long ago a profile was updated, seen at `now`: `刚刚` within a
/// minute (or for a time in the future), else minutes, hours or days,
/// each rounded up.
pub open spec fn updated_text(updated: Option<usize>, now: nat) -> Seq<char> {
    match updated {
        None => "未更新"@,
        Some(u) => if u > now {
            "刚刚"@
        } else {
            let elapsed = (now - u) as nat;
            if elapsed <= 59 {
                "刚刚"@
            } else if elapsed <= 3599 {
                dec(ceil_div(elapsed, 60)) + "分钟前"@
            } else if elapsed <= 86399 {
                dec(ceil_div(elapsed, 3600)) + "小时前"@
            } else {
                dec(ceil_div(elapsed, 86400)) + "天前"@
            }
        },
    }
}

/// How long ago a profile was updated, in whole units rounded up: under a
/// minute (or in the future) it reads 刚刚; under an hour the number of
/// minutes `m` with `(m - 1) * 60 < elapsed <= m * 60`; under a day the
/// number of hours `h` with `(h - 1) * 3600 < elapsed <= h * 3600` (so 1 to
/// 24); beyond, the number of days likewise. Never updated reads 未更新.
pub proof fn law_updated_label_units(u: nat, now: nat, n: nat)
    ensures
        u > now || now - u <= 59 ==> updated_text(Some(u as usize), now) == "刚刚"@ || u > usize::MAX,
        updated_text(None, now) == "未更新"@,
        ({
            let e = now - u;
            &&& u <= usize::MAX && u <= now && 60 <= e <= 3599 && (n - 1) * 60 < e <= n * 60
                ==> updated_text(Some(u as usize), now) == dec(n) + "分钟前"@ && 1 <= n <= 60
            &&& u <= usize::MAX && u <= now && 3600 <= e <= 86399 && (n - 1) * 3600 < e <= n * 3600
                ==> updated_text(Some(u as usize), now) == dec(n) + "小时前"@ && 1 <= n <= 24
            &&& u <= usize::MAX && u <= now && 86400 <= e && (n - 1) * 86400 < e <= n * 86400
                ==> updated_text(Some(u as usize), now) == dec(n) + "天前"@ && n >= 1
        }),
{
    if u <= usize::MAX && u <= now {
        let e = (now - u) as nat;
        lemma_ceil_unique(e, 60, n);
        lemma_ceil_unique(e, 3600, n);
        lemma_ceil_unique(e, 86400, n);
    }
}


fn div_ceil(n: u64, d: u64) -> (r: u64)
    requires
        d >= 2,
    ensures
        r as nat == ceil_div(n as nat, d as nat),
{
    let q = n / d;
    assert(q < u64::MAX) by (nonlinear_arith)
        requires
            q == n / d,
            d >= 2,
            n <= u64::MAX,
    ;
    let r = if n % d == 0 {
        q
    } else {
        q + 1
    };
    proof {
        assert(r as nat == ceil_div(n as nat, d as nat)) by (nonlinear_arith)
            requires
                d > 0,
                q == n / d,
                r == (if n % d == 0 {
                    q as int
                } else {
                    q + 1
                }),
        ;
    }
    r
}

/// How long ago a profile was updated.
pub fn updated_label(updated: Option<usize>, now_secs: u64) -> (r: String)
    ensures
        r@ == updated_text(updated, now_secs as nat),
{
    let u = match updated {
        None => {
            return owned("未更新");
        },
        Some(u) => u as u64,
    };
    if u > now_secs {
        return owned("刚刚");
    }
    let elapsed = now_secs - u;
    let mut v: Vec<char> = Vec::new();
    if elapsed <= 59 {
        return owned("刚刚");
    } else if elapsed <= 3599 {
        push_dec(&mut v, div_ceil(elapsed, 60));
        push_str(&mut v, "分钟前");
    } else if elapsed <= 86399 {
        push_dec(&mut v, div_ceil(elapsed, 3600));
        push_str(&mut v, "小时前");
    } else {
        push_dec(&mut v, div_ceil(elapsed, 86400));
        push_str(&mut v, "天前");
    }
    from_chars(&v)
}

/// The 1-based position of the selected index in the list, 0 when absent.
pub fn selected_position(indices: &[usize], selected: usize) -> (r: usize)
    ensures
        r == (match position(indices@, selected) {
            Some(i) => i + 1,
            None => 0,
        }),
{
    proof {
        lemma_position_sound(indices@, selected, 0);
    }
    let n = indices.len();
    match index_position(indices, selected) {
        Some(i) => {
            assert(i < n);
            i + 1
        },
        None => 0,
    }
}

/// What the dashboard shows of the core: its version, process id and state.
#[derive(Debug, Clone, PartialEq, Eq)]
pub struct CoreSnapshot {
    pub version: Option<String>,
    pub pid: Option<u32>,
    pub state: KernelState,
}

/// The core line of the dashboard, `<version> / PID <pid>`, and its
/// state; before the first refresh both say so.
pub fn core_summary(snapshot: Option<&CoreSnapshot>) -> (r: (String, String))
    ensures
        match snapshot {
            None => r.0@ == "Mihomo Meta 未刷新 / PID -"@ && r.1@ == "未刷新"@,
            Some(s) => {
                &&& r.0@ == (match s.version {
                    Some(v) => v@,
                    None => "未知版本"@,
                }) + " / PID "@ + (match s.pid {
                    Some(p) => dec(p as nat),
                    None => "-"@,
                })
                &&& r.1@ == kernel_state_text(s.state)
            },
        },
{
    match snapshot {
        None => (owned("Mihomo Meta 未刷新 / PID -"), owned("未刷新")),
        Some(s) => {
            let mut v = match &s.version {
                Some(version) => to_chars(version.as_str()),
                None => to_chars("未知版本"),
            };
            push_str(&mut v, " / PID ");
            match s.pid {
                Some(pid) => push_dec(&mut v, pid as u64),
                None => push_str(&mut v, "-"),
            }
            (from_chars(&v), owned(kernel_state_label(s.state)))
        },
    }
}

/// The traffic line of a subscription: used (upload plus download, kept
/// within `u64`) over the total, the total unknown when it is zero.
pub fn usage_summary(upload: u64, download: u64, total: u64) -> (r: String)
    ensures
        r@ == "已用 "@ + bytes_text(if upload + download > u64::MAX {
            u64::MAX as nat
        } else {
            (upload + download) as nat
        }) + " / 总量 "@ + (if total > 0 {
            bytes_text(total as nat)
        } else {
            "未知"@
        }),
{
    let used = upload.saturating_add(download);
    let mut v = to_chars("已用 ");
    let u = format_bytes(used);
    push_str(&mut v, u.as_str());
    push_str(&mut v, " / 总量 ");
    if total > 0 {
        let t = format_bytes(total);
        push_str(&mut v, t.as_str());
    } else {
        push_str(&mut v, "未知");
    }
    from_chars(&v)
}

/// The profile has the given uid.
pub open spec fn uid_is(p: ProfileEntry, uid: Seq<char>) -> bool {
    match p.uid {
        Some(u) => u@ == uid,
        None => false,
    }
}

impl TuiApp {
    /// The row of the profile in use: the first whose uid is the current one.
    pub fn current_profile_position(&self) -> (r: Option<usize>)
        ensures
            match (r, self.profiles_current) {
                (Some(i), Some(c)) => i < self.profiles@.len() && uid_is(self.profiles@[i as int], c@) && forall|j: int|
                    0 <= j < i ==> !uid_is(#[trigger] self.profiles@[j], c@),
                (Some(_), None) => false,
                (None, Some(c)) => forall|j: int| 0 <= j < self.profiles@.len() ==> !uid_is(#[trigger] self.profiles@[j], c@),
                (None, None) => true,
            },
    {
        let current = match &self.profiles_current {
            Some(c) => c,
            None => {
                return None;
            },
        };
        let mut i: usize = 0;
        while i < self.profiles.len()
            invariant
                i <= self.profiles.len(),
                self.profiles_current == Some(*current),
                forall|j: int| 0 <= j < i ==> !uid_is(#[trigger] self.profiles@[j], current@),
            decreases self.profiles.len() - i,
        {
            let hit = match &self.profiles[i].uid {
                Some(u) => crate::strs::str_eq(u.as_str(), current.as_str()),
                None => false,
            };
            if hit {
                return Some(i);
            }
            i += 1;
        }
        None
    }
}

} // verus!
