//! The interactive state of the terminal client and the state changes
//! that need no outside work: status messages and their history, paging,
//! overlays, and the cursors on every list.
use vstd::prelude::*;
use vstd::view::View as _;
use crate::strs::{blank, dec, from_chars, owned, push_str, push_usize, str_blank, str_eq};
use crate::text::{link_marker, redact, safe_text, status_history_text};
use crate::models::{
    ConfirmAction, DashboardProxyPopup, InputState, JobRecord, LogLevelFilter, Mode, ProviderDialogKind,
    ProxyGroupRow, ProxyNodeMeta, ProxyNodeSort, ProxyPane, ProxyProviderRow, RuleProviderRow, View,
    STATUS_HISTORY_LIMIT,
};
use crate::labels::SettingsSummary;
use crate::profiles::SubscriptionStatus;
use crate::details::ConnectionRecord;
use crate::diagnose::DiagnoseReport;

verus! {

/// A question that waits for `y` or `n`.
#[derive(Debug, Clone, PartialEq, Eq)]
pub struct ConfirmState {
    pub prompt: String,
    pub action: ConfirmAction,
}

/// Work in progress, shown until it ends.
#[derive(Debug, Clone, PartialEq, Eq)]
pub struct BusyState {
    pub message: String,
}

/// A full-screen text pane.
#[derive(Debug, Clone, PartialEq, Eq)]
pub struct DetailState {
    pub title: String,
    pub lines: Vec<String>,
}

/// A proxy-group choice stored with a profile.
#[derive(Debug, Clone, PartialEq, Eq)]
pub struct ProfileSelection {
    pub name: Option<String>,
    pub now: Option<String>,
}

/// A profile of the profile list.
#[derive(Debug, Clone, Default, PartialEq, Eq)]
pub struct ProfileEntry {
    pub uid: Option<String>,
    pub itype: Option<String>,
    pub name: Option<String>,
    pub desc: Option<String>,
    pub selected: Option<Vec<ProfileSelection>>,
}

/// The profile list and which profile is in use.
#[derive(Debug, Clone, PartialEq, Eq)]
pub struct ProfileCatalog {
    pub current: Option<String>,
    pub items: Option<Vec<ProfileEntry>>,
}

/// A routing rule of the core.
#[derive(Debug, Clone, Default, PartialEq, Eq)]
pub struct RuleEntry {
    pub rule_type: Option<String>,
    pub payload: Option<String>,
    pub proxy: Option<String>,
}

/// Everything the client shows and remembers between frames.
///
/// The `*_user_selected` flags record that the user moved a proxy cursor
/// by hand; from then on a refresh keeps the remembered choice.
/// `last_refresh` and `status_pinned_until` are instants in milliseconds
/// of the caller's clock.
#[derive(Debug, Clone)]
pub struct TuiApp {
    pub view: View,
    pub status: String,
    pub controller_status: String,
    pub profiles: Vec<ProfileEntry>,
    pub profiles_current: Option<String>,
    pub profile_index: usize,
    pub proxy_groups: Vec<ProxyGroupRow>,
    pub proxy_group_index: usize,
    pub proxy_node_index: usize,
    pub proxy_node_meta: Vec<(String, ProxyNodeMeta)>,
    pub proxy_providers: Vec<ProxyProviderRow>,
    pub proxy_provider_index: usize,
    pub rule_providers: Vec<RuleProviderRow>,
    pub rule_provider_index: usize,
    pub provider_dialog: Option<ProviderDialogKind>,
    pub provider_operation_feedback: Vec<(String, String)>,
    pub proxy_group_selection_key: Option<String>,
    pub proxy_node_selection_key: Option<String>,
    pub proxy_provider_selection_key: Option<String>,
    pub rule_provider_selection_key: Option<String>,
    pub proxy_user_selected: bool,
    pub proxy_pane: ProxyPane,
    pub proxy_node_sort: ProxyNodeSort,
    pub dashboard_proxy_popup: DashboardProxyPopup,
    pub dashboard_proxy_group_index: usize,
    pub dashboard_proxy_node_index: usize,
    pub dashboard_proxy_group_selection_key: Option<String>,
    pub dashboard_proxy_node_selection_key: Option<String>,
    pub dashboard_proxy_user_selected: bool,
    pub mode: Option<Mode>,
    pub rules: Vec<RuleEntry>,
    pub rule_index: usize,
    pub connections: Vec<ConnectionRecord>,
    pub connection_index: usize,
    pub logs: Vec<String>,
    pub log_index: usize,
    pub log_follow: bool,
    pub log_level_filter: LogLevelFilter,
    pub settings: Option<SettingsSummary>,
    /// The subscription scheduler and the profiles' update state, once a
    /// refresh has read them.
    pub subscription_status: Option<SubscriptionStatus>,
    pub setting_index: usize,
    pub jobs: Vec<JobRecord>,
    pub job_index: usize,
    pub diagnose_report: Option<DiagnoseReport>,
    pub profile_query: String,
    pub proxy_query: String,
    pub rule_query: String,
    pub connection_query: String,
    pub log_query: String,
    pub job_query: String,
    pub input: Option<InputState>,
    pub confirm: Option<ConfirmState>,
    pub busy: Option<BusyState>,
    pub detail: Option<DetailState>,
    pub status_history: Vec<String>,
    pub show_help: bool,
    pub last_refresh: Option<u64>,
    pub status_pinned_until: Option<u64>,
}

/// How long an important status stays pinned, in milliseconds.
pub const IMPORTANT_STATUS_PIN_MILLIS: u64 = 8000;

/// The form of a message in the history.
pub open spec fn history_form(m: Seq<char>) -> Seq<char> {
    safe_text(redact(m, link_marker()))
}

/// The history after recording a message: blank messages and repeats of
/// the newest entry are dropped, and only the newest
/// `STATUS_HISTORY_LIMIT` entries stay.
pub open spec fn recorded(h: Seq<Seq<char>>, m: Seq<char>) -> Seq<Seq<char>> {
    let t = history_form(m);
    if blank(t) {
        h
    } else if h.len() > 0 && h.last() == t {
        h
    } else {
        let p = h.push(t);
        if p.len() > STATUS_HISTORY_LIMIT {
            p.skip(p.len() - STATUS_HISTORY_LIMIT)
        } else {
            p
        }
    }
}

pub open spec fn history_view(h: Vec<String>) -> Seq<Seq<char>> {
    h@.map_values(|s: String| s@)
}

/// The state of a client that has just started.
pub open spec fn is_fresh(app: TuiApp) -> bool {
    &&& app.view == View::Dashboard
    &&& app.status@ == "就绪"@
    &&& app.controller_status@ == "控制器：尚未刷新"@
    &&& app.profiles@.len() == 0
    &&& app.profiles_current is None
    &&& app.profile_index == 0
    &&& app.proxy_groups@.len() == 0
    &&& app.proxy_group_index == 0
    &&& app.proxy_node_index == 0
    &&& app.proxy_node_meta@.len() == 0
    &&& app.proxy_providers@.len() == 0
    &&& app.proxy_provider_index == 0
    &&& app.rule_providers@.len() == 0
    &&& app.rule_provider_index == 0
    &&& app.provider_dialog is None
    &&& app.provider_operation_feedback@.len() == 0
    &&& app.proxy_group_selection_key is None
    &&& app.proxy_node_selection_key is None
    &&& app.proxy_provider_selection_key is None
    &&& app.rule_provider_selection_key is None
    &&& !app.proxy_user_selected
    &&& app.proxy_pane == ProxyPane::Groups
    &&& app.proxy_node_sort == ProxyNodeSort::Subscription
    &&& app.dashboard_proxy_popup == DashboardProxyPopup::Closed
    &&& app.dashboard_proxy_group_index == 0
    &&& app.dashboard_proxy_node_index == 0
    &&& app.dashboard_proxy_group_selection_key is None
    &&& app.dashboard_proxy_node_selection_key is None
    &&& !app.dashboard_proxy_user_selected
    &&& app.mode is None
    &&& app.rules@.len() == 0
    &&& app.rule_index == 0
    &&& app.connections@.len() == 0
    &&& app.connection_index == 0
    &&& app.logs@.len() == 0
    &&& app.log_index == 0
    &&& app.log_follow
    &&& app.log_level_filter == LogLevelFilter::All
    &&& app.settings is None
    &&& app.subscription_status is None
    &&& app.setting_index == 0
    &&& app.jobs@.len() == 0
    &&& app.job_index == 0
    &&& app.diagnose_report is None
    &&& app.profile_query@.len() == 0
    &&& app.proxy_query@.len() == 0
    &&& app.rule_query@.len() == 0
    &&& app.connection_query@.len() == 0
    &&& app.log_query@.len() == 0
    &&& app.job_query@.len() == 0
    &&& app.input is None
    &&& app.confirm is None
    &&& app.busy is None
    &&& app.detail is None
    &&& app.status_history@.len() == 0
    &&& !app.show_help
    &&& app.last_refresh is None
    &&& app.status_pinned_until is None
}

impl TuiApp {
    /// The state of a client that has just started.
    pub fn new() -> (app: TuiApp)
        ensures
            is_fresh(app),
    {
        TuiApp {
            view: View::Dashboard,
            status: owned("就绪"),
            controller_status: owned("控制器：尚未刷新"),
            profiles: Vec::new(),
            profiles_current: None,
            profile_index: 0,
            proxy_groups: Vec::new(),
            proxy_group_index: 0,
            proxy_node_index: 0,
            proxy_node_meta: Vec::new(),
            proxy_providers: Vec::new(),
            proxy_provider_index: 0,
            rule_providers: Vec::new(),
            rule_provider_index: 0,
            provider_dialog: None,
            provider_operation_feedback: Vec::new(),
            proxy_group_selection_key: None,
            proxy_node_selection_key: None,
            proxy_provider_selection_key: None,
            rule_provider_selection_key: None,
            proxy_user_selected: false,
            proxy_pane: ProxyPane::Groups,
            proxy_node_sort: ProxyNodeSort::Subscription,
            dashboard_proxy_popup: DashboardProxyPopup::Closed,
            dashboard_proxy_group_index: 0,
            dashboard_proxy_node_index: 0,
            dashboard_proxy_group_selection_key: None,
            dashboard_proxy_node_selection_key: None,
            dashboard_proxy_user_selected: false,
            mode: None,
            rules: Vec::new(),
            rule_index: 0,
            connections: Vec::new(),
            connection_index: 0,
            logs: Vec::new(),
            log_index: 0,
            log_follow: true,
            log_level_filter: LogLevelFilter::All,
            settings: None,
            subscription_status: None,
            setting_index: 0,
            jobs: Vec::new(),
            job_index: 0,
            diagnose_report: None,
            profile_query: String::new(),
            proxy_query: String::new(),
            rule_query: String::new(),
            connection_query: String::new(),
            log_query: String::new(),
            job_query: String::new(),
            input: None,
            confirm: None,
            busy: None,
            detail: None,
            status_history: Vec::new(),
            show_help: false,
            last_refresh: None,
            status_pinned_until: None,
        }
    }

    /// Records a message in the status history.
    pub fn record_status(&mut self, message: &str)
        ensures
            history_view(final(self).status_history) == recorded(history_view(old(self).status_history), message@),
            *final(self) == (TuiApp { status_history: final(self).status_history, ..*old(self) }),
    {
        let text = status_history_text(message);
        if str_blank(text.as_str()) {
            return;
        }
        let n = self.status_history.len();
        if n > 0 && str_eq(self.status_history[n - 1].as_str(), text.as_str()) {
            return;
        }
        let ghost h = history_view(self.status_history);
        self.status_history.push(text);
        assert(history_view(self.status_history) =~= h.push(history_form(message@)));
        assert(h.push(history_form(message@)).skip(0) =~= h.push(history_form(message@)));
        while self.status_history.len() > STATUS_HISTORY_LIMIT
            invariant
                *self == (TuiApp { status_history: self.status_history, ..*old(self) }),
                h == history_view(old(self).status_history),
                ({
                    let p = h.push(history_form(message@));
                    p.len() >= history_view(self.status_history).len()
                    && history_view(self.status_history) == p.skip(p.len() - history_view(self.status_history).len())
                    && (history_view(self.status_history).len() >= STATUS_HISTORY_LIMIT
                        || history_view(self.status_history).len() == p.len())
                }),
            decreases self.status_history.len(),
        {
            let ghost before = history_view(self.status_history);
            self.status_history.remove(0);
            assert(history_view(self.status_history) =~= before.skip(1));
        }
    }
}


/// Two-digit, zero-padded number.
pub open spec fn pad2(n: nat) -> Seq<char> {
    if n < 10 {
        "0"@ + dec(n)
    } else {
        dec(n)
    }
}

/// The lines of the message history pane: the current status, then the
/// history newest first.
pub open spec fn history_pane_lines(current: Seq<char>, h: Seq<Seq<char>>) -> Seq<Seq<char>> {
    let head = seq!["当前状态："@ + history_form(current), Seq::<char>::empty()];
    if h.len() == 0 {
        head.push("暂无历史消息"@)
    } else {
        head.push("最近消息（最多 "@ + dec(STATUS_HISTORY_LIMIT as nat) + " 条，最新在前）："@)
            + Seq::new(h.len(), |i: int| pad2((i + 1) as nat) + ". "@ + h[h.len() - 1 - i])
    }
}

/// No entry equals the one after it.
pub open spec fn no_adjacent_repeats(h: Seq<Seq<char>>) -> bool {
    forall|i: int, j: int| 0 <= i && j == i + 1 && j < h.len() ==> #[trigger] h[i] != #[trigger] h[j]
}

/// Recording keeps the history within its limit, puts a non-blank message
/// last, and never stores the same message twice in a row.
pub proof fn law_history_bounded(h: Seq<Seq<char>>, m: Seq<char>)
    requires
        h.len() <= STATUS_HISTORY_LIMIT,
        no_adjacent_repeats(h),
    ensures
        recorded(h, m).len() <= STATUS_HISTORY_LIMIT,
        !blank(history_form(m)) ==> recorded(h, m).last() == history_form(m),
        no_adjacent_repeats(recorded(h, m)),
{
    let t = history_form(m);
    if !blank(t) && !(h.len() > 0 && h.last() == t) {
        let p = h.push(t);
        let r = recorded(h, m);
        assert forall|i: int, j: int| 0 <= i && j == i + 1 && j < r.len() implies #[trigger] r[i] != #[trigger] r[j] by {
            let off = p.len() - r.len();
            assert(r[i] == p[i + off]);
            assert(r[j] == p[j + off]);
            if j + off < h.len() {
                assert(p[i + off] == h[i + off]);
                assert(p[j + off] == h[j + off]);
            }
        }
    }
}

fn pad2_string(n: usize) -> (r: String)
    ensures
        r@ == pad2(n as nat),
{
    let mut v: Vec<char> = Vec::new();
    if n < 10 {
        v.push('0');
    }
    push_usize(&mut v, n);
    proof {
        if n < 10 {
            reveal_strlit("0");
            assert(v@ =~= "0"@ + dec(n as nat));
        }
    }
    from_chars(&v)
}

/// What `open_status_history` does: `s` before, `f` after.
pub open spec fn open_status_history_done(s: TuiApp, f: TuiApp) -> bool {
    &&& (({
            let h1 = recorded(history_view(s.status_history), s.status@);
            &&& f.detail matches Some(d) && d.title@ == "消息历史"@ && history_view(d.lines)
                == history_pane_lines(s.status@, h1)
            &&& f.status@ == "正在查看消息历史"@
            &&& history_view(f.status_history) == recorded(h1, "正在查看消息历史"@)
            &&& f == (TuiApp {
                status: f.status,
                status_history: f.status_history,
                detail: f.detail,
                ..s
            })
        }))
}

impl TuiApp {
    /// Shows a message and records it in the history.
    pub fn set_status(&mut self, message: &str)
        ensures
            final(self).status@ == message@,
            history_view(final(self).status_history) == recorded(history_view(old(self).status_history), message@),
            *final(self) == (TuiApp {
                status: final(self).status,
                status_history: final(self).status_history,
                ..*old(self)
            }),
    {
        self.record_status(message);
        self.status = owned(message);
    }

    /// Starts work in progress: the pin is dropped, the message shown and
    /// recorded, and the busy marker set.
    pub fn start_busy(&mut self, message: &str)
        ensures
            final(self).status@ == message@,
            history_view(final(self).status_history) == recorded(history_view(old(self).status_history), message@),
            final(self).busy matches Some(b) && b.message@ == message@,
            *final(self) == (TuiApp {
                status: final(self).status,
                status_history: final(self).status_history,
                busy: final(self).busy,
                status_pinned_until: None,
                ..*old(self)
            }),
    {
        self.status_pinned_until = None;
        self.set_status(message);
        self.busy = Some(BusyState { message: owned(message) });
    }

    /// Ends work in progress.
    pub fn clear_busy(&mut self)
        ensures
            *final(self) == (TuiApp { busy: None, ..*old(self) }),
    {
        self.busy = None;
    }

    /// Keeps the status from refreshes until `now + duration`.
    pub fn pin_status(&mut self, now: u64, duration: u64)
        requires
            now + duration <= u64::MAX,
        ensures
            *final(self) == (TuiApp { status_pinned_until: Some((now + duration) as u64), ..*old(self) }),
    {
        self.status_pinned_until = Some(now + duration);
    }

    /// Drops the pin.
    pub fn clear_status_pin(&mut self)
        ensures
            *final(self) == (TuiApp { status_pinned_until: None, ..*old(self) }),
    {
        self.status_pinned_until = None;
    }

    /// Whether the status is still pinned at `now`.
    pub fn status_is_pinned(&self, now: u64) -> (b: bool)
        ensures
            b == (self.status_pinned_until matches Some(d) && now < d),
    {
        match self.status_pinned_until {
            Some(d) => now < d,
            None => false,
        }
    }

    /// Shows a message and pins it for `IMPORTANT_STATUS_PIN_MILLIS`.
    pub fn set_important_status(&mut self, message: &str, now: u64)
        requires
            now + IMPORTANT_STATUS_PIN_MILLIS <= u64::MAX,
        ensures
            final(self).status@ == message@,
            history_view(final(self).status_history) == recorded(history_view(old(self).status_history), message@),
            *final(self) == (TuiApp {
                status: final(self).status,
                status_history: final(self).status_history,
                status_pinned_until: Some((now + IMPORTANT_STATUS_PIN_MILLIS) as u64),
                ..*old(self)
            }),
    {
        self.set_status(message);
        self.pin_status(now, IMPORTANT_STATUS_PIN_MILLIS);
    }

    /// Shows a refresh message unless the status is pinned at `now`.
    pub fn set_refresh_status(&mut self, message: &str, now: u64)
        ensures
            (old(self).status_pinned_until matches Some(d) && now < d) ==> *final(self) == *old(self),
            !(old(self).status_pinned_until matches Some(d) && now < d) ==> {
                &&& final(self).status@ == message@
                &&& history_view(final(self).status_history) == recorded(
                    history_view(old(self).status_history),
                    message@,
                )
                &&& *final(self) == (TuiApp {
                    status: final(self).status,
                    status_history: final(self).status_history,
                    ..*old(self)
                })
            },
    {
        if !self.status_is_pinned(now) {
            self.set_status(message);
        }
    }

    /// Opens the message history pane.
    pub fn open_status_history(&mut self)
        ensures
            open_status_history_done(*old(self), *final(self)),
    {
        let current = owned(self.status.as_str());
        self.record_status(current.as_str());
        let ghost h1 = history_view(self.status_history);
        let mut lines: Vec<String> = Vec::new();
        let mut head: Vec<char> = Vec::new();
        push_str(&mut head, "当前状态：");
        let safe = status_history_text(current.as_str());
        push_str(&mut head, safe.as_str());
        lines.push(from_chars(&head));
        lines.push(String::new());
        if self.status_history.len() == 0 {
            lines.push(owned("暂无历史消息"));
            proof {
                assert(history_view(lines) =~= history_pane_lines(old(self).status@, h1));
            }
        } else {
            let mut t: Vec<char> = Vec::new();
            push_str(&mut t, "最近消息（最多 ");
            push_usize(&mut t, STATUS_HISTORY_LIMIT);
            push_str(&mut t, " 条，最新在前）：");
            lines.push(from_chars(&t));
            let n = self.status_history.len();
            let ghost base = history_view(lines);
            let mut i: usize = 0;
            while i < n
                invariant
                    i <= n,
                    n == self.status_history.len(),
                    h1 == history_view(self.status_history),
                    history_view(lines) == base + Seq::new(
                        i as nat,
                        |k: int| pad2((k + 1) as nat) + ". "@ + h1[h1.len() - 1 - k],
                    ),
                decreases n - i,
            {
                let mut line: Vec<char> = Vec::new();
                let num = pad2_string(i + 1);
                push_str(&mut line, num.as_str());
                push_str(&mut line, ". ");
                push_str(&mut line, self.status_history[n - 1 - i].as_str());
                let ghost before = history_view(lines);
                lines.push(from_chars(&line));
                proof {
                    assert(history_view(lines) =~= before.push(
                        pad2((i + 1) as nat) + ". "@ + h1[h1.len() - 1 - i],
                    ));
                    assert(history_view(lines) =~= base + Seq::new(
                        (i + 1) as nat,
                        |k: int| pad2((k + 1) as nat) + ". "@ + h1[h1.len() - 1 - k],
                    ));
                }
                i += 1;
            }
            proof {
                assert(history_view(lines) =~= history_pane_lines(old(self).status@, h1));
            }
        }
        self.detail = Some(DetailState { title: owned("消息历史"), lines });
        self.set_status("正在查看消息历史");
    }
}

impl Default for TuiApp {
    fn default() -> (app: TuiApp)
        ensures
            is_fresh(app),
    {
        TuiApp::new()
    }
}

} // verus!
