//! The state changes behind key presses and pastes that need no outside
//! work: overlays, input boxes, searches, confirmations and detail panes.
use vstd::prelude::*;
use vstd::view::View as _;
use crate::strs::{dec, find, from_chars, owned, push_str, push_usize, str_trim, to_chars, trim, chars_find_from};
use crate::text::{
    link_marker, newline_marker, normalize_pasted_text, pasted_subscription_url, redact, safe_text,
    terminal_safe_log_text, url_verdict, without_line_breaks,
};
use crate::text::url_parts;
use crate::models::{ConfirmAction, InputState, InputTarget, KernelState, View};
use crate::labels::{bool_action_label, bool_label, next_log_level, next_log_level_text, on_off, settings_rows, settings_rows_seq, SettingsSummary};
use crate::models::SettingRow;
use crate::navigation::SETTINGS_ROW_COUNT;
use crate::details::{connection_detail_lines, connection_lines, job_detail_lines, job_lines};
use crate::navigation::{clamped_all};
use crate::state::{ConfirmState, DetailState, TuiApp, history_view, recorded};

verus! {

/// `f` is `s` with `msg` shown and recorded.
pub open spec fn status_after(s: TuiApp, msg: Seq<char>, f: TuiApp) -> bool {
    &&& f.status@ == msg
    &&& history_view(f.status_history) == recorded(history_view(s.status_history), msg)
    &&& f == (TuiApp { status: f.status, status_history: f.status_history, ..s })
}

/// The pieces of `s` between occurrences of `sep`.
pub open spec fn split_on(s: Seq<char>, sep: Seq<char>) -> Seq<Seq<char>>
    decreases s.len(),
{
    if sep.len() == 0 {
        seq![s]
    } else {
        match find(s, sep) {
            None => seq![s],
            Some(i) => if 0 <= i && i + sep.len() <= s.len() {
                seq![s.take(i)] + split_on(s.skip(i + sep.len()), sep)
            } else {
                seq![s]
            },
        }
    }
}

/// `+` or nothing, then decimal digits, read as a port number below 65536.
pub open spec fn port_digits(t: Seq<char>, i: int, acc: int) -> Result<int, Seq<char>>
    decreases t.len() - i,
{
    if i >= t.len() {
        Ok(acc)
    } else if !('0' <= t[i] && t[i] <= '9') {
        Err("invalid digit found in string"@)
    } else if acc * 10 + (t[i] as int - '0' as int) > 65535 {
        Err("number too large to fit in target type"@)
    } else {
        port_digits(t, i + 1, acc * 10 + (t[i] as int - '0' as int))
    }
}

/// How a port number is read from text, with the reader's error message.
pub open spec fn port_parse(t: Seq<char>) -> Result<int, Seq<char>> {
    if t.len() == 0 {
        Err("cannot parse integer from empty string"@)
    } else if t[0] == '+' {
        if t.len() == 1 {
            Err("invalid digit found in string"@)
        } else {
            port_digits(t, 1, 0)
        }
    } else {
        port_digits(t, 0, 0)
    }
}

/// The outcome of reading a port from an input box: the port, or the
/// message to show.
pub open spec fn port_verdict(value: Seq<char>, zero_message: Seq<char>) -> Result<int, Seq<char>> {
    match port_parse(trim(value)) {
        Ok(p) => if p == 0 {
            Err(zero_message)
        } else {
            Ok(p)
        },
        Err(e) => Err(e),
    }
}

/// The prompt before changing the external controller port.
pub open spec fn controller_port_prompt(port: int) -> Seq<char> {
    "确认将外部控制端口改为 "@ + dec(port as nat) + "？当前开启时会重启 Core 并绑定本机，y 确认 / n 取消"@
}

/// The prompt before switching TUN.
pub open spec fn tun_prompt(s: SettingsSummary) -> Seq<char> {
    "确认"@ + on_off(!s.tun_enabled) + " TUN？"@ + (if s.tun_diagnostics.can_enable {
        "当前环境具备 TUN 基本条件"@
    } else {
        "当前环境可能缺少 /dev/net/tun 或权限"@
    }) + "；会影响本机网络路由，y 确认 / n 取消"@
}

/// The prompt before switching the system proxy.
pub open spec fn system_proxy_prompt(s: SettingsSummary) -> Seq<char> {
    let e = s.system_proxy_diagnostics.endpoint;
    let diagnostic = if s.system_proxy_diagnostics.can_auto_apply {
        "当前环境自动应用可用，将设置 "@ + e.host@ + ":"@ + dec(e.port as nat)
    } else {
        "当前环境需手动配置 HTTP/HTTPS/SOCKS "@ + e.host@ + ":"@ + dec(e.port as nat) + "，失败会回滚"@
    };
    "确认"@ + on_off(!s.system_proxy_enabled) + "系统代理？"@ + diagnostic + "；会修改本机代理设置，y 确认 / n 取消"@
}

/// The prompt before switching the external controller.
pub open spec fn external_controller_prompt(s: SettingsSummary) -> Seq<char> {
    "确认"@ + on_off(!s.external_controller.enabled) + "外部控制器？开启后 mihomo 将监听本机 127.0.0.1:"@
        + dec(s.external_controller.port as nat) + "，y 确认 / n 取消"@
}

/// The prompt before switching the core log while the core runs.
pub open spec fn core_log_prompt(enabled: bool) -> Seq<char> {
    "确认"@ + on_off(enabled) + "核心日志？Core 运行中需要重启后生效，y 确认 / n 取消"@
}

/// The query of the page a search was opened on.
pub open spec fn query_of(s: TuiApp, v: View) -> Seq<char> {
    match v {
        View::Profiles => s.profile_query@,
        View::Proxies => s.proxy_query@,
        View::Logs => s.log_query@,
        View::Rules => s.rule_query@,
        View::Connections => s.connection_query@,
        View::Jobs => s.job_query@,
        View::Dashboard | View::Settings => Seq::empty(),
    }
}

/// Reads a port number the way the settings inputs do.
pub fn parse_port(text: &str) -> (r: Result<u16, String>)
    ensures
        match r {
            Ok(p) => port_parse(text@) == Ok::<int, Seq<char>>(p as int),
            Err(e) => port_parse(text@) == Err::<int, Seq<char>>(e@),
        },
{
    let t = to_chars(text);
    if t.len() == 0 {
        return Err(owned("cannot parse integer from empty string"));
    }
    let mut i: usize = 0;
    if t[0] == '+' {
        if t.len() == 1 {
            return Err(owned("invalid digit found in string"));
        }
        i = 1;
    }
    let ghost start = i as int;
    let mut acc: u32 = 0;
    while i < t.len()
        invariant
            start == 0 || start == 1,
            start <= i <= t.len(),
            acc <= 65535,
            t@ == text@,
            port_parse(text@) == port_digits(t@, i as int, acc as int),
        decreases t.len() - i,
    {
        let c = t[i];
        if !('0' <= c && c <= '9') {
            return Err(owned("invalid digit found in string"));
        }
        let d = (c as u32) - ('0' as u32);
        if acc * 10 + d > 65535 {
            return Err(owned("number too large to fit in target type"));
        }
        acc = acc * 10 + d;
        i += 1;
    }
    Ok(acc as u16)
}

/// The pieces of `s` between occurrences of a non-empty `sep`.
pub fn split_text(s: &str, sep: &str) -> (r: Vec<String>)
    requires
        sep@.len() > 0,
    ensures
        history_view(r) == split_on(s@, sep@),
{
    let c = to_chars(s);
    let p = to_chars(sep);
    let mut out: Vec<String> = Vec::new();
    let mut start: usize = 0;
    proof {
        assert(c@.skip(0) =~= c@);
    }
    while start <= c.len()
        invariant
            start <= c.len(),
            p@ == sep@,
            p@.len() > 0,
            c@ == s@,
            split_on(s@, sep@) == history_view(out) + split_on(c@.skip(start as int), sep@),
        decreases c.len() - start,
    {
        let rest = crate::strs::chars_sub(&c, start, c.len());
        assert(rest@ =~= c@.skip(start as int));
        match chars_find_from(&rest, &p, 0) {
            Some(i) => {
                proof {
                    crate::strs::lemma_find_sound(rest@, p@, 0);
                }
                let piece = crate::strs::chars_sub(&rest, 0, i);
                let ghost before = history_view(out);
                out.push(from_chars(&piece));
                proof {
                    assert(piece@ =~= rest@.take(i as int));
                    assert(rest@.skip(i + p@.len()) =~= c@.skip(start + i + p@.len()));
                    assert(history_view(out) =~= before.push(rest@.take(i as int)));
                    assert(history_view(out) + split_on(c@.skip(start + i + p@.len()), sep@) =~= before + (
                    seq![rest@.take(i as int)] + split_on(rest@.skip(i + p@.len()), sep@)));
                }
                start = start + i + p.len();
            },
            None => {
                let ghost before = history_view(out);
                out.push(from_chars(&rest));
                proof {
                    assert(history_view(out) =~= before + seq![rest@]);
                }
                return out;
            },
        }
    }
    out
}



/// The log detail pane's lines: the terminal-safe line cut at its line
/// breaks.
pub open spec fn log_detail_lines(log: Seq<char>) -> Seq<Seq<char>> {
    split_on(safe_text(redact(log, link_marker())), newline_marker())
}

/// What `input_backspace` does: `s` before, `f` after.
pub open spec fn input_backspace_done(s: TuiApp, f: TuiApp) -> bool {
    &&& (match s.input {
            None => f == s,
            Some(i) => {
                &&& f.input matches Some(j) && j.target == i.target && j.value@ == (if i.value@.len()
                    > 0 {
                    i.value@.drop_last()
                } else {
                    i.value@
                })
                &&& f == (TuiApp { input: f.input, ..s })
            },
        })
}

/// What `input_char` does: `s` before, `f` after.
pub open spec fn input_char_done(s: TuiApp, ch: char, f: TuiApp) -> bool {
    &&& (match s.input {
            None => f == s,
            Some(i) => {
                &&& f.input matches Some(j) && j.target == i.target && j.value@ == i.value@.push(ch)
                &&& f == (TuiApp { input: f.input, ..s })
            },
        })
}

/// What `toggle_log_follow` does: `s` before, `f` after.
pub open spec fn toggle_log_follow_done(s: TuiApp, f: TuiApp) -> bool {
    &&& (status_after(
            TuiApp { log_follow: !s.log_follow, ..s },
            "日志跟随已"@ + on_off(!s.log_follow),
            f,
        ))
}

/// What `confirm_clear_logs` does: `s` before, `f` after.
pub open spec fn confirm_clear_logs_done(s: TuiApp, f: TuiApp) -> bool {
    &&& (f.confirm matches Some(c) && c.prompt@ == "确认清空日志显示和本地日志文件？y 确认 / n 取消"@
            && c.action == ConfirmAction::ClearLogs)
    &&& (f == (TuiApp { confirm: f.confirm, ..s }))
}

/// What `confirm_close_all_connections` does: `s` before, `f` after.
pub open spec fn confirm_close_all_connections_done(s: TuiApp, f: TuiApp) -> bool {
    &&& (f.confirm matches Some(c) && c.prompt@ == "确认关闭全部连接？y 确认 / n 取消"@ && c.action
            == ConfirmAction::CloseAllConnections)
    &&& (f == (TuiApp { confirm: f.confirm, ..s }))
}

/// What `start_search` does: `s` before, `f` after.
pub open spec fn start_search_done(s: TuiApp, f: TuiApp) -> bool {
    &&& (s.view == View::Dashboard || s.view == View::Settings ==> status_after(
            s,
            "当前页面不支持过滤"@,
            f,
        ))
    &&& (!(s.view == View::Dashboard || s.view == View::Settings) ==> {
            &&& f.input matches Some(i) && i.target == InputTarget::Search(s.view)
                && i.value@ == query_of(s, s.view)
            &&& f == (TuiApp { input: f.input, ..s })
        })
}

/// What `start_subscription_import` does: `s` before, `f` after.
pub open spec fn start_subscription_import_done(s: TuiApp, f: TuiApp) -> bool {
    &&& (({
            let i = f.input;
            &&& i matches Some(i) && i.target == InputTarget::ImportSubscriptionUrl && i.value@.len() == 0
            &&& status_after(TuiApp { input: i, ..s }, "请粘贴订阅链接，按 Enter 导入"@, f)
        }))
}

/// What `start_local_profile_import` does: `s` before, `f` after.
pub open spec fn start_local_profile_import_done(s: TuiApp, f: TuiApp) -> bool {
    &&& (({
            let i = f.input;
            &&& i matches Some(i) && i.target == InputTarget::ImportLocalProfilePath && i.value@.len() == 0
            &&& status_after(TuiApp { input: i, ..s }, "请输入本地配置文件路径，按 Enter 导入"@, f)
        }))
}

impl TuiApp {
    /// Shows the help screen.
    pub fn show_help_screen(&mut self)
        ensures
            status_after(TuiApp { show_help: true, ..*old(self) }, "帮助：Esc/? 关闭，q 退出"@, *final(self)),
    {
        self.show_help = true;
        self.set_status("帮助：Esc/? 关闭，q 退出");
    }

    /// Closes the help screen.
    pub fn close_help(&mut self)
        ensures
            status_after(TuiApp { show_help: false, ..*old(self) }, "已关闭帮助"@, *final(self)),
    {
        self.show_help = false;
        self.set_status("已关闭帮助");
    }

    /// Closes the detail pane.
    pub fn close_detail(&mut self)
        ensures
            status_after(TuiApp { detail: None, ..*old(self) }, "已关闭详情"@, *final(self)),
    {
        self.detail = None;
        self.set_status("已关闭详情");
    }

    /// Drops the pending confirmation.
    pub fn cancel_confirm(&mut self)
        ensures
            status_after(TuiApp { confirm: None, ..*old(self) }, "已取消"@, *final(self)),
    {
        self.confirm = None;
        self.set_status("已取消");
    }

    /// Closes the input box without applying it.
    pub fn cancel_input(&mut self)
        ensures
            status_after(TuiApp { input: None, ..*old(self) }, "已取消输入"@, *final(self)),
    {
        self.input = None;
        self.set_status("已取消输入");
    }

    /// Deletes the last character of the input box.
    pub fn input_backspace(&mut self)
        ensures
            input_backspace_done(*old(self), *final(self)),
    {
        match &self.input {
            Some(i) => {
                let mut c = to_chars(i.value.as_str());
                if c.len() > 0 {
                    c.pop();
                }
                let target = i.target;
                self.input = Some(InputState { target, value: from_chars(&c) });
            },
            None => {},
        }
    }

    /// Types a character into the input box.
    pub fn input_char(&mut self, ch: char)
        ensures
            input_char_done(*old(self), ch, *final(self)),
    {
        match &self.input {
            Some(i) => {
                let mut c = to_chars(i.value.as_str());
                c.push(ch);
                let target = i.target;
                self.input = Some(InputState { target, value: from_chars(&c) });
            },
            None => {},
        }
    }

    /// Closes the provider dialog.
    pub fn close_provider_dialog(&mut self)
        ensures
            status_after(TuiApp { provider_dialog: None, ..*old(self) }, "已关闭 Provider"@, *final(self)),
    {
        self.provider_dialog = None;
        self.set_status("已关闭 Provider");
    }

    /// Closes the dashboard's proxy popup.
    pub fn close_dashboard_popup(&mut self)
        ensures
            status_after(
                TuiApp { dashboard_proxy_popup: crate::models::DashboardProxyPopup::Closed, ..*old(self) },
                "已收起首页代理选择"@,
                *final(self),
            ),
    {
        self.dashboard_proxy_popup = crate::models::DashboardProxyPopup::Closed;
        self.set_status("已收起首页代理选择");
    }

    /// Switches whether the log page follows new lines.
    pub fn toggle_log_follow(&mut self)
        ensures
            toggle_log_follow_done(*old(self), *final(self)),
    {
        self.log_follow = !self.log_follow;
        let mut v: Vec<char> = Vec::new();
        push_str(&mut v, "日志跟随已");
        push_str(&mut v, bool_label(self.log_follow));
        let msg = from_chars(&v);
        self.set_status(msg.as_str());
    }

    /// Asks before clearing the logs.
    pub fn confirm_clear_logs(&mut self)
        ensures
            confirm_clear_logs_done(*old(self), *final(self)),
    {
        self.confirm = Some(
            ConfirmState { prompt: owned("确认清空日志显示和本地日志文件？y 确认 / n 取消"), action: ConfirmAction::ClearLogs },
        );
    }

    /// Asks before closing every connection.
    pub fn confirm_close_all_connections(&mut self)
        ensures
            confirm_close_all_connections_done(*old(self), *final(self)),
    {
        self.confirm = Some(
            ConfirmState {
                prompt: owned("确认关闭全部连接？y 确认 / n 取消"),
                action: ConfirmAction::CloseAllConnections,
            },
        );
    }

    /// Opens the filter input of the current page, holding its query.
    pub fn start_search(&mut self)
        ensures
            start_search_done(*old(self), *final(self)),
    {
        let v = self.view;
        let value = match v {
            View::Profiles => owned(self.profile_query.as_str()),
            View::Proxies => owned(self.proxy_query.as_str()),
            View::Logs => owned(self.log_query.as_str()),
            View::Rules => owned(self.rule_query.as_str()),
            View::Connections => owned(self.connection_query.as_str()),
            View::Jobs => owned(self.job_query.as_str()),
            View::Dashboard | View::Settings => {
                self.set_status("当前页面不支持过滤");
                return;
            },
        };
        self.input = Some(InputState { target: InputTarget::Search(v), value });
    }

    /// Opens the subscription link input.
    pub fn start_subscription_import(&mut self)
        ensures
            start_subscription_import_done(*old(self), *final(self)),
    {
        self.input = Some(InputState { target: InputTarget::ImportSubscriptionUrl, value: String::new() });
        self.set_status("请粘贴订阅链接，按 Enter 导入");
    }

    /// Opens the local profile path input.
    pub fn start_local_profile_import(&mut self)
        ensures
            start_local_profile_import_done(*old(self), *final(self)),
    {
        self.input = Some(InputState { target: InputTarget::ImportLocalProfilePath, value: String::new() });
        self.set_status("请输入本地配置文件路径，按 Enter 导入");
    }
}


/// `s` with the query of view `v` taken from `f`.
pub open spec fn with_query(s: TuiApp, v: View, f: TuiApp) -> TuiApp {
    match v {
        View::Profiles => TuiApp { profile_query: f.profile_query, ..s },
        View::Proxies => TuiApp { proxy_query: f.proxy_query, ..s },
        View::Logs => TuiApp { log_query: f.log_query, ..s },
        View::Rules => TuiApp { rule_query: f.rule_query, ..s },
        View::Connections => TuiApp { connection_query: f.connection_query, ..s },
        View::Jobs => TuiApp { job_query: f.job_query, ..s },
        View::Dashboard | View::Settings => s,
    }
}

/// Whether a profile can be switched to or deleted.
pub open spec fn user_profile(itype: Option<String>) -> bool {
    itype matches Some(t) && (t@ == "local"@ || t@ == "remote"@)
}

/// The summary of the rule under the cursor.
pub open spec fn rule_summary_text(s: TuiApp) -> Seq<char> {
    if s.rule_index < s.rules@.len() {
        let r = s.rules@[s.rule_index as int];
        (match r.rule_type {
            Some(t) => t@,
            None => "RULE"@,
        }) + " "@ + (match r.payload {
            Some(t) => t@,
            None => "-"@,
        }) + " -> "@ + (match r.proxy {
            Some(t) => t@,
            None => "-"@,
        })
    } else {
        "未选择规则"@
    }
}

fn opt_or(v: &Option<String>, fallback: &str) -> (r: String)
    ensures
        r@ == match *v {
            Some(t) => t@,
            None => fallback@,
        },
{
    match v {
        Some(t) => owned(t.as_str()),
        None => owned(fallback),
    }
}

/// What `open_selected_log_detail` does: `s` before, `f` after.
pub open spec fn open_selected_log_detail_done(s: TuiApp, f: TuiApp) -> bool {
    &&& (s.log_index >= s.logs@.len() ==> status_after(s, "未选择日志"@, f))
    &&& (s.log_index < s.logs@.len() ==> {
            &&& f.detail matches Some(d) && d.title@ == "日志详情"@ && history_view(d.lines)
                == log_detail_lines(s.logs@[s.log_index as int]@)
            &&& status_after(TuiApp { detail: f.detail, ..s }, "正在查看日志详情"@, f)
        })
}

/// What `open_selected_connection_detail` does: `s` before, `f` after.
pub open spec fn open_selected_connection_detail_done(s: TuiApp, f: TuiApp) -> bool {
    &&& (s.connection_index >= s.connections@.len() ==> status_after(
            s,
            "未选择连接"@,
            f,
        ))
    &&& (s.connection_index < s.connections@.len() ==> {
            let c = s.connections@[s.connection_index as int];
            &&& f.detail matches Some(d) && d.title@ == "连接详情"@ && history_view(d.lines)
                == connection_lines(c)
            &&& status_after(
                TuiApp { detail: f.detail, ..s },
                "正在查看连接："@ + c.id@,
                f,
            )
        })
}

/// What `open_selected_job_detail` does: `s` before, `f` after.
pub open spec fn open_selected_job_detail_done(s: TuiApp, f: TuiApp) -> bool {
    &&& (s.job_index >= s.jobs@.len() ==> status_after(s, "未选择任务"@, f))
    &&& (s.job_index < s.jobs@.len() ==> {
            let j = s.jobs@[s.job_index as int];
            &&& f.detail matches Some(d) && d.title@ == "任务详情"@ && history_view(d.lines)
                == job_lines(j)
            &&& status_after(
                TuiApp { detail: f.detail, ..s },
                "正在查看任务："@ + j.id@,
                f,
            )
        })
}

impl TuiApp {
    /// Applies a search: the page's query becomes the trimmed value and
    /// the cursors stay on listed rows.
    pub fn finish_search(&mut self, v: View, value: &str)
        ensures
            query_of(*final(self), v) == (if v == View::Dashboard || v == View::Settings {
                query_of(*old(self), v)
            } else {
                trim(value@)
            }),
            status_after(
                TuiApp { last_refresh: None, ..clamped_all(with_query(*old(self), v, *final(self))) },
                "过滤已更新"@,
                *final(self),
            ),
    {
        let t = str_trim(value);
        let q = from_chars(&t);
        self.set_query(v, q);
        let ghost s1 = *self;
        self.clamp_selections();
        let ghost s2 = *self;
        self.set_status("过滤已更新");
        self.last_refresh = None;
        proof {
            assert(s2 == clamped_all(s1));
            assert(s1 == with_query(*old(self), v, *self));
        }
    }

    fn set_query(&mut self, v: View, q: String)
        ensures
            query_of(*final(self), v) == (if v == View::Dashboard || v == View::Settings {
                query_of(*old(self), v)
            } else {
                q@
            }),
            *final(self) == with_query(*old(self), v, *final(self)),
    {
        match v {
            View::Profiles => {
                self.profile_query = q;
            },
            View::Proxies => {
                self.proxy_query = q;
            },
            View::Logs => {
                self.log_query = q;
            },
            View::Rules => {
                self.rule_query = q;
            },
            View::Connections => {
                self.connection_query = q;
            },
            View::Jobs => {
                self.job_query = q;
            },
            View::Dashboard | View::Settings => {},
        }
    }

    /// Reads a port from an input box. A valid mixed port is returned for
    /// the caller to apply; a valid controller port asks for confirmation;
    /// an invalid value shows `错误：` and the reason.
    pub fn finish_port_input(&mut self, target: InputTarget, value: &str) -> (r: Option<u16>)
        requires
            target == InputTarget::MixedPort || target == InputTarget::ExternalControllerPort,
        ensures
            ({
                let zero = if target == InputTarget::MixedPort {
                    "混合端口必须大于 0"@
                } else {
                    "外部控制端口必须大于 0"@
                };
                match port_verdict(value@, zero) {
                    Ok(p) => if target == InputTarget::MixedPort {
                        r == Some(p as u16) && *final(self) == *old(self)
                    } else {
                        &&& r is None
                        &&& final(self).confirm matches Some(c) && c.prompt@ == controller_port_prompt(p)
                            && c.action == (ConfirmAction::SetExternalControllerPort { port: p as u16 })
                        &&& *final(self) == (TuiApp { confirm: final(self).confirm, last_refresh: None, ..*old(self) })
                    },
                    Err(e) => r is None && status_after(
                        TuiApp { last_refresh: None, ..*old(self) },
                        "错误："@ + e,
                        *final(self),
                    ),
                }
            }),
    {
        let t = str_trim(value);
        let ts = from_chars(&t);
        let zero = if target == InputTarget::MixedPort {
            "混合端口必须大于 0"
        } else {
            "外部控制端口必须大于 0"
        };
        let verdict = match parse_port(ts.as_str()) {
            Ok(p) => if p == 0 {
                Err(owned(zero))
            } else {
                Ok(p)
            },
            Err(e) => Err(e),
        };
        match verdict {
            Ok(p) => {
                if target == InputTarget::MixedPort {
                    return Some(p);
                }
                let mut v: Vec<char> = Vec::new();
                push_str(&mut v, "确认将外部控制端口改为 ");
                push_usize(&mut v, p as usize);
                push_str(&mut v, "？当前开启时会重启 Core 并绑定本机，y 确认 / n 取消");
                self.confirm = Some(
                    ConfirmState {
                        prompt: from_chars(&v),
                        action: ConfirmAction::SetExternalControllerPort { port: p },
                    },
                );
                self.last_refresh = None;
                None
            },
            Err(e) => {
                let mut v: Vec<char> = Vec::new();
                push_str(&mut v, "错误：");
                push_str(&mut v, e.as_str());
                let msg = from_chars(&v);
                self.last_refresh = None;
                self.set_status(msg.as_str());
                None
            },
        }
    }

    /// The summary of the rule under the cursor.
    pub fn selected_rule_summary(&self) -> (r: String)
        ensures
            r@ == rule_summary_text(*self),
    {
        if self.rule_index >= self.rules.len() {
            return owned("未选择规则");
        }
        let e = &self.rules[self.rule_index];
        let mut v: Vec<char> = Vec::new();
        let a = opt_or(&e.rule_type, "RULE");
        let b = opt_or(&e.payload, "-");
        let c = opt_or(&e.proxy, "-");
        push_str(&mut v, a.as_str());
        push_str(&mut v, " ");
        push_str(&mut v, b.as_str());
        push_str(&mut v, " -> ");
        push_str(&mut v, c.as_str());
        from_chars(&v)
    }

    /// Opens the selected log line in a detail pane.
    pub fn open_selected_log_detail(&mut self)
        ensures
            open_selected_log_detail_done(*old(self), *final(self)),
    {
        if self.log_index >= self.logs.len() {
            self.set_status("未选择日志");
            return;
        }
        let safe = terminal_safe_log_text(self.logs[self.log_index].as_str());
        proof {
            reveal_strlit(" <换行> ");
        }
        let lines = split_text(safe.as_str(), " <换行> ");
        self.detail = Some(DetailState { title: owned("日志详情"), lines });
        self.set_status("正在查看日志详情");
    }

    /// Opens the selected connection in a detail pane.
    pub fn open_selected_connection_detail(&mut self)
        ensures
            open_selected_connection_detail_done(*old(self), *final(self)),
    {
        if self.connection_index >= self.connections.len() {
            self.set_status("未选择连接");
            return;
        }
        let c = &self.connections[self.connection_index];
        let lines = connection_detail_lines(c);
        let mut v: Vec<char> = Vec::new();
        push_str(&mut v, "正在查看连接：");
        push_str(&mut v, c.id.as_str());
        let msg = from_chars(&v);
        self.detail = Some(DetailState { title: owned("连接详情"), lines });
        self.set_status(msg.as_str());
    }

    /// Opens the selected job in a detail pane.
    pub fn open_selected_job_detail(&mut self)
        ensures
            open_selected_job_detail_done(*old(self), *final(self)),
    {
        if self.job_index >= self.jobs.len() {
            self.set_status("未选择任务");
            return;
        }
        let j = &self.jobs[self.job_index];
        let lines = job_detail_lines(j);
        let mut v: Vec<char> = Vec::new();
        push_str(&mut v, "正在查看任务：");
        push_str(&mut v, j.id.as_str());
        let msg = from_chars(&v);
        self.detail = Some(DetailState { title: owned("任务详情"), lines });
        self.set_status(msg.as_str());
    }
}


/// The name a profile is confirmed by: its name, else its uid.
pub open spec fn profile_label(p: crate::state::ProfileEntry, uid: Seq<char>) -> Seq<char> {
    match p.name {
        Some(n) => n@,
        None => uid,
    }
}

fn profile_name_or(p: &crate::state::ProfileEntry, uid: &String) -> (r: String)
    ensures
        r@ == profile_label(*p, uid@),
{
    match &p.name {
        Some(n) => owned(n.as_str()),
        None => owned(uid.as_str()),
    }
}

fn is_user_profile(itype: &Option<String>) -> (b: bool)
    ensures
        b == user_profile(*itype),
{
    match itype {
        Some(t) => crate::strs::str_eq(t.as_str(), "local") || crate::strs::str_eq(t.as_str(), "remote"),
        None => false,
    }
}

/// The connections other than those with id `id`, in order.
pub open spec fn without_connection(c: Seq<crate::details::ConnectionRecord>, id: Seq<char>) -> Seq<
    crate::details::ConnectionRecord,
> {
    c.filter(|x: crate::details::ConnectionRecord| x.id@ != id)
}

/// What `confirm_switch_profile` does: `s` before, `f` after.
pub open spec fn confirm_switch_profile_done(s: TuiApp, f: TuiApp) -> bool {
    &&& (({
            let s = s;
            if s.profile_index >= s.profiles@.len() {
                status_after(s, "未选择订阅"@, f)
            } else {
                let p = s.profiles@[s.profile_index as int];
                if !user_profile(p.itype) {
                    status_after(s, "只有本地或远程订阅可以启用"@, f)
                } else if p.uid is None {
                    status_after(s, "当前订阅缺少 uid"@, f)
                } else if crate::refresh_state::key_view(s.profiles_current) == Some(p.uid->0@) {
                    status_after(s, "该订阅已是当前启用项"@, f)
                } else {
                    let uid = p.uid->0@;
                    let name = profile_label(p, uid);
                    &&& f.confirm matches Some(c) && c.prompt@ == "确认切换到订阅 "@ + name
                        + "？运行中的核心会热加载配置，y 确认 / n 取消"@ && (c.action matches ConfirmAction::SwitchProfile {
                        uid: u,
                        name: n,
                    } && u@ == uid && n@ == name)
                    &&& f == (TuiApp { confirm: f.confirm, ..s })
                }
            }
        }))
}

/// What `confirm_delete_profile` does: `s` before, `f` after.
pub open spec fn confirm_delete_profile_done(s: TuiApp, f: TuiApp) -> bool {
    &&& (({
            let s = s;
            if s.profile_index >= s.profiles@.len() {
                status_after(s, "未选择订阅"@, f)
            } else {
                let p = s.profiles@[s.profile_index as int];
                if !user_profile(p.itype) {
                    status_after(s, "内置订阅不能删除"@, f)
                } else if p.uid is None {
                    status_after(s, "当前订阅缺少 uid"@, f)
                } else {
                    let uid = p.uid->0@;
                    let name = profile_label(p, uid);
                    &&& f.confirm matches Some(c) && c.prompt@ == "确认删除订阅 "@ + name
                        + "？y 确认 / n 取消"@ && (c.action matches ConfirmAction::DeleteProfile { uid: u, name: n }
                        && u@ == uid && n@ == name)
                    &&& f == (TuiApp { confirm: f.confirm, ..s })
                }
            }
        }))
}

/// What `confirm_close_selected_connection` does: `s` before, `f` after.
pub open spec fn confirm_close_selected_connection_done(s: TuiApp, f: TuiApp) -> bool {
    &&& (({
            let s = s;
            if s.connection_index >= s.connections@.len() {
                status_after(s, "未选择连接"@, f)
            } else {
                let id = s.connections@[s.connection_index as int].id@;
                if id.len() == 0 {
                    status_after(s, "当前连接缺少 id"@, f)
                } else {
                    &&& f.confirm matches Some(c) && c.prompt@ == "确认关闭连接 "@ + id
                        + "？y 确认 / n 取消"@ && (c.action matches ConfirmAction::CloseConnection { id: i }
                        && i@ == id)
                    &&& f == (TuiApp { confirm: f.confirm, ..s })
                }
            }
        }))
}

/// What `confirm_dashboard_tun` does: `s` before, `f` after.
pub open spec fn confirm_dashboard_tun_done(s: TuiApp, f: TuiApp) -> bool {
    &&& (match s.settings {
            None => status_after(s, "设置尚未加载，按 r 刷新后再切换 TUN"@, f),
            Some(st) => {
                &&& f.confirm matches Some(c) && c.prompt@ == tun_prompt(st) && c.action == (
                ConfirmAction::ToggleTun { enabled: !st.tun_enabled })
                &&& f == (TuiApp { confirm: f.confirm, ..s })
            },
        })
}

/// What `confirm_dashboard_system_proxy` does: `s` before, `f` after.
pub open spec fn confirm_dashboard_system_proxy_done(s: TuiApp, f: TuiApp) -> bool {
    &&& (match s.settings {
            None => status_after(s, "设置尚未加载，按 r 刷新后再切换系统代理"@, f),
            Some(st) => {
                &&& f.confirm matches Some(c) && c.prompt@ == system_proxy_prompt(st) && c.action == (
                ConfirmAction::ToggleSystemProxy { enabled: !st.system_proxy_enabled })
                &&& f == (TuiApp { confirm: f.confirm, ..s })
            },
        })
}

impl TuiApp {
    /// Handles pasted text: into the input box when one is open, else a
    /// subscription link opens the import input on the profile page.
    pub fn handle_paste(&mut self, value: &str) -> (quit: bool)
        ensures
            !quit,
            ({
                let pasted = without_line_breaks(value@);
                match old(self).input {
                    Some(i) => {
                        &&& final(self).input matches Some(j) && j.target == i.target && j.value@ == i.value@
                            + pasted
                        &&& status_after(
                            TuiApp { input: final(self).input, ..*old(self) },
                            "已粘贴输入内容，按 Enter 应用"@,
                            *final(self),
                        )
                    },
                    None => if url_verdict(url_parts(trim(pasted))) is None {
                        &&& final(self).input matches Some(j) && j.target == InputTarget::ImportSubscriptionUrl
                            && j.value@ == trim(pasted)
                        &&& status_after(
                            TuiApp { view: View::Profiles, input: final(self).input, ..*old(self) },
                            "已识别订阅链接，按 Enter 导入，Esc 取消"@,
                            *final(self),
                        )
                    } else {
                        status_after(*old(self), "已粘贴内容；如需导入订阅，请粘贴 http(s) 链接"@, *final(self))
                    },
                }
            }),
    {
        let pasted = normalize_pasted_text(value);
        match &self.input {
            Some(i) => {
                let mut c = to_chars(i.value.as_str());
                push_str(&mut c, pasted.as_str());
                let target = i.target;
                self.input = Some(InputState { target, value: from_chars(&c) });
                self.set_status("已粘贴输入内容，按 Enter 应用");
                return false;
            },
            None => {},
        }
        match pasted_subscription_url(pasted.as_str()) {
            Some(url) => {
                self.view = View::Profiles;
                self.input = Some(InputState { target: InputTarget::ImportSubscriptionUrl, value: url });
                self.set_status("已识别订阅链接，按 Enter 导入，Esc 取消");
            },
            None => {
                self.set_status("已粘贴内容；如需导入订阅，请粘贴 http(s) 链接");
            },
        }
        false
    }

    /// Asks before switching to the selected profile.
    pub fn confirm_switch_profile(&mut self)
        ensures
            confirm_switch_profile_done(*old(self), *final(self)),
    {
        if self.profile_index >= self.profiles.len() {
            self.set_status("未选择订阅");
            return;
        }
        let p = &self.profiles[self.profile_index];
        if !is_user_profile(&p.itype) {
            self.set_status("只有本地或远程订阅可以启用");
            return;
        }
        let uid = match &p.uid {
            Some(u) => owned(u.as_str()),
            None => {
                self.set_status("当前订阅缺少 uid");
                return;
            },
        };
        let same = match &self.profiles_current {
            Some(c) => crate::strs::str_eq(c.as_str(), uid.as_str()),
            None => false,
        };
        if same {
            self.set_status("该订阅已是当前启用项");
            return;
        }
        let name = profile_name_or(p, &uid);
        let mut v: Vec<char> = Vec::new();
        push_str(&mut v, "确认切换到订阅 ");
        push_str(&mut v, name.as_str());
        push_str(&mut v, "？运行中的核心会热加载配置，y 确认 / n 取消");
        self.confirm = Some(
            ConfirmState { prompt: from_chars(&v), action: ConfirmAction::SwitchProfile { uid, name } },
        );
    }

    /// Asks before deleting the selected profile.
    pub fn confirm_delete_profile(&mut self)
        ensures
            confirm_delete_profile_done(*old(self), *final(self)),
    {
        if self.profile_index >= self.profiles.len() {
            self.set_status("未选择订阅");
            return;
        }
        let p = &self.profiles[self.profile_index];
        if !is_user_profile(&p.itype) {
            self.set_status("内置订阅不能删除");
            return;
        }
        let uid = match &p.uid {
            Some(u) => owned(u.as_str()),
            None => {
                self.set_status("当前订阅缺少 uid");
                return;
            },
        };
        let name = profile_name_or(p, &uid);
        let mut v: Vec<char> = Vec::new();
        push_str(&mut v, "确认删除订阅 ");
        push_str(&mut v, name.as_str());
        push_str(&mut v, "？y 确认 / n 取消");
        self.confirm = Some(
            ConfirmState { prompt: from_chars(&v), action: ConfirmAction::DeleteProfile { uid, name } },
        );
    }

    /// Asks before closing the selected connection.
    pub fn confirm_close_selected_connection(&mut self)
        ensures
            confirm_close_selected_connection_done(*old(self), *final(self)),
    {
        if self.connection_index >= self.connections.len() {
            self.set_status("未选择连接");
            return;
        }
        let id = owned(self.connections[self.connection_index].id.as_str());
        if crate::interaction::str_is_empty(id.as_str()) {
            self.set_status("当前连接缺少 id");
            return;
        }
        let mut v: Vec<char> = Vec::new();
        push_str(&mut v, "确认关闭连接 ");
        push_str(&mut v, id.as_str());
        push_str(&mut v, "？y 确认 / n 取消");
        self.confirm = Some(ConfirmState { prompt: from_chars(&v), action: ConfirmAction::CloseConnection { id } });
    }

    /// Asks before switching TUN; needs the settings.
    pub fn confirm_dashboard_tun(&mut self)
        ensures
            confirm_dashboard_tun_done(*old(self), *final(self)),
    {
        let c = match &self.settings {
            Some(st) => {
                let mut v: Vec<char> = Vec::new();
                push_str(&mut v, "确认");
                push_str(&mut v, bool_action_label(!st.tun_enabled));
                push_str(&mut v, " TUN？");
                push_str(&mut v, if st.tun_diagnostics.can_enable {
                    "当前环境具备 TUN 基本条件"
                } else {
                    "当前环境可能缺少 /dev/net/tun 或权限"
                });
                push_str(&mut v, "；会影响本机网络路由，y 确认 / n 取消");
                ConfirmState { prompt: from_chars(&v), action: ConfirmAction::ToggleTun { enabled: !st.tun_enabled } }
            },
            None => {
                self.set_status("设置尚未加载，按 r 刷新后再切换 TUN");
                return;
            },
        };
        self.confirm = Some(c);
    }

    /// Asks before switching the system proxy; needs the settings.
    pub fn confirm_dashboard_system_proxy(&mut self)
        ensures
            confirm_dashboard_system_proxy_done(*old(self), *final(self)),
    {
        let c = match &self.settings {
            Some(st) => system_proxy_confirm(st),
            None => {
                self.set_status("设置尚未加载，按 r 刷新后再切换系统代理");
                return;
            },
        };
        self.confirm = Some(c);
    }

    /// After the core closed connection `id`: it leaves the list and the
    /// cursors stay on listed rows.
    pub fn connection_closed(&mut self, id: &str)
        ensures
            final(self).connections@ == without_connection(old(self).connections@, id@),
            status_after(
                clamped_all(TuiApp { connections: final(self).connections, ..*old(self) }),
                "已关闭连接 "@ + id@,
                *final(self),
            ),
    {
        let ghost c0 = self.connections@;
        let ghost pred = |x: crate::details::ConnectionRecord| x.id@ != id@;
        let ghost mut j: int = 0;
        let mut i: usize = 0;
        proof {
            reveal(Seq::filter);
            assert(c0.take(0).filter(pred) =~= Seq::<crate::details::ConnectionRecord>::empty());
            assert(c0.skip(0) =~= c0);
            assert(self.connections@ =~= c0.take(0).filter(pred) + c0.skip(0));
        }
        while i < self.connections.len()
            invariant
                0 <= j <= c0.len(),
                pred == (|x: crate::details::ConnectionRecord| x.id@ != id@),
                self.connections@ == c0.take(j).filter(pred) + c0.skip(j),
                i == c0.take(j).filter(pred).len(),
                *self == (TuiApp { connections: self.connections, ..*old(self) }),
                c0 == old(self).connections@,
            decreases c0.len() - j,
        {
            proof {
                reveal(Seq::filter);
                assert(self.connections@[i as int] == c0[j]);
                assert(c0.take(j + 1).drop_last() =~= c0.take(j));
                assert(c0.take(j + 1).last() == c0[j]);
                assert(c0.skip(j).skip(1) =~= c0.skip(j + 1));
            }
            if crate::strs::str_eq(self.connections[i].id.as_str(), id) {
                let ghost before = self.connections@;
                self.connections.remove(i);
                proof {
                    assert(self.connections@ =~= c0.take(j + 1).filter(pred) + c0.skip(j + 1));
                    j = j + 1;
                }
            } else {
                proof {
                    assert(self.connections@ =~= c0.take(j + 1).filter(pred) + c0.skip(j + 1));
                    j = j + 1;
                }
                i += 1;
            }
        }
        proof {
            assert(c0.skip(j).len() == 0);
            assert(j == c0.len());
            assert(c0.take(j) =~= c0);
            assert(self.connections@ =~= c0.filter(pred));
        }
        let ghost s1 = *self;
        self.clamp_selections();
        let mut v: Vec<char> = Vec::new();
        push_str(&mut v, "已关闭连接 ");
        push_str(&mut v, id);
        let msg = from_chars(&v);
        self.set_status(msg.as_str());
    }
}


/// What activating a settings row does at once.
pub open spec fn setting_now(s: TuiApp, f: TuiApp, r: bool) -> bool {
    match s.settings {
        None => !r && status_after(s, "设置尚未加载"@, f),

        Some(st) => match settings_rows_seq()[s.setting_index as int] {
            SettingRow::MixedPort | SettingRow::ExternalControllerPort => !r && {
                let row = settings_rows_seq()[s.setting_index as int];
                let t = if row == SettingRow::MixedPort {
                    InputTarget::MixedPort
                } else {
                    InputTarget::ExternalControllerPort
                };
                let port = if row == SettingRow::MixedPort {
                    st.mixed_port
                } else {
                    st.external_controller.port
                };
                let msg = if row == SettingRow::MixedPort {
                    "正在编辑混合端口"@
                } else {
                    "正在编辑外部控制端口"@
                };
                &&& (s.view == View::Settings ==> (f.input matches Some(i) && i.target == t && i.value@ == dec(
                    port as nat,
                ) && status_after(
                    TuiApp { input: f.input, last_refresh: None, ..s },
                    msg,
                    f,
                )))
                &&& (s.view != View::Settings ==> f == (TuiApp { last_refresh: None, ..s }))
            },
            SettingRow::ExternalController => {
                &&& !r
                &&& f.confirm matches Some(c) && c.prompt@ == external_controller_prompt(st) && c.action == (
                ConfirmAction::ToggleExternalController { enabled: !st.external_controller.enabled })
                &&& f == (TuiApp { confirm: f.confirm, last_refresh: None, ..s })
            },
            SettingRow::Tun => {
                &&& !r
                &&& f.confirm matches Some(c) && c.prompt@ == tun_prompt(st) && c.action == (ConfirmAction::ToggleTun {
                    enabled: !st.tun_enabled,
                })
                &&& f == (TuiApp { confirm: f.confirm, last_refresh: None, ..s })
            },
            SettingRow::SystemProxy => {
                &&& !r
                &&& f.confirm matches Some(c) && c.prompt@ == system_proxy_prompt(st) && c.action == (
                ConfirmAction::ToggleSystemProxy { enabled: !st.system_proxy_enabled })
                &&& f == (TuiApp { confirm: f.confirm, last_refresh: None, ..s })
            },
            _ => r && f == s,
        },
    }
}

/// The message after a display preference was saved.
pub open spec fn preference_message(row: SettingRow, p: crate::labels::DisplayPreference) -> Seq<char> {
    let (name, var) = match row {
        SettingRow::TuiTheme => ("主题"@, "CLASH_TUI_THEME"@),
        SettingRow::TuiDisplayMode => ("终端显示"@, "CLASH_TUI_DISPLAY_MODE"@),
        _ => ("中文标点"@, "CLASH_TUI_PUNCTUATION_MODE"@),
    };
    if p.overridden {
        name + "已保存为 "@ + p.configured_label@ + "；当前受 "@ + var + " 覆盖为 "@ + p.effective_label@
    } else {
        name + "已切换为 "@ + p.effective_label@
    }
}

/// What a settings row asks the configuration for at once, with the value
/// it requests. The theme, display and punctuation rows and the download
/// proxy row ask for the choice after the configured one; that cycle
/// belongs to the display settings and the core's configuration.
#[derive(Debug, Clone, PartialEq, Eq)]
pub enum SettingRequest {
    Dns(bool),
    Ipv6(bool),
    AllowLan(bool),
    UnifiedDelay(bool),
    NextTheme,
    NextDisplayMode,
    NextPunctuationMode,
    LogLevel(String),
    NextDownloadProxy,
    CoreLog(bool),
}

/// The request of an immediate settings row, given the current settings:
/// a switch asks for the opposite of its value, the log level for the next
/// level in the cycle.
pub open spec fn request_for(q: SettingRequest, row: SettingRow, st: SettingsSummary) -> bool {
    match row {
        SettingRow::Dns => q == SettingRequest::Dns(!st.dns_enabled),
        SettingRow::Ipv6 => q == SettingRequest::Ipv6(!st.ipv6),
        SettingRow::AllowLan => q == SettingRequest::AllowLan(!st.allow_lan),
        SettingRow::UnifiedDelay => q == SettingRequest::UnifiedDelay(!st.unified_delay),
        SettingRow::TuiTheme => q == SettingRequest::NextTheme,
        SettingRow::TuiDisplayMode => q == SettingRequest::NextDisplayMode,
        SettingRow::TuiPunctuationMode => q == SettingRequest::NextPunctuationMode,
        SettingRow::LogLevel => q matches SettingRequest::LogLevel(l) && l@ == next_log_level_text(st.log_level@),
        SettingRow::RuleProviderDownloadProxy => q == SettingRequest::NextDownloadProxy,
        SettingRow::CoreLog => q == SettingRequest::CoreLog(!st.core_log_enabled),
        _ => false,
    }
}

/// The message after a request was applied: the log level and the core log
/// name the requested value; the display rows and the download proxy name
/// what the settings that came back (`st`) hold.
pub open spec fn setting_applied_text(q: SettingRequest, st: SettingsSummary) -> Seq<char> {
    match q {
        SettingRequest::Dns(_) => "DNS 覆写已切换"@,
        SettingRequest::Ipv6(_) => "IPv6 已切换"@,
        SettingRequest::AllowLan(_) => "允许局域网已切换"@,
        SettingRequest::UnifiedDelay(_) => "统一延迟已切换"@,
        SettingRequest::NextTheme => preference_message(SettingRow::TuiTheme, st.tui_theme),
        SettingRequest::NextDisplayMode => preference_message(SettingRow::TuiDisplayMode, st.tui_display_mode),
        SettingRequest::NextPunctuationMode => preference_message(
            SettingRow::TuiPunctuationMode,
            st.tui_punctuation_mode,
        ),
        SettingRequest::LogLevel(l) => "日志等级已设置为 "@ + l@,
        SettingRequest::NextDownloadProxy => "规则 Provider 下载已切换为"@ + st.rule_provider_download_proxy@,
        SettingRequest::CoreLog(e) => "核心日志已"@ + on_off(e) + "，下次启动 Core 生效"@,
    }
}

fn preference_status(row: SettingRow, p: &crate::labels::DisplayPreference) -> (r: String)
    ensures
        r@ == preference_message(row, *p),
{
    let (name, var) = match row {
        SettingRow::TuiTheme => ("主题", "CLASH_TUI_THEME"),
        SettingRow::TuiDisplayMode => ("终端显示", "CLASH_TUI_DISPLAY_MODE"),
        _ => ("中文标点", "CLASH_TUI_PUNCTUATION_MODE"),
    };
    let mut v: Vec<char> = Vec::new();
    push_str(&mut v, name);
    if p.overridden {
        push_str(&mut v, "已保存为 ");
        push_str(&mut v, p.configured_label.as_str());
        push_str(&mut v, "；当前受 ");
        push_str(&mut v, var);
        push_str(&mut v, " 覆盖为 ");
        push_str(&mut v, p.effective_label.as_str());
    } else {
        push_str(&mut v, "已切换为 ");
        push_str(&mut v, p.effective_label.as_str());
    }
    from_chars(&v)
}

/// The message after a request was applied; `settings` are the settings
/// that came back.
pub fn setting_applied_status(request: &SettingRequest, settings: &SettingsSummary) -> (r: String)
    ensures
        r@ == setting_applied_text(*request, *settings),
{
    match request {
        SettingRequest::Dns(_) => owned("DNS 覆写已切换"),
        SettingRequest::Ipv6(_) => owned("IPv6 已切换"),
        SettingRequest::AllowLan(_) => owned("允许局域网已切换"),
        SettingRequest::UnifiedDelay(_) => owned("统一延迟已切换"),
        SettingRequest::NextTheme => preference_status(SettingRow::TuiTheme, &settings.tui_theme),
        SettingRequest::NextDisplayMode => preference_status(SettingRow::TuiDisplayMode, &settings.tui_display_mode),
        SettingRequest::NextPunctuationMode => preference_status(
            SettingRow::TuiPunctuationMode,
            &settings.tui_punctuation_mode,
        ),
        SettingRequest::LogLevel(level) => {
            let mut v: Vec<char> = Vec::new();
            push_str(&mut v, "日志等级已设置为 ");
            push_str(&mut v, level.as_str());
            from_chars(&v)
        },
        SettingRequest::NextDownloadProxy => {
            let mut v: Vec<char> = Vec::new();
            push_str(&mut v, "规则 Provider 下载已切换为");
            push_str(&mut v, settings.rule_provider_download_proxy.as_str());
            from_chars(&v)
        },
        SettingRequest::CoreLog(enabled) => {
            let mut v: Vec<char> = Vec::new();
            push_str(&mut v, "核心日志已");
            push_str(&mut v, bool_label(*enabled));
            push_str(&mut v, "，下次启动 Core 生效");
            from_chars(&v)
        },
    }
}

/// The rows that change a setting at once: all but the port inputs and the
/// rows that ask for confirmation.
pub open spec fn immediate_row(row: SettingRow) -> bool {
    !(row == SettingRow::MixedPort || row == SettingRow::ExternalControllerPort || row
        == SettingRow::ExternalController || row == SettingRow::Tun || row == SettingRow::SystemProxy)
}

/// The request of an immediate settings row (`None` for the rows that open
/// an input or ask for confirmation).
pub fn setting_request(row: SettingRow, st: &SettingsSummary) -> (r: Option<SettingRequest>)
    ensures
        r is Some <==> immediate_row(row),
        r matches Some(q) ==> request_for(q, row, *st),
{
    match row {
        SettingRow::Dns => Some(SettingRequest::Dns(!st.dns_enabled)),
        SettingRow::Ipv6 => Some(SettingRequest::Ipv6(!st.ipv6)),
        SettingRow::AllowLan => Some(SettingRequest::AllowLan(!st.allow_lan)),
        SettingRow::UnifiedDelay => Some(SettingRequest::UnifiedDelay(!st.unified_delay)),
        SettingRow::TuiTheme => Some(SettingRequest::NextTheme),
        SettingRow::TuiDisplayMode => Some(SettingRequest::NextDisplayMode),
        SettingRow::TuiPunctuationMode => Some(SettingRequest::NextPunctuationMode),
        SettingRow::LogLevel => Some(SettingRequest::LogLevel(owned(next_log_level(st.log_level.as_str())))),
        SettingRow::RuleProviderDownloadProxy => Some(SettingRequest::NextDownloadProxy),
        SettingRow::CoreLog => Some(SettingRequest::CoreLog(!st.core_log_enabled)),
        _ => None,
    }
}

/// What `edit_selected_setting` does: `s` before, `f` after.
pub open spec fn edit_selected_setting_done(s: TuiApp, f: TuiApp) -> bool {
    &&& (s.view != View::Settings ==> f == s)
    &&& (s.view == View::Settings ==> ({
            let s = s;
            let row = settings_rows_seq()[s.setting_index as int];
            if row == SettingRow::MixedPort || row == SettingRow::ExternalControllerPort {
                let t = if row == SettingRow::MixedPort {
                    InputTarget::MixedPort
                } else {
                    InputTarget::ExternalControllerPort
                };
                let value = match s.settings {
                    Some(st) => dec(
                        (if row == SettingRow::MixedPort {
                            st.mixed_port
                        } else {
                            st.external_controller.port
                        }) as nat,
                    ),
                    None => Seq::empty(),
                };
                let msg = if row == SettingRow::MixedPort {
                    "正在编辑混合端口"@
                } else {
                    "正在编辑外部控制端口"@
                };
                &&& f.input matches Some(i) && i.target == t && i.value@ == value
                &&& status_after(TuiApp { input: f.input, ..s }, msg, f)
            } else {
                status_after(s, "该设置请按 Enter 切换"@, f)
            }
        }))
}

impl TuiApp {
    /// Opens the port input of the selected settings row.
    pub fn edit_selected_setting(&mut self)
        requires
            old(self).setting_index < SETTINGS_ROW_COUNT,
        ensures
            edit_selected_setting_done(*old(self), *final(self)),
    {
        if self.view != View::Settings {
            return;
        }
        let rows = settings_rows();
        let row = rows[self.setting_index];
        match row {
            SettingRow::MixedPort => {
                let value = match &self.settings {
                    Some(st) => crate::strs::dec_string(st.mixed_port as u64),
                    None => String::new(),
                };
                self.input = Some(InputState { target: InputTarget::MixedPort, value });
                self.set_status("正在编辑混合端口");
            },
            SettingRow::ExternalControllerPort => {
                let value = match &self.settings {
                    Some(st) => crate::strs::dec_string(st.external_controller.port as u64),
                    None => String::new(),
                };
                self.input = Some(InputState { target: InputTarget::ExternalControllerPort, value });
                self.set_status("正在编辑外部控制端口");
            },
            _ => {
                self.set_status("该设置请按 Enter 切换");
            },
        }
    }

    /// What Enter on the selected settings row does without knowing the
    /// core's state: port rows open their input, the external controller,
    /// TUN and the system proxy ask for confirmation. Returns `true` for the
    /// rows that need the caller: it learns the core's state and calls
    /// `activate_selected_setting`.
    pub fn settings_row_now(&mut self) -> (r: bool)
        requires
            old(self).setting_index < SETTINGS_ROW_COUNT,
        ensures
            setting_now(*old(self), *final(self), r),
    {
        if self.settings.is_none() {
            self.set_status("设置尚未加载");
            return false;
        }
        let rows = settings_rows();
        let row = rows[self.setting_index];
        match row {
            SettingRow::MixedPort | SettingRow::ExternalControllerPort => {
                self.edit_selected_setting();
                self.last_refresh = None;
                false
            },
            SettingRow::ExternalController => {
                let c = match &self.settings {
                    Some(st) => external_controller_confirm(st),
                    None => {
                        return false;
                    },
                };
                self.confirm = Some(c);
                self.last_refresh = None;
                false
            },
            SettingRow::Tun => {
                self.confirm_dashboard_tun();
                self.last_refresh = None;
                false
            },
            SettingRow::SystemProxy => {
                self.confirm_dashboard_system_proxy();
                self.last_refresh = None;
                false
            },
            _ => true,
        }
    }
}

/// The core's states in which a new core log setting waits for a restart.
pub open spec fn core_busy_for_log(k: KernelState) -> bool {
    k == KernelState::Running || k == KernelState::Starting || k == KernelState::Restarting || k
        == KernelState::Unhealthy
}

/// Enter on a settings row, knowing the core's state `kernel`. `r` is the
/// request the caller applies at once, if any.
pub open spec fn setting_with_core(s: TuiApp, f: TuiApp, kernel: KernelState, r: Option<SettingRequest>) -> bool {
    match s.settings {
        Some(st) => {
            let row = settings_rows_seq()[s.setting_index as int];
            if row == SettingRow::CoreLog && core_busy_for_log(kernel) {
                &&& r is None
                &&& f.confirm matches Some(c) && c.prompt@ == core_log_prompt(!st.core_log_enabled) && c.action == (
                ConfirmAction::ToggleCoreLog { enabled: !st.core_log_enabled })
                &&& f == (TuiApp { confirm: f.confirm, last_refresh: None, ..s })
            } else {
                &&& setting_now(s, f, r is Some)
                &&& (r matches Some(q) ==> request_for(q, row, st))
            }
        },
        None => r is None && setting_now(s, f, false),
    }
}

fn core_log_confirm(st: &SettingsSummary) -> (c: ConfirmState)
    ensures
        c.prompt@ == core_log_prompt(!st.core_log_enabled),
        c.action == (ConfirmAction::ToggleCoreLog { enabled: !st.core_log_enabled }),
{
    let mut v: Vec<char> = Vec::new();
    push_str(&mut v, "确认");
    push_str(&mut v, bool_action_label(!st.core_log_enabled));
    push_str(&mut v, "核心日志？Core 运行中需要重启后生效，y 确认 / n 取消");
    ConfirmState { prompt: from_chars(&v), action: ConfirmAction::ToggleCoreLog { enabled: !st.core_log_enabled } }
}

impl TuiApp {
    /// Activates the selected settings row while the core is in state
    /// `kernel`: as `settings_row_now`, except that the core log row asks
    /// for confirmation while the core runs, starts, restarts or is
    /// unhealthy (the change takes effect after a restart). The other rows
    /// that change a setting at once leave the state as it is and return
    /// the request to apply (then `setting_applied_status`).
    pub fn activate_selected_setting(&mut self, kernel: KernelState) -> (r: Option<SettingRequest>)
        requires
            old(self).setting_index < SETTINGS_ROW_COUNT,
        ensures
            setting_with_core(*old(self), *final(self), kernel, r),
    {
        let rows = settings_rows();
        let row = rows[self.setting_index];
        let is_core_log = match row {
            SettingRow::CoreLog => true,
            _ => false,
        };
        if is_core_log && self.settings.is_some() {
            let busy = match kernel {
                KernelState::Running | KernelState::Starting | KernelState::Restarting | KernelState::Unhealthy => true,
                _ => false,
            };
            if busy {
                let c = match &self.settings {
                    Some(st) => core_log_confirm(st),
                    None => {
                        return None;
                    },
                };
                self.confirm = Some(c);
                self.last_refresh = None;
                return None;
            }
        }
        if self.settings_row_now() {
            match &self.settings {
                Some(st) => setting_request(row, st),
                None => None,
            }
        } else {
            None
        }
    }
}

fn system_proxy_confirm(st: &SettingsSummary) -> (c: ConfirmState)
    ensures
        c.prompt@ == system_proxy_prompt(*st),
        c.action == (ConfirmAction::ToggleSystemProxy { enabled: !st.system_proxy_enabled }),
{
    let e = &st.system_proxy_diagnostics.endpoint;
    let mut v: Vec<char> = Vec::new();
    push_str(&mut v, "确认");
    push_str(&mut v, bool_action_label(!st.system_proxy_enabled));
    push_str(&mut v, "系统代理？");
    if st.system_proxy_diagnostics.can_auto_apply {
        push_str(&mut v, "当前环境自动应用可用，将设置 ");
        push_str(&mut v, e.host.as_str());
        push_str(&mut v, ":");
        push_usize(&mut v, e.port as usize);
    } else {
        push_str(&mut v, "当前环境需手动配置 HTTP/HTTPS/SOCKS ");
        push_str(&mut v, e.host.as_str());
        push_str(&mut v, ":");
        push_usize(&mut v, e.port as usize);
        push_str(&mut v, "，失败会回滚");
    }
    push_str(&mut v, "；会修改本机代理设置，y 确认 / n 取消");
    ConfirmState {
        prompt: from_chars(&v),
        action: ConfirmAction::ToggleSystemProxy { enabled: !st.system_proxy_enabled },
    }
}

fn external_controller_confirm(st: &SettingsSummary) -> (c: ConfirmState)
    ensures
        c.prompt@ == external_controller_prompt(*st),
        c.action == (ConfirmAction::ToggleExternalController { enabled: !st.external_controller.enabled }),
{
    let mut v: Vec<char> = Vec::new();
    push_str(&mut v, "确认");
    push_str(&mut v, bool_action_label(!st.external_controller.enabled));
    push_str(&mut v, "外部控制器？开启后 mihomo 将监听本机 127.0.0.1:");
    push_usize(&mut v, st.external_controller.port as usize);
    push_str(&mut v, "，y 确认 / n 取消");
    ConfirmState {
        prompt: from_chars(&v),
        action: ConfirmAction::ToggleExternalController { enabled: !st.external_controller.enabled },
    }
}


impl TuiApp {
    /// After the core closed every connection.
    pub fn all_connections_closed(&mut self)
        ensures
            final(self).connections@.len() == 0,
            status_after(
                TuiApp { connections: final(self).connections, connection_index: 0, ..*old(self) },
                "已关闭全部连接"@,
                *final(self),
            ),
    {
        self.connections.clear();
        self.connection_index = 0;
        self.set_status("已关闭全部连接");
    }

    /// After the logs were cleared.
    pub fn logs_cleared(&mut self)
        ensures
            final(self).logs@.len() == 0,
            status_after(
                TuiApp { logs: final(self).logs, log_index: 0, ..*old(self) },
                "已清空日志"@,
                *final(self),
            ),
    {
        self.logs.clear();
        self.log_index = 0;
        self.set_status("已清空日志");
    }
}

} // verus!
