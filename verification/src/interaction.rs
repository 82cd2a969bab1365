//! What the footer says about the interaction in progress, and which
//! busy message a key press shows while its work runs.
use vstd::prelude::*;
use vstd::view::View as _;
use crate::strs::{owned, push_str, from_chars};
use crate::text::{safe_text, terminal_safe_text};
use crate::input::KeyCode;
use crate::keys::KeyContext;
use crate::models::{DashboardProxyPopup, LogLevelFilter, ProviderDialogKind, ProxyPane, View};
use crate::frame::{
    confirm_action_busy_message, confirm_busy_text, input_busy_text, input_display_text, input_display_value,
    input_target_busy_message, input_target_title, input_title_text, setting_busy_text, settings_row_busy_message,
    footer_line_strings, help_line_text, status_line_text, FooterState,
};
use crate::labels::{settings_rows, settings_rows_seq};
use crate::navigation::SETTINGS_ROW_COUNT;
use crate::panes::filter_title;
use crate::proxy_select::{dashboard_group, selected_group};
use crate::state::TuiApp;

verus! {

/// What is open on screen, for deciding what a key means.
pub open spec fn context_of(s: TuiApp) -> KeyContext {
    KeyContext {
        view: s.view,
        show_help: s.show_help,
        detail_open: s.detail is Some,
        confirm_open: s.confirm is Some,
        input_open: s.input is Some,
        provider_dialog_open: s.provider_dialog is Some,
        dashboard_popup: s.dashboard_proxy_popup,
    }
}

/// The busy message of Enter on the current page.
pub open spec fn enter_busy_text(s: TuiApp) -> Option<Seq<char>> {
    match s.view {
        View::Dashboard => if s.dashboard_proxy_popup == DashboardProxyPopup::Nodes {
            if dashboard_group(s) matches Some(g) && g.offline {
                None
            } else {
                Some("正在切换代理节点..."@)
            }
        } else {
            None
        },
        View::Proxies => match s.proxy_pane {
            ProxyPane::Nodes => if selected_group(s) matches Some(g) && g.offline {
                None
            } else {
                Some("正在切换代理节点..."@)
            },
            ProxyPane::Groups => None,
        },
        View::Settings => setting_busy_text(settings_rows_seq()[s.setting_index as int]),
        _ => None,
    }
}

/// The busy message shown while the work of a key press runs, if any.
pub open spec fn key_busy_text(s: TuiApp, code: KeyCode) -> Option<Seq<char>> {
    if s.show_help {
        None
    } else if s.confirm is Some {
        match code {
            KeyCode::Char('y') | KeyCode::Char('Y') => Some(confirm_busy_text(s.confirm->0.action)),
            _ => None,
        }
    } else if s.input is Some {
        match code {
            KeyCode::Enter => input_busy_text(s.input->0.target),
            _ => None,
        }
    } else if s.provider_dialog is Some {
        match code {
            KeyCode::Enter | KeyCode::Char('u') | KeyCode::Char('U') => Some("正在更新选中的 Provider..."@),
            KeyCode::Char('a') | KeyCode::Char('A') => Some("正在批量更新 Provider..."@),
            KeyCode::Char('r') => Some("正在刷新 Provider 列表..."@),
            _ => None,
        }
    } else {
        match code {
            KeyCode::Char('D') => Some("正在生成诊断报告..."@),
            KeyCode::Char('E') => Some("正在导出诊断快照..."@),
            KeyCode::Char('r') => Some("正在刷新当前页面..."@),
            KeyCode::Char('s') => Some("正在启停 Core..."@),
            KeyCode::Char('R') => if s.view == View::Dashboard {
                Some("正在重启 Core..."@)
            } else if s.view == View::Jobs {
                Some("正在重试任务..."@)
            } else {
                None
            },
            KeyCode::Char('m') => if s.view == View::Dashboard || s.view == View::Proxies {
                Some("正在切换代理模式..."@)
            } else {
                None
            },
            KeyCode::Char('d') => if s.view == View::Dashboard {
                Some("正在切换 DNS 设置..."@)
            } else {
                None
            },
            KeyCode::Char('u') => if s.view == View::Profiles {
                Some("正在创建订阅更新任务..."@)
            } else {
                None
            },
            KeyCode::Char('a') => if s.view == View::Profiles {
                Some("正在批量检查订阅更新..."@)
            } else {
                None
            },
            KeyCode::Char('p') => if s.view == View::Proxies || s.view == View::Rules {
                Some("正在加载 Provider 列表..."@)
            } else {
                None
            },
            KeyCode::Char('t') => if s.view == View::Proxies {
                Some("正在测速当前光标节点..."@)
            } else {
                None
            },
            KeyCode::Char('c') => if s.view == View::Jobs {
                Some("正在取消任务..."@)
            } else {
                None
            },
            KeyCode::Enter => enter_busy_text(s),
            _ => None,
        }
    }
}

/// A filter line when the query is not empty.
pub open spec fn query_line(q: Seq<char>) -> Seq<char> {
    if q.len() == 0 {
        Seq::empty()
    } else {
        "过滤："@ + q
    }
}

/// The filter line of the log page.
pub open spec fn log_filter_line(s: TuiApp) -> Seq<char> {
    let level = "等级："@ + filter_title(s.log_level_filter);
    let text = "内容："@ + s.log_query@;
    if s.log_level_filter != LogLevelFilter::All && s.log_query@.len() != 0 {
        "过滤："@ + level + " | "@ + text
    } else if s.log_level_filter != LogLevelFilter::All {
        "过滤："@ + level
    } else if s.log_query@.len() != 0 {
        "过滤："@ + text
    } else {
        Seq::empty()
    }
}

pub open spec fn dialog_label(k: ProviderDialogKind) -> Seq<char> {
    match k {
        ProviderDialogKind::Proxy => "代理 Provider"@,
        ProviderDialogKind::Rule => "规则 Provider"@,
    }
}

/// The footer line about the interaction in progress.
pub open spec fn interaction_text(s: TuiApp) -> Seq<char> {
    if s.busy is Some {
        "处理中："@ + safe_text(s.busy->0.message@)
    } else if s.confirm is Some {
        "确认："@ + s.confirm->0.prompt@
    } else if s.input is Some {
        input_title_text(s.input->0.target) + ": "@ + input_display_text(s.input->0) + "  Enter 应用  Esc 取消"@
    } else if s.provider_dialog is Some {
        dialog_label(s.provider_dialog->0) + "：↑↓ 选择，Enter/u 更新选中，a 更新全部，r 刷新，Esc 关闭"@
    } else {
        match s.view {
            View::Dashboard => if s.dashboard_proxy_popup == DashboardProxyPopup::Groups {
                "首页代理组选择：↑↓ 移动，Enter 定位节点，Esc 收起"@
            } else if s.dashboard_proxy_popup == DashboardProxyPopup::Nodes {
                "首页节点选择：↑↓ 移动，Enter 应用节点，Esc 收起"@
            } else {
                Seq::empty()
            },
            View::Profiles => query_line(s.profile_query@),
            View::Proxies => query_line(s.proxy_query@),
            View::Logs => log_filter_line(s),
            View::Rules => query_line(s.rule_query@),
            View::Connections => query_line(s.connection_query@),
            View::Jobs => query_line(s.job_query@),
            View::Settings => Seq::empty(),
        }
    }
}

/// Whether a text is empty.
pub fn str_is_empty(s: &str) -> (b: bool)
    ensures
        b == (s@.len() == 0),
{
    crate::strs::to_chars(s).len() == 0
}

fn query_text(q: &String) -> (r: String)
    ensures
        r@ == query_line(q@),
{
    if str_is_empty(q.as_str()) {
        return String::new();
    }
    let mut v: Vec<char> = Vec::new();
    push_str(&mut v, "过滤：");
    push_str(&mut v, q.as_str());
    from_chars(&v)
}

impl TuiApp {
    /// What is open on screen, for deciding what a key means.
    pub fn key_context(&self) -> (r: KeyContext)
        ensures
            r == context_of(*self),
    {
        KeyContext {
            view: self.view,
            show_help: self.show_help,
            detail_open: self.detail.is_some(),
            confirm_open: self.confirm.is_some(),
            input_open: self.input.is_some(),
            provider_dialog_open: self.provider_dialog.is_some(),
            dashboard_popup: self.dashboard_proxy_popup,
        }
    }

    /// The busy message of Enter on the current page.
    pub fn enter_busy_message(&self) -> (r: Option<&'static str>)
        requires
            self.setting_index < SETTINGS_ROW_COUNT,
        ensures
            match r {
                Some(m) => enter_busy_text(*self) == Some(m@),
                None => enter_busy_text(*self) is None,
            },
    {
        match self.view {
            View::Dashboard => {
                if self.dashboard_proxy_popup == DashboardProxyPopup::Nodes {
                    let offline = match self.dashboard_proxy_group() {
                        Some(g) => g.offline,
                        None => false,
                    };
                    if offline {
                        None
                    } else {
                        Some("正在切换代理节点...")
                    }
                } else {
                    None
                }
            },
            View::Proxies => match self.proxy_pane {
                ProxyPane::Nodes => {
                    let offline = match self.selected_proxy_group() {
                        Some(g) => g.offline,
                        None => false,
                    };
                    if offline {
                        None
                    } else {
                        Some("正在切换代理节点...")
                    }
                },
                ProxyPane::Groups => None,
            },
            View::Settings => {
                let rows = settings_rows();
                settings_row_busy_message(rows[self.setting_index])
            },
            _ => None,
        }
    }

    /// The busy message shown while the work of a key press runs, if any.
    pub fn busy_message_for_key(&self, code: KeyCode) -> (r: Option<&'static str>)
        requires
            self.setting_index < SETTINGS_ROW_COUNT,
        ensures
            match r {
                Some(m) => key_busy_text(*self, code) == Some(m@),
                None => key_busy_text(*self, code) is None,
            },
    {
        if self.show_help {
            return None;
        }
        match &self.confirm {
            Some(c) => {
                return match code {
                    KeyCode::Char('y') | KeyCode::Char('Y') => Some(confirm_action_busy_message(&c.action)),
                    _ => None,
                };
            },
            None => {},
        }
        match &self.input {
            Some(i) => {
                return match code {
                    KeyCode::Enter => input_target_busy_message(i.target),
                    _ => None,
                };
            },
            None => {},
        }
        if self.provider_dialog.is_some() {
            return match code {
                KeyCode::Enter | KeyCode::Char('u') | KeyCode::Char('U') => Some("正在更新选中的 Provider..."),
                KeyCode::Char('a') | KeyCode::Char('A') => Some("正在批量更新 Provider..."),
                KeyCode::Char('r') => Some("正在刷新 Provider 列表..."),
                _ => None,
            };
        }
        let v = self.view;
        match code {
            KeyCode::Char('D') => Some("正在生成诊断报告..."),
            KeyCode::Char('E') => Some("正在导出诊断快照..."),
            KeyCode::Char('r') => Some("正在刷新当前页面..."),
            KeyCode::Char('s') => Some("正在启停 Core..."),
            KeyCode::Char('R') => if v == View::Dashboard {
                Some("正在重启 Core...")
            } else if v == View::Jobs {
                Some("正在重试任务...")
            } else {
                None
            },
            KeyCode::Char('m') => if v == View::Dashboard || v == View::Proxies {
                Some("正在切换代理模式...")
            } else {
                None
            },
            KeyCode::Char('d') => if v == View::Dashboard {
                Some("正在切换 DNS 设置...")
            } else {
                None
            },
            KeyCode::Char('u') => if v == View::Profiles {
                Some("正在创建订阅更新任务...")
            } else {
                None
            },
            KeyCode::Char('a') => if v == View::Profiles {
                Some("正在批量检查订阅更新...")
            } else {
                None
            },
            KeyCode::Char('p') => if v == View::Proxies || v == View::Rules {
                Some("正在加载 Provider 列表...")
            } else {
                None
            },
            KeyCode::Char('t') => if v == View::Proxies {
                Some("正在测速当前光标节点...")
            } else {
                None
            },
            KeyCode::Char('c') => if v == View::Jobs {
                Some("正在取消任务...")
            } else {
                None
            },
            KeyCode::Enter => self.enter_busy_message(),
            _ => None,
        }
    }

    /// The footer line about the interaction in progress.
    pub fn interaction_line(&self) -> (r: String)
        ensures
            r@ == interaction_text(*self),
    {
        match &self.busy {
            Some(b) => {
                let mut v: Vec<char> = Vec::new();
                push_str(&mut v, "处理中：");
                let safe = terminal_safe_text(b.message.as_str());
                push_str(&mut v, safe.as_str());
                return from_chars(&v);
            },
            None => {},
        }
        match &self.confirm {
            Some(c) => {
                let mut v: Vec<char> = Vec::new();
                push_str(&mut v, "确认：");
                push_str(&mut v, c.prompt.as_str());
                return from_chars(&v);
            },
            None => {},
        }
        match &self.input {
            Some(i) => {
                let mut v: Vec<char> = Vec::new();
                push_str(&mut v, input_target_title(i.target));
                push_str(&mut v, ": ");
                let shown = input_display_value(i);
                push_str(&mut v, shown.as_str());
                push_str(&mut v, "  Enter 应用  Esc 取消");
                return from_chars(&v);
            },
            None => {},
        }
        match self.provider_dialog {
            Some(k) => {
                let mut v: Vec<char> = Vec::new();
                push_str(&mut v, k.label());
                push_str(&mut v, "：↑↓ 选择，Enter/u 更新选中，a 更新全部，r 刷新，Esc 关闭");
                return from_chars(&v);
            },
            None => {},
        }
        match self.view {
            View::Dashboard => {
                if self.dashboard_proxy_popup == DashboardProxyPopup::Groups {
                    owned("首页代理组选择：↑↓ 移动，Enter 定位节点，Esc 收起")
                } else if self.dashboard_proxy_popup == DashboardProxyPopup::Nodes {
                    owned("首页节点选择：↑↓ 移动，Enter 应用节点，Esc 收起")
                } else {
                    String::new()
                }
            },
            View::Profiles => query_text(&self.profile_query),
            View::Proxies => query_text(&self.proxy_query),
            View::Logs => {
                let level = self.log_level_filter != LogLevelFilter::All;
                let text = !str_is_empty(self.log_query.as_str());
                if !level && !text {
                    return String::new();
                }
                let mut v: Vec<char> = Vec::new();
                push_str(&mut v, "过滤：");
                if level {
                    push_str(&mut v, "等级：");
                    push_str(&mut v, self.log_level_filter.title());
                }
                if level && text {
                    push_str(&mut v, " | ");
                }
                if text {
                    push_str(&mut v, "内容：");
                    push_str(&mut v, self.log_query.as_str());
                }
                proof {
                    assert(v@ =~= log_filter_line(*self));
                }
                from_chars(&v)
            },
            View::Rules => query_text(&self.rule_query),
            View::Connections => query_text(&self.connection_query),
            View::Jobs => query_text(&self.job_query),
            View::Settings => String::new(),
        }
    }
}

/// What the footer knows of the client.
pub open spec fn footer_state_of(s: TuiApp) -> FooterState {
    FooterState {
        view: s.view,
        dashboard_proxy_popup: s.dashboard_proxy_popup,
        show_help: s.show_help,
        confirm_open: s.confirm is Some,
        input_open: s.input is Some,
        provider_dialog_open: s.provider_dialog is Some,
        has_proxy_providers: s.proxy_providers@.len() > 0,
        has_rule_providers: s.rule_providers@.len() > 0,
    }
}

impl TuiApp {
    /// The three footer lines of the client: status, interaction and key
    /// hints, each fitted to `width`.
    pub fn footer_line_strings(&self, width: usize) -> (r: Vec<String>)
        ensures
            r@.len() == 3,
            r@[0]@ == status_line_text(self.status@, width as nat),
            r@[1]@ == status_line_text(interaction_text(*self), width as nat),
            r@[2]@ == help_line_text(footer_state_of(*self), width as nat),
    {
        let state = FooterState {
            view: self.view,
            dashboard_proxy_popup: self.dashboard_proxy_popup,
            show_help: self.show_help,
            confirm_open: self.confirm.is_some(),
            input_open: self.input.is_some(),
            provider_dialog_open: self.provider_dialog.is_some(),
            has_proxy_providers: self.proxy_providers.len() > 0,
            has_rule_providers: self.rule_providers.len() > 0,
        };
        let interaction = self.interaction_line();
        footer_line_strings(self.status.as_str(), interaction.as_str(), &state, width)
    }
}

} // verus!
