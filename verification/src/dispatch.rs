//! Carrying out a key press: the state changes that need no outside work
//! happen here; what needs the core, the controller or the disk is handed
//! back to the caller as an outcome.
use vstd::prelude::*;
use vstd::view::View as _;
use crate::strs::{from_chars, push_str, trim};
use crate::input::KeyCode;
use crate::keys::{KeyCommand, key_command, key_command_spec};
use crate::models::{ConfirmAction, DashboardProxyPopup, InputState, InputTarget, View};
use crate::navigation::{
    move_selection_done, move_to_edge_done, set_view_done, view_after, view_before, SETTINGS_ROW_COUNT,
};
use crate::panes::{
    cycle_log_level_filter_done, cycle_proxy_node_sort_done, focus_next_proxy_pane_done,
    move_provider_selection_done, move_provider_to_edge_done, open_dashboard_proxy_groups_done,
    open_dashboard_proxy_nodes_done,
};
use crate::commands::{
    confirm_clear_logs_done, confirm_close_all_connections_done, confirm_close_selected_connection_done,
    confirm_dashboard_system_proxy_done, confirm_dashboard_tun_done, confirm_delete_profile_done,
    confirm_switch_profile_done, controller_port_prompt, edit_selected_setting_done, input_backspace_done,
    input_char_done, open_selected_connection_detail_done, open_selected_job_detail_done,
    open_selected_log_detail_done, port_verdict, query_of, rule_summary_text, setting_now, start_search_done,
    start_local_profile_import_done, start_subscription_import_done, status_after, toggle_log_follow_done,
    with_query,
};
use crate::interaction::context_of;
use crate::proxy_select::{dashboard_group, focus_dashboard_nodes_on_current, remember_dashboard_group};
use crate::state::{open_status_history_done, TuiApp};

verus! {

/// What is left to do after a key press.
#[derive(Debug, Clone, PartialEq, Eq)]
pub enum KeyOutcome {
    /// Nothing more.
    Handled,
    /// Leave the client.
    Quit,
    /// Outside work named by the command.
    Perform(KeyCommand),
    /// Carry out the confirmed action.
    Confirmed(ConfirmAction),
    /// Set the mixed port to this value.
    ApplyMixedPort(u16),
    /// Import what the input box held.
    Submitted(InputState),
}

/// The message after Enter on the dashboard's group popup.
pub open spec fn located_group_text(s: TuiApp) -> Seq<char> {
    match dashboard_group(s) {
        Some(g) => "已定位代理组："@ + g.name@ + "，请选择节点"@,
        None => "未选择代理组"@,
    }
}

/// What Enter does on the current page.
pub open spec fn activate_done(s: TuiApp, f: TuiApp, r: KeyOutcome) -> bool {
    match s.view {
        View::Dashboard => match s.dashboard_proxy_popup {
            DashboardProxyPopup::Closed => r == KeyOutcome::Handled && open_dashboard_proxy_nodes_done(s, f),
            DashboardProxyPopup::Groups => r == KeyOutcome::Handled && status_after(
                TuiApp {
                    dashboard_proxy_popup: DashboardProxyPopup::Nodes,
                    ..focus_dashboard_nodes_on_current(
                        remember_dashboard_group(TuiApp { dashboard_proxy_user_selected: true, ..s }),
                    )
                },
                located_group_text(s),
                f,
            ),
            DashboardProxyPopup::Nodes => r == KeyOutcome::Perform(KeyCommand::ActivateSelected) && f == s,
        },
        View::Profiles => r == KeyOutcome::Handled && confirm_switch_profile_done(s, f),
        View::Proxies => r == KeyOutcome::Perform(KeyCommand::ActivateSelected) && f == s,
        View::Logs => r == KeyOutcome::Handled && open_selected_log_detail_done(s, f),
        View::Settings => exists|b: bool|
            #![auto]
            setting_now(s, f, b) && r == (if b {
                KeyOutcome::Perform(KeyCommand::ActivateSelected)
            } else {
                KeyOutcome::Handled
            }),
        View::Rules => r == KeyOutcome::Handled && status_after(s, rule_summary_text(s), f),
        View::Connections => r == KeyOutcome::Handled && open_selected_connection_detail_done(s, f),
        View::Jobs => r == KeyOutcome::Handled && open_selected_job_detail_done(s, f),
    }
}

/// What submitting the input box does; `s` has the input box closed.
pub open spec fn submit_done(s: TuiApp, i: InputState, f: TuiApp, r: KeyOutcome) -> bool {
    match i.target {
        InputTarget::Search(v) => r == KeyOutcome::Handled && query_of(f, v) == (if v == View::Dashboard || v
            == View::Settings {
            query_of(s, v)
        } else {
            trim(i.value@)
        }) && status_after(
            TuiApp { last_refresh: None, ..crate::navigation::clamped_all(with_query(s, v, f)) },
            "过滤已更新"@,
            f,
        ),
        InputTarget::MixedPort => match port_verdict(i.value@, "混合端口必须大于 0"@) {
            Ok(p) => r == KeyOutcome::ApplyMixedPort(p as u16) && f == s,
            Err(e) => r == KeyOutcome::Handled && status_after(
                TuiApp { last_refresh: None, ..s },
                "错误："@ + e,
                f,
            ),
        },
        InputTarget::ExternalControllerPort => match port_verdict(i.value@, "外部控制端口必须大于 0"@) {
            Ok(p) => {
                &&& r == KeyOutcome::Handled
                &&& f.confirm matches Some(c) && c.prompt@ == controller_port_prompt(p) && c.action == (
                ConfirmAction::SetExternalControllerPort { port: p as u16 })
                &&& f == (TuiApp { confirm: f.confirm, last_refresh: None, ..s })
            },
            Err(e) => r == KeyOutcome::Handled && status_after(
                TuiApp { last_refresh: None, ..s },
                "错误："@ + e,
                f,
            ),
        },
        InputTarget::ImportLocalProfilePath | InputTarget::ImportSubscriptionUrl => r == KeyOutcome::Submitted(i)
            && f == s,
    }
}

/// A command carried out entirely by the caller.
pub open spec fn outside_command(cmd: KeyCommand) -> bool {
    match cmd {
        KeyCommand::ProviderUpdateSelected | KeyCommand::ProviderUpdateAll | KeyCommand::ProviderRefresh
        | KeyCommand::RunDiagnose | KeyCommand::ExportDiagnose | KeyCommand::RefreshNow | KeyCommand::ToggleCore
        | KeyCommand::RestartCore | KeyCommand::RetryJob | KeyCommand::CycleMode | KeyCommand::ToggleDns
        | KeyCommand::UpdateSubscription | KeyCommand::UpdateAllSubscriptions | KeyCommand::OpenProviderDialog(_)
        | KeyCommand::TestProxyDelay | KeyCommand::CancelJob => true,
        _ => false,
    }
}

/// What carrying out `cmd` does: `s` before, `f` after, `r` what is left.
pub open spec fn command_done(s: TuiApp, cmd: KeyCommand, f: TuiApp, r: KeyOutcome) -> bool {
    if outside_command(cmd) {
        f == s && r == KeyOutcome::Perform(cmd)
    } else {
        match cmd {
            KeyCommand::Nothing => f == s && r == KeyOutcome::Handled,
            KeyCommand::Quit => f == s && r == KeyOutcome::Quit,
            KeyCommand::CloseHelp => r == KeyOutcome::Handled && status_after(
                TuiApp { show_help: false, ..s },
                "已关闭帮助"@,
                f,
            ),
            KeyCommand::CloseDetail => r == KeyOutcome::Handled && status_after(
                TuiApp { detail: None, ..s },
                "已关闭详情"@,
                f,
            ),
            KeyCommand::ConfirmAccept => f == (TuiApp { confirm: None, ..s }) && r == match s.confirm {
                Some(c) => KeyOutcome::Confirmed(c.action),
                None => KeyOutcome::Handled,
            },
            KeyCommand::ConfirmCancel => r == KeyOutcome::Handled && status_after(
                TuiApp { confirm: None, ..s },
                "已取消"@,
                f,
            ),
            KeyCommand::InputSubmit => match s.input {
                None => f == s && r == KeyOutcome::Handled,
                Some(i) => submit_done(TuiApp { input: None, ..s }, i, f, r),
            },
            KeyCommand::InputCancel => r == KeyOutcome::Handled && status_after(
                TuiApp { input: None, ..s },
                "已取消输入"@,
                f,
            ),
            KeyCommand::InputBackspace => r == KeyOutcome::Handled && input_backspace_done(s, f),
            KeyCommand::InputChar(c) => r == KeyOutcome::Handled && input_char_done(s, c, f),
            KeyCommand::ProviderClose => r == KeyOutcome::Handled && status_after(
                TuiApp { provider_dialog: None, ..s },
                "已关闭 Provider"@,
                f,
            ),
            KeyCommand::ProviderMove(d) => r == KeyOutcome::Handled && move_provider_selection_done(
                s,
                d as isize,
                f,
            ),
            KeyCommand::ProviderEdge(e) => r == KeyOutcome::Handled && move_provider_to_edge_done(s, e, f),
            KeyCommand::ClosePopup => r == KeyOutcome::Handled && status_after(
                TuiApp { dashboard_proxy_popup: DashboardProxyPopup::Closed, ..s },
                "已收起首页代理选择"@,
                f,
            ),
            KeyCommand::SetView(v) => r == KeyOutcome::Handled && set_view_done(s, v, f),
            KeyCommand::NextView => r == KeyOutcome::Handled && set_view_done(s, view_after(s.view), f),
            KeyCommand::PreviousView => r == KeyOutcome::Handled && set_view_done(s, view_before(s.view), f),
            KeyCommand::Move(d) => r == KeyOutcome::Handled && move_selection_done(s, d as isize, f),
            KeyCommand::MoveToEdge(e) => r == KeyOutcome::Handled && move_to_edge_done(s, e, f),
            KeyCommand::ShowHelp => r == KeyOutcome::Handled && status_after(
                TuiApp { show_help: true, ..s },
                "帮助：Esc/? 关闭，q 退出"@,
                f,
            ),
            KeyCommand::OpenStatusHistory => r == KeyOutcome::Handled && open_status_history_done(s, f),
            KeyCommand::StartSearch => r == KeyOutcome::Handled && start_search_done(s, f),
            KeyCommand::StartSubscriptionImport => r == KeyOutcome::Handled && start_subscription_import_done(s, f),
            KeyCommand::StartLocalProfileImport => r == KeyOutcome::Handled && start_local_profile_import_done(
                s,
                f,
            ),
            KeyCommand::ActivateSelected => activate_done(s, f, r),
            KeyCommand::OpenDashboardProxyGroups => r == KeyOutcome::Handled && open_dashboard_proxy_groups_done(
                s,
                f,
            ),
            KeyCommand::ConfirmSystemProxy => r == KeyOutcome::Handled && confirm_dashboard_system_proxy_done(s, f),
            KeyCommand::ConfirmTun => r == KeyOutcome::Handled && confirm_dashboard_tun_done(s, f),
            KeyCommand::ConfirmDeleteProfile => r == KeyOutcome::Handled && confirm_delete_profile_done(s, f),
            KeyCommand::FocusNextProxyPane => r == KeyOutcome::Handled && focus_next_proxy_pane_done(s, f),
            KeyCommand::CycleProxyNodeSort => r == KeyOutcome::Handled && cycle_proxy_node_sort_done(s, f),
            KeyCommand::ToggleLogFollow => r == KeyOutcome::Handled && toggle_log_follow_done(s, f),
            KeyCommand::CycleLogLevelFilter => r == KeyOutcome::Handled && cycle_log_level_filter_done(s, f),
            KeyCommand::ConfirmClearLogs => r == KeyOutcome::Handled && confirm_clear_logs_done(s, f),
            KeyCommand::ConfirmCloseAllConnections => r == KeyOutcome::Handled
                && confirm_close_all_connections_done(s, f),
            KeyCommand::ConfirmCloseConnection => r == KeyOutcome::Handled && confirm_close_selected_connection_done(
                s,
                f,
            ),
            KeyCommand::EditSetting => r == KeyOutcome::Handled && edit_selected_setting_done(s, f),
            _ => false,
        }
    }
}

fn located_group_message(app: &TuiApp) -> (r: String)
    ensures
        r@ == located_group_text(*app),
{
    match app.dashboard_proxy_group() {
        Some(g) => {
            let mut v: Vec<char> = Vec::new();
            push_str(&mut v, "已定位代理组：");
            push_str(&mut v, g.name.as_str());
            push_str(&mut v, "，请选择节点");
            from_chars(&v)
        },
        None => crate::strs::owned("未选择代理组"),
    }
}

impl TuiApp {
    /// Enter on the current page: what needs no outside work happens here.
    pub fn activate_selected(&mut self) -> (r: KeyOutcome)
        requires
            old(self).setting_index < SETTINGS_ROW_COUNT,
        ensures
            activate_done(*old(self), *final(self), r),
    {
        match self.view {
            View::Dashboard => match self.dashboard_proxy_popup {
                DashboardProxyPopup::Closed => {
                    self.open_dashboard_proxy_nodes();
                    KeyOutcome::Handled
                },
                DashboardProxyPopup::Groups => {
                    let msg = located_group_message(self);
                    self.dashboard_proxy_user_selected = true;
                    self.remember_dashboard_proxy_group_selection();
                    self.focus_dashboard_proxy_nodes_on_current();
                    self.dashboard_proxy_popup = DashboardProxyPopup::Nodes;
                    self.set_status(msg.as_str());
                    KeyOutcome::Handled
                },
                DashboardProxyPopup::Nodes => KeyOutcome::Perform(KeyCommand::ActivateSelected),
            },
            View::Profiles => {
                self.confirm_switch_profile();
                KeyOutcome::Handled
            },
            View::Proxies => KeyOutcome::Perform(KeyCommand::ActivateSelected),
            View::Logs => {
                self.open_selected_log_detail();
                KeyOutcome::Handled
            },
            View::Settings => {
                let b = self.settings_row_now();
                if b {
                    KeyOutcome::Perform(KeyCommand::ActivateSelected)
                } else {
                    KeyOutcome::Handled
                }
            },
            View::Rules => {
                let summary = self.selected_rule_summary();
                self.set_status(summary.as_str());
                KeyOutcome::Handled
            },
            View::Connections => {
                self.open_selected_connection_detail();
                KeyOutcome::Handled
            },
            View::Jobs => {
                self.open_selected_job_detail();
                KeyOutcome::Handled
            },
        }
    }

    /// Submits the open input box.
    fn submit_input(&mut self) -> (r: KeyOutcome)
        ensures
            match old(self).input {
                None => *final(self) == *old(self) && r == KeyOutcome::Handled,
                Some(i) => submit_done(TuiApp { input: None, ..*old(self) }, i, *final(self), r),
            },
    {
        let i = match self.input.take() {
            Some(i) => i,
            None => {
                return KeyOutcome::Handled;
            },
        };
        match i.target {
            InputTarget::Search(v) => {
                self.finish_search(v, i.value.as_str());
                KeyOutcome::Handled
            },
            InputTarget::MixedPort | InputTarget::ExternalControllerPort => {
                match self.finish_port_input(i.target, i.value.as_str()) {
                    Some(p) => KeyOutcome::ApplyMixedPort(p),
                    None => KeyOutcome::Handled,
                }
            },
            InputTarget::ImportLocalProfilePath | InputTarget::ImportSubscriptionUrl => KeyOutcome::Submitted(i),
        }
    }

    /// Carries out a command.
    pub fn run_command(&mut self, cmd: KeyCommand) -> (r: KeyOutcome)
        requires
            old(self).setting_index < SETTINGS_ROW_COUNT,
        ensures
            command_done(*old(self), cmd, *final(self), r),
    {
        match cmd {
            KeyCommand::Nothing => KeyOutcome::Handled,
            KeyCommand::Quit => KeyOutcome::Quit,
            KeyCommand::CloseHelp => {
                self.close_help();
                KeyOutcome::Handled
            },
            KeyCommand::CloseDetail => {
                self.close_detail();
                KeyOutcome::Handled
            },
            KeyCommand::ConfirmAccept => match self.confirm.take() {
                Some(c) => KeyOutcome::Confirmed(c.action),
                None => KeyOutcome::Handled,
            },
            KeyCommand::ConfirmCancel => {
                self.cancel_confirm();
                KeyOutcome::Handled
            },
            KeyCommand::InputSubmit => self.submit_input(),
            KeyCommand::InputCancel => {
                self.cancel_input();
                KeyOutcome::Handled
            },
            KeyCommand::InputBackspace => {
                self.input_backspace();
                KeyOutcome::Handled
            },
            KeyCommand::InputChar(c) => {
                self.input_char(c);
                KeyOutcome::Handled
            },
            KeyCommand::ProviderClose => {
                self.close_provider_dialog();
                KeyOutcome::Handled
            },
            KeyCommand::ProviderMove(d) => {
                self.move_provider_selection(d as isize);
                KeyOutcome::Handled
            },
            KeyCommand::ProviderEdge(e) => {
                self.move_provider_to_edge(e);
                KeyOutcome::Handled
            },
            KeyCommand::ClosePopup => {
                self.close_dashboard_popup();
                KeyOutcome::Handled
            },
            KeyCommand::SetView(v) => {
                self.set_view(v);
                KeyOutcome::Handled
            },
            KeyCommand::NextView => {
                self.next_view();
                KeyOutcome::Handled
            },
            KeyCommand::PreviousView => {
                self.previous_view();
                KeyOutcome::Handled
            },
            KeyCommand::Move(d) => {
                self.move_selection(d as isize);
                KeyOutcome::Handled
            },
            KeyCommand::MoveToEdge(e) => {
                self.move_to_edge(e);
                KeyOutcome::Handled
            },
            KeyCommand::ShowHelp => {
                self.show_help_screen();
                KeyOutcome::Handled
            },
            KeyCommand::OpenStatusHistory => {
                self.open_status_history();
                KeyOutcome::Handled
            },
            KeyCommand::StartSearch => {
                self.start_search();
                KeyOutcome::Handled
            },
            KeyCommand::StartSubscriptionImport => {
                self.start_subscription_import();
                KeyOutcome::Handled
            },
            KeyCommand::StartLocalProfileImport => {
                self.start_local_profile_import();
                KeyOutcome::Handled
            },
            KeyCommand::ActivateSelected => self.activate_selected(),
            KeyCommand::OpenDashboardProxyGroups => {
                self.open_dashboard_proxy_groups();
                KeyOutcome::Handled
            },
            KeyCommand::ConfirmSystemProxy => {
                self.confirm_dashboard_system_proxy();
                KeyOutcome::Handled
            },
            KeyCommand::ConfirmTun => {
                self.confirm_dashboard_tun();
                KeyOutcome::Handled
            },
            KeyCommand::ConfirmDeleteProfile => {
                self.confirm_delete_profile();
                KeyOutcome::Handled
            },
            KeyCommand::FocusNextProxyPane => {
                self.focus_next_proxy_pane();
                KeyOutcome::Handled
            },
            KeyCommand::CycleProxyNodeSort => {
                self.cycle_proxy_node_sort();
                KeyOutcome::Handled
            },
            KeyCommand::ToggleLogFollow => {
                self.toggle_log_follow();
                KeyOutcome::Handled
            },
            KeyCommand::CycleLogLevelFilter => {
                self.cycle_log_level_filter();
                KeyOutcome::Handled
            },
            KeyCommand::ConfirmClearLogs => {
                self.confirm_clear_logs();
                KeyOutcome::Handled
            },
            KeyCommand::ConfirmCloseAllConnections => {
                self.confirm_close_all_connections();
                KeyOutcome::Handled
            },
            KeyCommand::ConfirmCloseConnection => {
                self.confirm_close_selected_connection();
                KeyOutcome::Handled
            },
            KeyCommand::EditSetting => {
                self.edit_selected_setting();
                KeyOutcome::Handled
            },
            _ => KeyOutcome::Perform(cmd),
        }
    }

    /// Handles a key press: decides what it means on the current screen
    /// and carries that out as far as no outside work is needed.
    pub fn handle_key(&mut self, code: KeyCode) -> (r: KeyOutcome)
        requires
            old(self).setting_index < SETTINGS_ROW_COUNT,
        ensures
            command_done(*old(self), key_command_spec(context_of(*old(self)), code), *final(self), r),
    {
        let ctx = self.key_context();
        let cmd = key_command(&ctx, code);
        self.run_command(cmd)
    }
}

} // verus!
