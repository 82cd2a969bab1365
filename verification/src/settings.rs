//! Lines and columns of the settings page.
use vstd::prelude::*;
use vstd::string::*;
use crate::labels::{
    bool_label, on_off, setting_label, setting_label_text, setting_value, setting_value_text, settings_rows,
    settings_rows_seq, EnvironmentCheck, SettingsSummary,
};
use crate::frame::{content_rows, content_rows_of, page_content_width, page_width_of, Rect};
use crate::layout::{fit_display_width, fit_text, stable_text, table_cell_text};
use crate::selection::{index_position, position, visible_indices, window_start};
use crate::state::TuiApp;
use crate::xtask::str_views;
use crate::models::SettingRow;
use crate::strs::{
    blank, chars_contains_str, chars_starts_with, chars_sub, contains, dec, from_chars, owned,
    push_dec, push_str, starts_with, str_blank, str_eq, to_chars, views,
};

verus! {

/// What Enter does on a settings row.
pub open spec fn action_text(row: SettingRow) -> Seq<char> {
    match row {
        SettingRow::MixedPort | SettingRow::ExternalControllerPort => "编辑"@,
        SettingRow::CoreLog | SettingRow::ExternalController | SettingRow::Tun
        | SettingRow::SystemProxy => "确认"@,
        SettingRow::TuiTheme | SettingRow::TuiDisplayMode | SettingRow::TuiPunctuationMode
        | SettingRow::RuleProviderDownloadProxy | SettingRow::LogLevel => "循环"@,
        _ => "切换"@,
    }
}

/// What Enter does on a settings row: edit, confirm, cycle or toggle.
pub fn setting_action(row: SettingRow) -> (r: &'static str)
    ensures
        r@ == action_text(row),
{
    match row {
        SettingRow::MixedPort | SettingRow::ExternalControllerPort => "编辑",
        SettingRow::CoreLog | SettingRow::ExternalController | SettingRow::Tun
        | SettingRow::SystemProxy => "确认",
        SettingRow::TuiTheme | SettingRow::TuiDisplayMode | SettingRow::TuiPunctuationMode
        | SettingRow::RuleProviderDownloadProxy | SettingRow::LogLevel => "循环",
        _ => "切换",
    }
}

pub open spec fn description_text(row: SettingRow) -> Seq<char> {
    match row {
        SettingRow::Dns => "覆写 runtime DNS 配置"@,
        SettingRow::Ipv6 => "写入 runtime IPv6 开关"@,
        SettingRow::AllowLan => "允许局域网访问 mixed-port"@,
        SettingRow::UnifiedDelay => "统一测速延迟计算"@,
        SettingRow::TuiTheme => "深橙/蓝色；统一全局背景"@,
        SettingRow::TuiDisplayMode => "标准/基础线框"@,
        SettingRow::TuiPunctuationMode => "保留/优化标点/常见标点"@,
        SettingRow::RuleProviderDownloadProxy => "规则 Provider 下载走配置或直连"@,
        SettingRow::LogLevel => "循环 debug/info/warning/error/silent"@,
        SettingRow::CoreLog => "控制 mihomo 日志落盘；运行中需重启"@,
        SettingRow::MixedPort => "编辑本机混合代理端口"@,
        SettingRow::ExternalController => "mihomo REST；默认关闭"@,
        SettingRow::ExternalControllerPort => "仅外部控制器开启后监听"@,
        SettingRow::Tun => "需确认；Core 运行中会重启"@,
        SettingRow::SystemProxy => "需确认；修改桌面代理"@,
    }
}

/// The description column of a settings row.
pub fn setting_description(row: SettingRow) -> (r: &'static str)
    ensures
        r@ == description_text(row),
{
    match row {
        SettingRow::Dns => "覆写 runtime DNS 配置",
        SettingRow::Ipv6 => "写入 runtime IPv6 开关",
        SettingRow::AllowLan => "允许局域网访问 mixed-port",
        SettingRow::UnifiedDelay => "统一测速延迟计算",
        SettingRow::TuiTheme => "深橙/蓝色；统一全局背景",
        SettingRow::TuiDisplayMode => "标准/基础线框",
        SettingRow::TuiPunctuationMode => "保留/优化标点/常见标点",
        SettingRow::RuleProviderDownloadProxy => "规则 Provider 下载走配置或直连",
        SettingRow::LogLevel => "循环 debug/info/warning/error/silent",
        SettingRow::CoreLog => "控制 mihomo 日志落盘；运行中需重启",
        SettingRow::MixedPort => "编辑本机混合代理端口",
        SettingRow::ExternalController => "mihomo REST；默认关闭",
        SettingRow::ExternalControllerPort => "仅外部控制器开启后监听",
        SettingRow::Tun => "需确认；Core 运行中会重启",
        SettingRow::SystemProxy => "需确认；修改桌面代理",
    }
}

/// The channel to the controller: a Unix socket shows as a local socket,
/// without its path.
pub open spec fn channel_text(endpoint: Seq<char>) -> Seq<char> {
    if starts_with(endpoint, "Unix"@) {
        "本机 Socket"@
    } else {
        "未知"@
    }
}

/// Names the controller channel without showing its path.
pub fn controller_channel_label(endpoint: &str) -> (r: &'static str)
    ensures
        r@ == channel_text(endpoint@),
{
    let c = to_chars(endpoint);
    if chars_starts_with(&c, "Unix") {
        "本机 Socket"
    } else {
        "未知"
    }
}

/// The controller state in short words: healthy, not connected, no
/// permission, a timed-out health check, or the status text itself.
pub open spec fn controller_state_text(status: Seq<char>) -> Seq<char> {
    if starts_with(status, "控制器：健康，"@) {
        "正常"@
    } else if contains(status, "failed to connect mihomo unix socket"@) {
        "未连接"@
    } else if contains(status, "Permission denied"@) || contains(status, "权限"@) {
        "权限不足"@
    } else if starts_with(status, "控制器："@) {
        let message = status.skip(4);
        if contains(message, "timed out"@) || contains(message, "timeout"@) || contains(
            message,
            "超时"@,
        ) {
            "健康检查超时"@
        } else {
            message
        }
    } else {
        status
    }
}

/// The controller state column.
pub fn controller_state_label(controller_status: &str) -> (r: String)
    ensures
        r@ == controller_state_text(controller_status@),
{
    let s = to_chars(controller_status);
    if chars_starts_with(&s, "控制器：健康，") {
        return owned("正常");
    }
    if chars_contains_str(&s, "failed to connect mihomo unix socket") {
        return owned("未连接");
    }
    if chars_contains_str(&s, "Permission denied") || chars_contains_str(&s, "权限") {
        return owned("权限不足");
    }
    if chars_starts_with(&s, "控制器：") {
        proof {
            reveal_strlit("控制器：");
        }
        let message = chars_sub(&s, 4, s.len());
        proof {
            assert(message@ =~= controller_status@.skip(4));
        }
        if chars_contains_str(&message, "timed out") || chars_contains_str(&message, "timeout")
            || chars_contains_str(&message, "超时") {
            return owned("健康检查超时");
        }
        return from_chars(&message);
    }
    owned(controller_status)
}

/// A request timeout: whole seconds when it is a multiple of a second.
pub open spec fn timeout_text(millis: nat) -> Seq<char> {
    if millis >= 1000 && millis % 1000 == 0 {
        dec(millis / 1000) + "秒"@
    } else {
        dec(millis) + "ms"@
    }
}

/// Writes the controller request timeout.
pub fn format_controller_timeout(timeout_millis: u64) -> (r: String)
    ensures
        r@ == timeout_text(timeout_millis as nat),
{
    let mut v: Vec<char> = Vec::new();
    if timeout_millis >= 1000 && timeout_millis % 1000 == 0 {
        push_dec(&mut v, timeout_millis / 1000);
        push_str(&mut v, "秒");
    } else {
        push_dec(&mut v, timeout_millis);
        push_str(&mut v, "ms");
    }
    from_chars(&v)
}

/// The controller line of the settings page.
pub open spec fn channel_line_text(s: SettingsSummary, status: Seq<char>) -> Seq<char> {
    "控制通道："@ + channel_text(s.controller_endpoint@) + " | 状态："@ + controller_state_text(status)
        + " | 请求超时："@ + timeout_text(s.controller_timeout_millis as nat)
}

/// The controller line of the settings page.
pub fn controller_channel_line(settings: &SettingsSummary, controller_status: &str) -> (r: String)
    ensures
        r@ == channel_line_text(*settings, controller_status@),
{
    let mut v = to_chars("控制通道：");
    push_str(&mut v, controller_channel_label(settings.controller_endpoint.as_str()));
    push_str(&mut v, " | 状态：");
    push_str(&mut v, controller_state_label(controller_status).as_str());
    push_str(&mut v, " | 请求超时：");
    push_str(&mut v, format_controller_timeout(settings.controller_timeout_millis).as_str());
    from_chars(&v)
}

pub open spec fn source_text(source: Seq<char>) -> Seq<char> {
    if source == "mihomo"@ {
        "运行中"@
    } else {
        "配置"@
    }
}

/// Where the external controller settings come from: the running core, or
/// the configuration.
pub fn external_controller_source_label(source: &str) -> (r: &'static str)
    ensures
        r@ == source_text(source@),
{
    if str_eq(source, "mihomo") {
        "运行中"
    } else {
        "配置"
    }
}

/// The external controller line: state, address (or only the port when
/// off), source, and a warning when there is one.
pub open spec fn external_line_text(s: SettingsSummary) -> Seq<char> {
    let c = s.external_controller;
    let head = if c.enabled {
        "外部控制：开启 | "@ + c.host@ + ":"@ + dec(c.port as nat) + " | 来源："@ + source_text(
            c.source@,
        )
    } else {
        "外部控制：关闭 | 端口 "@ + dec(c.port as nat) + " | 来源："@ + source_text(c.source@)
    };
    match c.warning {
        Some(w) => if blank(w@) {
            head
        } else {
            head + " | "@ + w@
        },
        None => head,
    }
}

/// The external controller line of the settings page.
pub fn external_controller_line(settings: &SettingsSummary) -> (r: String)
    ensures
        r@ == external_line_text(*settings),
{
    let c = &settings.external_controller;
    let mut v: Vec<char> = Vec::new();
    if c.enabled {
        push_str(&mut v, "外部控制：开启 | ");
        push_str(&mut v, c.host.as_str());
        push_str(&mut v, ":");
        push_dec(&mut v, c.port as u64);
    } else {
        push_str(&mut v, "外部控制：关闭 | 端口 ");
        push_dec(&mut v, c.port as u64);
    }
    push_str(&mut v, " | 来源：");
    push_str(&mut v, external_controller_source_label(c.source.as_str()));
    if let Some(w) = &c.warning {
        if !str_blank(w.as_str()) {
            push_str(&mut v, " | ");
            push_str(&mut v, w.as_str());
        }
    }
    from_chars(&v)
}

/// The message of the first failed check, or `fallback` when all passed.
pub open spec fn first_failure(checks: Seq<EnvironmentCheck>, fallback: Seq<char>) -> Seq<char>
    decreases checks.len(),
{
    if checks.len() == 0 {
        fallback
    } else if !checks[0].ok {
        checks[0].message@
    } else {
        first_failure(checks.skip(1), fallback)
    }
}

fn first_failure_message(checks: &Vec<EnvironmentCheck>, fallback: &String) -> (r: String)
    ensures
        r@ == first_failure(checks@, fallback@),
{
    let mut i: usize = 0;
    proof {
        assert(checks@.skip(0) =~= checks@);
    }
    while i < checks.len()
        invariant
            i <= checks.len(),
            first_failure(checks@, fallback@) == first_failure(checks@.skip(i as int), fallback@),
        decreases checks.len() - i,
    {
        if !checks[i].ok {
            return owned(checks[i].message.as_str());
        }
        proof {
            assert(checks@.skip(i as int).skip(1) =~= checks@.skip(i + 1));
        }
        i += 1;
    }
    owned(fallback.as_str())
}

/// The system proxy diagnostics line: the endpoint when it can be applied
/// automatically, else the endpoint, the hosts bypassed and the first
/// failed check.
pub open spec fn system_proxy_line_text(s: SettingsSummary) -> Seq<char> {
    let d = s.system_proxy_diagnostics;
    let address = d.endpoint.host@ + ":"@ + dec(d.endpoint.port as nat);
    if d.can_auto_apply {
        "系统代理诊断：自动应用可用 | HTTP/HTTPS/SOCKS "@ + address
    } else {
        "系统代理诊断：需手动配置 | HTTP/HTTPS/SOCKS "@ + address + " | 忽略主机 "@
            + d.endpoint.bypass@ + " | "@ + first_failure(d.checks@, d.message@)
    }
}

/// The system proxy diagnostics line of the settings page.
pub fn system_proxy_diagnostics_line(settings: &SettingsSummary) -> (r: String)
    ensures
        r@ == system_proxy_line_text(*settings),
{
    let d = &settings.system_proxy_diagnostics;
    let mut v: Vec<char> = Vec::new();
    if d.can_auto_apply {
        push_str(&mut v, "系统代理诊断：自动应用可用 | HTTP/HTTPS/SOCKS ");
        push_str(&mut v, d.endpoint.host.as_str());
        push_str(&mut v, ":");
        push_dec(&mut v, d.endpoint.port as u64);
        return from_chars(&v);
    }
    push_str(&mut v, "系统代理诊断：需手动配置 | HTTP/HTTPS/SOCKS ");
    push_str(&mut v, d.endpoint.host.as_str());
    push_str(&mut v, ":");
    push_dec(&mut v, d.endpoint.port as u64);
    push_str(&mut v, " | 忽略主机 ");
    push_str(&mut v, d.endpoint.bypass.as_str());
    push_str(&mut v, " | ");
    let reason = first_failure_message(&d.checks, &d.message);
    push_str(&mut v, reason.as_str());
    from_chars(&v)
}

/// The TUN diagnostics line: ready, or the first failed check.
pub open spec fn tun_line_text(s: SettingsSummary) -> Seq<char> {
    let d = s.tun_diagnostics;
    if d.can_enable {
        "TUN 诊断：基本条件可用 | /dev/net/tun 与权限已满足"@
    } else {
        "TUN 诊断：需处理环境 | "@ + first_failure(d.checks@, d.message@)
    }
}

/// The TUN diagnostics line of the settings page.
pub fn tun_diagnostics_line(settings: &SettingsSummary) -> (r: String)
    ensures
        r@ == tun_line_text(*settings),
{
    let d = &settings.tun_diagnostics;
    if d.can_enable {
        return owned("TUN 诊断：基本条件可用 | /dev/net/tun 与权限已满足");
    }
    let mut v = to_chars("TUN 诊断：需处理环境 | ");
    let reason = first_failure_message(&d.checks, &d.message);
    push_str(&mut v, reason.as_str());
    from_chars(&v)
}

/// The page of the settings once they are loaded: the lines above the
/// table, the table's header, its rows and which shown row is selected.
#[derive(Debug)]
pub struct SettingsPage {
    pub lines: Vec<String>,
    pub header: Vec<&'static str>,
    pub rows: Vec<Vec<String>>,
    pub selected: Option<usize>,
}

/// The subscription line of the settings page.
pub open spec fn subscription_line_text(app: TuiApp, w: nat) -> Seq<char> {
    match app.subscription_status {
        Some(ss) => fit_text(
            "订阅启动检查："@ + on_off(ss.scheduler.startup_check_enabled) + " | 后台定时器："@ + on_off(
                ss.scheduler.enabled,
            )
                + " | 到期才更新"@,
            w,
        ),
        None => "订阅启动检查：尚未刷新"@,
    }
}

/// The lines above the settings table, each fitted to `w` cells.
pub open spec fn settings_head_lines(app: TuiApp, st: SettingsSummary, w: nat) -> Seq<Seq<char>> {
    seq![
        fit_text("主目录："@ + st.home_dir@, w),
        fit_text(channel_line_text(st, app.controller_status@), w),
        fit_text(external_line_text(st), w),
        subscription_line_text(app, w),
        fit_text("网络接管：系统代理修改桌面代理设置；TUN 由 mihomo runtime 接管全局流量"@, w),
        fit_text(system_proxy_line_text(st), w),
        fit_text(tun_line_text(st), w),
        fit_text("生效边界：Core 运行中切换 TUN/外部控制器会重启 Core；Core 未运行则下次启动生效"@, w),
        "操作：Enter 切换/循环 | e 编辑选中值"@,
    ]
}

/// The table's header: with a description column on pages at least 76
/// cells wide.
pub open spec fn settings_header_text(described: bool) -> Seq<Seq<char>> {
    if described {
        seq![""@, "设置项"@, "当前值"@, "操作"@, "说明"@]
    } else {
        seq![""@, "设置项"@, "当前值"@, "操作"@]
    }
}

/// The cells of the settings row at position `i`: the cursor marker, the
/// label, the value, the action and (on wide pages) the description.
pub open spec fn settings_row_cells(i: usize, selected: usize, st: SettingsSummary, described: bool) -> Seq<
    Seq<char>,
> {
    let row = settings_rows_seq()[i as int];
    let base = seq![
        if i == selected {
            ">"@
        } else {
            " "@
        },
        stable_text(setting_label_text(row)),
        stable_text(setting_value_text(row, st)),
        stable_text(action_text(row)),
    ];
    if described {
        base.push(stable_text(description_text(row)))
    } else {
        base
    }
}

/// The positions of all settings rows.
pub open spec fn all_setting_positions() -> Seq<usize> {
    Seq::new(15, |i: int| i as usize)
}

/// The settings rows an area shows: a window of the table's height around
/// the selected row.
pub open spec fn settings_window(app: TuiApp, area: Rect) -> Seq<usize> {
    let all = all_setting_positions();
    let max = content_rows_of(area, 8) as nat;
    if all.len() <= max {
        all
    } else {
        all.subrange(window_start(all, app.setting_index, max), window_start(all, app.setting_index, max) + max)
    }
}

/// The settings page of `app` in `area`; `None` while no settings are
/// loaded (the page then reads 设置不可用：刷新失败或状态正忙).
pub fn settings_page(app: &TuiApp, area: Rect) -> (r: Option<SettingsPage>)
    ensures
        r is None <==> app.settings is None,
        r matches Some(p) ==> app.settings matches Some(st) && {
            let w = page_width_of(area) as nat;
            let described = page_width_of(area) >= 76;
            let win = settings_window(*app, area);
            &&& views(p.lines@) == settings_head_lines(*app, st, w)
            &&& str_views(p.header@) == settings_header_text(described)
            &&& p.rows@.len() == win.len()
            &&& forall|k: int|
                0 <= k < win.len() ==> views(#[trigger] p.rows@[k]@) == settings_row_cells(
                    win[k],
                    app.setting_index,
                    st,
                    described,
                )
            &&& match position(win, app.setting_index) {
                Some(k) => p.selected == Some(k as usize),
                None => p.selected is None,
            }
        },
{
    let st = match &app.settings {
        Some(st) => st,
        None => {
            return None;
        },
    };
    let width = page_content_width(area);
    let described = width >= 76;
    let ghost w = width as nat;
    let mut home = to_chars("主目录：");
    push_str(&mut home, st.home_dir.as_str());
    let home_line = from_chars(&home);
    let subscription = match &app.subscription_status {
        Some(ss) => {
            let sc = ss.scheduler;
            let mut v = to_chars("订阅启动检查：");
            push_str(&mut v, bool_label(sc.startup_check_enabled));
            push_str(&mut v, " | 后台定时器：");
            push_str(&mut v, bool_label(sc.enabled));
            push_str(&mut v, " | 到期才更新");
            let t = from_chars(&v);
            fit_display_width(t.as_str(), width)
        },
        None => owned("订阅启动检查：尚未刷新"),
    };
    let channel = controller_channel_line(st, app.controller_status.as_str());
    let external = external_controller_line(st);
    let proxy = system_proxy_diagnostics_line(st);
    let tun = tun_diagnostics_line(st);
    let lines = vec![
        fit_display_width(home_line.as_str(), width),
        fit_display_width(channel.as_str(), width),
        fit_display_width(external.as_str(), width),
        subscription,
        fit_display_width("网络接管：系统代理修改桌面代理设置；TUN 由 mihomo runtime 接管全局流量", width),
        fit_display_width(proxy.as_str(), width),
        fit_display_width(tun.as_str(), width),
        fit_display_width("生效边界：Core 运行中切换 TUN/外部控制器会重启 Core；Core 未运行则下次启动生效", width),
        owned("操作：Enter 切换/循环 | e 编辑选中值"),
    ];
    proof {
        assert(views(lines@) =~= settings_head_lines(*app, *st, w));
    }
    let header: Vec<&'static str> = if described {
        vec!["", "设置项", "当前值", "操作", "说明"]
    } else {
        vec!["", "设置项", "当前值", "操作"]
    };
    proof {
        assert(str_views(header@) =~= settings_header_text(described));
    }
    let all: Vec<usize> = vec![0, 1, 2, 3, 4, 5, 6, 7, 8, 9, 10, 11, 12, 13, 14];
    proof {
        assert(all@ =~= all_setting_positions());
    }
    let max_rows = content_rows(area, 8);
    let win = visible_indices(all.as_slice(), app.setting_index, max_rows);
    proof {
        assert(win@ == settings_window(*app, area));
    }
    let table = settings_rows();
    let mut rows: Vec<Vec<String>> = Vec::new();
    let mut k: usize = 0;
    while k < win.len()
        invariant
            k <= win.len(),
            table@ == settings_rows_seq(),
            win@ == settings_window(*app, area),
            forall|j: int| 0 <= j < win@.len() ==> #[trigger] win@[j] < 15,
            rows@.len() == k,
            forall|j: int|
                0 <= j < k ==> views(#[trigger] rows@[j]@) == settings_row_cells(
                    win@[j],
                    app.setting_index,
                    *st,
                    described,
                ),
        decreases win.len() - k,
    {
        let i = win[k];
        let row = table[i];
        let marker = if i == app.setting_index {
            owned(">")
        } else {
            owned(" ")
        };
        let value = setting_value(row, st);
        let mut cells: Vec<String> = vec![
            marker,
            table_cell_text(setting_label(row)),
            table_cell_text(value.as_str()),
            table_cell_text(setting_action(row)),
        ];
        if described {
            cells.push(table_cell_text(setting_description(row)));
        }
        proof {
            assert(views(cells@) =~= settings_row_cells(i, app.setting_index, *st, described));
        }
        rows.push(cells);
        k += 1;
    }
    let selected = index_position(win.as_slice(), app.setting_index);
    Some(SettingsPage { lines, header, rows, selected })
}

} // verus!
