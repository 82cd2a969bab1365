//! Chinese labels for states, settings and outcomes.
use vstd::prelude::*;
use vstd::string::*;
use crate::models::{JobStatus, KernelState, Mode, SettingRow};
use crate::strs::{
    blank, dec, from_chars, join, join_strings, owned, push_dec, push_str, str_blank, str_eq,
    views,
};

verus! {

/// A display preference (theme, display mode, punctuation mode).
#[derive(Debug, Clone, PartialEq, Eq)]
pub struct DisplayPreference {
    pub overridden: bool,
    pub effective_label: String,
    pub configured_label: String,
}

/// The external REST controller of the core.
#[derive(Debug, Clone, PartialEq, Eq)]
pub struct ExternalControllerSummary {
    pub enabled: bool,
    pub unsafe_bind: bool,
    pub host: String,
    pub port: u16,
    pub source: String,
    pub warning: Option<String>,
}

/// One check of the environment.
#[derive(Debug, Clone, PartialEq, Eq)]
pub struct EnvironmentCheck {
    pub ok: bool,
    pub message: String,
}

/// Where the system proxy points.
#[derive(Debug, Clone, PartialEq, Eq)]
pub struct SystemProxyEndpoint {
    pub host: String,
    pub port: u16,
    pub bypass: String,
}

/// Whether the system proxy can be applied automatically.
#[derive(Debug, Clone, PartialEq, Eq)]
pub struct SystemProxyDiagnostics {
    pub can_auto_apply: bool,
    pub endpoint: SystemProxyEndpoint,
    pub checks: Vec<EnvironmentCheck>,
    pub message: String,
}

/// Whether TUN can be enabled.
#[derive(Debug, Clone, PartialEq, Eq)]
pub struct TunDiagnostics {
    pub can_enable: bool,
    pub checks: Vec<EnvironmentCheck>,
    pub message: String,
}

/// The settings the settings page shows.
#[derive(Debug, Clone, PartialEq, Eq)]
pub struct SettingsSummary {
    pub dns_enabled: bool,
    pub ipv6: bool,
    pub allow_lan: bool,
    pub unified_delay: bool,
    pub tui_theme: DisplayPreference,
    pub tui_display_mode: DisplayPreference,
    pub tui_punctuation_mode: DisplayPreference,
    pub log_level: String,
    pub core_log_enabled: bool,
    /// The label of the proxy choice for rule provider downloads.
    pub rule_provider_download_proxy: String,
    pub mixed_port: u16,
    pub external_controller: ExternalControllerSummary,
    pub tun_enabled: bool,
    pub system_proxy_enabled: bool,
    pub home_dir: String,
    pub controller_endpoint: String,
    pub controller_timeout_millis: u64,
    pub system_proxy_diagnostics: SystemProxyDiagnostics,
    pub tun_diagnostics: TunDiagnostics,
}

/// The outcome of switching TUN or the system proxy.
#[derive(Debug, Clone, PartialEq, Eq)]
pub struct SwitchStatus {
    pub enabled: bool,
    pub platform: String,
    pub config_saved: bool,
    pub runtime_generated: bool,
    pub runtime_applied: Option<bool>,
    pub platform_applied: Option<bool>,
    pub requires_core_restart: bool,
    pub core_restarted: bool,
    pub manual_action: Option<String>,
    pub message: String,
}

/// The outcome of applying the external controller settings.
#[derive(Debug, Clone, PartialEq, Eq)]
pub struct ExternalControllerApplyStatus {
    pub message: String,
}

pub open spec fn on_off(enabled: bool) -> Seq<char> {
    if enabled {
        "开启"@
    } else {
        "关闭"@
    }
}

pub open spec fn setting_label_text(row: SettingRow) -> Seq<char> {
    match row {
        SettingRow::Dns => "DNS 覆写"@,
        SettingRow::Ipv6 => "IPv6"@,
        SettingRow::AllowLan => "允许局域网"@,
        SettingRow::UnifiedDelay => "统一延迟"@,
        SettingRow::TuiTheme => "主题"@,
        SettingRow::TuiDisplayMode => "终端显示"@,
        SettingRow::TuiPunctuationMode => "中文标点"@,
        SettingRow::LogLevel => "日志等级"@,
        SettingRow::CoreLog => "核心日志"@,
        SettingRow::RuleProviderDownloadProxy => "规则 Provider 下载"@,
        SettingRow::MixedPort => "混合端口"@,
        SettingRow::ExternalController => "外部控制器"@,
        SettingRow::ExternalControllerPort => "外部控制端口"@,
        SettingRow::Tun => "TUN"@,
        SettingRow::SystemProxy => "系统代理"@,
    }
}

/// The label of a settings row.
pub fn setting_label(row: SettingRow) -> (r: &'static str)
    ensures
        r@ == setting_label_text(row),
{
    match row {
        SettingRow::Dns => "DNS 覆写",
        SettingRow::Ipv6 => "IPv6",
        SettingRow::AllowLan => "允许局域网",
        SettingRow::UnifiedDelay => "统一延迟",
        SettingRow::TuiTheme => "主题",
        SettingRow::TuiDisplayMode => "终端显示",
        SettingRow::TuiPunctuationMode => "中文标点",
        SettingRow::LogLevel => "日志等级",
        SettingRow::CoreLog => "核心日志",
        SettingRow::RuleProviderDownloadProxy => "规则 Provider 下载",
        SettingRow::MixedPort => "混合端口",
        SettingRow::ExternalController => "外部控制器",
        SettingRow::ExternalControllerPort => "外部控制端口",
        SettingRow::Tun => "TUN",
        SettingRow::SystemProxy => "系统代理",
    }
}

/// A display preference: the effective value marked temporary when it
/// overrides the configured one.
pub open spec fn preference_text(p: DisplayPreference) -> Seq<char> {
    if p.overridden {
        p.effective_label@ + "(临时)"@
    } else {
        p.configured_label@
    }
}

pub open spec fn setting_value_text(row: SettingRow, s: SettingsSummary) -> Seq<char> {
    match row {
        SettingRow::Dns => on_off(s.dns_enabled),
        SettingRow::Ipv6 => on_off(s.ipv6),
        SettingRow::AllowLan => on_off(s.allow_lan),
        SettingRow::UnifiedDelay => on_off(s.unified_delay),
        SettingRow::TuiTheme => preference_text(s.tui_theme),
        SettingRow::TuiDisplayMode => preference_text(s.tui_display_mode),
        SettingRow::TuiPunctuationMode => preference_text(s.tui_punctuation_mode),
        SettingRow::LogLevel => s.log_level@,
        SettingRow::CoreLog => on_off(s.core_log_enabled),
        SettingRow::RuleProviderDownloadProxy => s.rule_provider_download_proxy@,
        SettingRow::MixedPort => dec(s.mixed_port as nat),
        SettingRow::ExternalController => if s.external_controller.enabled {
            if s.external_controller.unsafe_bind {
                "开启(远程)"@
            } else {
                "开启"@
            }
        } else {
            "关闭"@
        },
        SettingRow::ExternalControllerPort => dec(s.external_controller.port as nat),
        SettingRow::Tun => on_off(s.tun_enabled),
        SettingRow::SystemProxy => on_off(s.system_proxy_enabled),
    }
}

fn preference_value(p: &DisplayPreference) -> (r: String)
    ensures
        r@ == preference_text(*p),
{
    if p.overridden {
        let mut v: Vec<char> = Vec::new();
        push_str(&mut v, p.effective_label.as_str());
        push_str(&mut v, "(临时)");
        from_chars(&v)
    } else {
        owned(p.configured_label.as_str())
    }
}

/// The current value of a settings row.
pub fn setting_value(row: SettingRow, settings: &SettingsSummary) -> (r: String)
    ensures
        r@ == setting_value_text(row, *settings),
{
    match row {
        SettingRow::Dns => owned(bool_label(settings.dns_enabled)),
        SettingRow::Ipv6 => owned(bool_label(settings.ipv6)),
        SettingRow::AllowLan => owned(bool_label(settings.allow_lan)),
        SettingRow::UnifiedDelay => owned(bool_label(settings.unified_delay)),
        SettingRow::TuiTheme => preference_value(&settings.tui_theme),
        SettingRow::TuiDisplayMode => preference_value(&settings.tui_display_mode),
        SettingRow::TuiPunctuationMode => preference_value(&settings.tui_punctuation_mode),
        SettingRow::LogLevel => owned(settings.log_level.as_str()),
        SettingRow::CoreLog => owned(bool_label(settings.core_log_enabled)),
        SettingRow::RuleProviderDownloadProxy => owned(
            settings.rule_provider_download_proxy.as_str(),
        ),
        SettingRow::MixedPort => {
            let mut v: Vec<char> = Vec::new();
            push_dec(&mut v, settings.mixed_port as u64);
            proof {
                assert(v@ =~= dec(settings.mixed_port as nat));
            }
            from_chars(&v)
        },
        SettingRow::ExternalController => {
            if settings.external_controller.enabled {
                if settings.external_controller.unsafe_bind {
                    owned("开启(远程)")
                } else {
                    owned("开启")
                }
            } else {
                owned("关闭")
            }
        },
        SettingRow::ExternalControllerPort => {
            let mut v: Vec<char> = Vec::new();
            push_dec(&mut v, settings.external_controller.port as u64);
            proof {
                assert(v@ =~= dec(settings.external_controller.port as nat));
            }
            from_chars(&v)
        },
        SettingRow::Tun => owned(bool_label(settings.tun_enabled)),
        SettingRow::SystemProxy => owned(bool_label(settings.system_proxy_enabled)),
    }
}

/// The rows of the settings page, top to bottom.
pub open spec fn settings_rows_seq() -> Seq<SettingRow> {
    seq![
        SettingRow::TuiTheme,
        SettingRow::TuiDisplayMode,
        SettingRow::TuiPunctuationMode,
        SettingRow::MixedPort,
        SettingRow::LogLevel,
        SettingRow::CoreLog,
        SettingRow::RuleProviderDownloadProxy,
        SettingRow::Dns,
        SettingRow::Ipv6,
        SettingRow::AllowLan,
        SettingRow::UnifiedDelay,
        SettingRow::ExternalController,
        SettingRow::ExternalControllerPort,
        SettingRow::SystemProxy,
        SettingRow::Tun,
    ]
}

/// The rows of the settings page, top to bottom.
pub fn settings_rows() -> (rows: Vec<SettingRow>)
    ensures
        rows@ == settings_rows_seq(),
{
    let rows = vec![
        SettingRow::TuiTheme,
        SettingRow::TuiDisplayMode,
        SettingRow::TuiPunctuationMode,
        SettingRow::MixedPort,
        SettingRow::LogLevel,
        SettingRow::CoreLog,
        SettingRow::RuleProviderDownloadProxy,
        SettingRow::Dns,
        SettingRow::Ipv6,
        SettingRow::AllowLan,
        SettingRow::UnifiedDelay,
        SettingRow::ExternalController,
        SettingRow::ExternalControllerPort,
        SettingRow::SystemProxy,
        SettingRow::Tun,
    ];
    proof {
        assert(rows@ =~= settings_rows_seq());
    }
    rows
}

/// Every row of the settings page appears exactly once.
pub proof fn law_settings_rows_distinct()
    ensures
        settings_rows_seq().len() == 15,
        forall|i: int, j: int|
            0 <= i < j < 15 ==> settings_rows_seq()[i] != settings_rows_seq()[j],
        forall|r: SettingRow| settings_rows_seq().contains(r),
{
    assert forall|r: SettingRow| settings_rows_seq().contains(r) by {
        match r {
            SettingRow::TuiTheme => assert(settings_rows_seq()[0] == r),
            SettingRow::TuiDisplayMode => assert(settings_rows_seq()[1] == r),
            SettingRow::TuiPunctuationMode => assert(settings_rows_seq()[2] == r),
            SettingRow::MixedPort => assert(settings_rows_seq()[3] == r),
            SettingRow::LogLevel => assert(settings_rows_seq()[4] == r),
            SettingRow::CoreLog => assert(settings_rows_seq()[5] == r),
            SettingRow::RuleProviderDownloadProxy => assert(settings_rows_seq()[6] == r),
            SettingRow::Dns => assert(settings_rows_seq()[7] == r),
            SettingRow::Ipv6 => assert(settings_rows_seq()[8] == r),
            SettingRow::AllowLan => assert(settings_rows_seq()[9] == r),
            SettingRow::UnifiedDelay => assert(settings_rows_seq()[10] == r),
            SettingRow::ExternalController => assert(settings_rows_seq()[11] == r),
            SettingRow::ExternalControllerPort => assert(settings_rows_seq()[12] == r),
            SettingRow::SystemProxy => assert(settings_rows_seq()[13] == r),
            SettingRow::Tun => assert(settings_rows_seq()[14] == r),
        }
    }
}

pub open spec fn next_log_level_text(current: Seq<char>) -> Seq<char> {
    if current == "debug"@ {
        "info"@
    } else if current == "info"@ {
        "warning"@
    } else if current == "warning"@ {
        "error"@
    } else if current == "error"@ {
        "silent"@
    } else {
        "debug"@
    }
}

/// The log level that follows `current` in the cycle
/// debug → info → warning → error → silent → debug.
pub fn next_log_level(current: &str) -> (r: &'static str)
    ensures
        r@ == next_log_level_text(current@),
{
    if str_eq(current, "debug") {
        "info"
    } else if str_eq(current, "info") {
        "warning"
    } else if str_eq(current, "warning") {
        "error"
    } else if str_eq(current, "error") {
        "silent"
    } else {
        "debug"
    }
}

/// `开启` or `关闭`.
pub fn bool_label(enabled: bool) -> (r: &'static str)
    ensures
        r@ == on_off(enabled),
{
    if enabled {
        "开启"
    } else {
        "关闭"
    }
}

/// `可用` or `不可用`.
pub fn alive_label(alive: bool) -> (r: &'static str)
    ensures
        r@ == (if alive {
            "可用"@
        } else {
            "不可用"@
        }),
{
    if alive {
        "可用"
    } else {
        "不可用"
    }
}

/// The label of an action that switches something on or off.
pub fn bool_action_label(enabled: bool) -> (r: &'static str)
    ensures
        r@ == on_off(enabled),
{
    if enabled {
        "开启"
    } else {
        "关闭"
    }
}

/// `已受理` or `未受理`.
pub fn accepted_label(accepted: bool) -> (r: &'static str)
    ensures
        r@ == (if accepted {
            "已受理"@
        } else {
            "未受理"@
        }),
{
    if accepted {
        "已受理"
    } else {
        "未受理"
    }
}

/// The label of a routing mode.
pub fn mode_label(mode: Mode) -> (r: &'static str)
    ensures
        r@ == match mode {
            Mode::Rule => "规则"@,
            Mode::Global => "全局"@,
            Mode::Direct => "直连"@,
        },
{
    match mode {
        Mode::Rule => "规则",
        Mode::Global => "全局",
        Mode::Direct => "直连",
    }
}

pub open spec fn kernel_state_text(state: KernelState) -> Seq<char> {
    match state {
        KernelState::Stopped => "已停止"@,
        KernelState::Starting => "启动中"@,
        KernelState::Running => "运行中"@,
        KernelState::Stopping => "停止中"@,
        KernelState::Restarting => "重启中"@,
        KernelState::Updating => "更新中"@,
        KernelState::Unhealthy => "异常"@,
        KernelState::Crashed => "已崩溃"@,
    }
}

/// The label of a core state.
pub fn kernel_state_label(state: KernelState) -> (r: &'static str)
    ensures
        r@ == kernel_state_text(state),
{
    match state {
        KernelState::Stopped => "已停止",
        KernelState::Starting => "启动中",
        KernelState::Running => "运行中",
        KernelState::Stopping => "停止中",
        KernelState::Restarting => "重启中",
        KernelState::Updating => "更新中",
        KernelState::Unhealthy => "异常",
        KernelState::Crashed => "已崩溃",
    }
}

pub open spec fn job_status_text(status: JobStatus) -> Seq<char> {
    match status {
        JobStatus::Pending => "等待中"@,
        JobStatus::Running => "运行中"@,
        JobStatus::Succeeded => "成功"@,
        JobStatus::Failed => "失败"@,
        JobStatus::Cancelled => "已取消"@,
    }
}

/// The label of a job state.
pub fn job_status_label(status: JobStatus) -> (r: &'static str)
    ensures
        r@ == job_status_text(status),
{
    match status {
        JobStatus::Pending => "等待中",
        JobStatus::Running => "运行中",
        JobStatus::Succeeded => "成功",
        JobStatus::Failed => "失败",
        JobStatus::Cancelled => "已取消",
    }
}

/// `n` divided by `d`, rounded up.
pub open spec fn ceil_div(n: nat, d: nat) -> nat {
    if d == 0 {
        0
    } else {
        ((n + d - 1) as nat / d) as nat
    }
}

/// The number `n` with `(n - 1) * d < e <= n * d` is `e / d` rounded up.
pub proof fn lemma_ceil_unique(e: nat, d: nat, n: nat)
    requires
        d > 0,
    ensures
        e > 0 && (n - 1) * d < e && e <= n * d ==> ceil_div(e, d) == n,
{
    if e > 0 && (n - 1) * d < e && e <= n * d {
        assert(n >= 1) by (nonlinear_arith)
            requires
                e > 0,
                e <= n * d,
                d > 0,
        ;
        let m: int = n - 1;
        assert((e + d - 1) / (d as int) == n) by (nonlinear_arith)
            requires
                m * d < e,
                e <= (m + 1) * d,
                d > 0,
                n == m + 1,
        ;
    }
}

/// How long until a point in time, in whole units: now reads 现在; under a
/// minute the seconds themselves; under an hour the minutes `m` rounded up,
/// `(m - 1) * 60 < seconds <= m * 60`; under a day the rounded-up minutes
/// `m` split into `h` hours and `k` minutes (`m == 60 * h + k`), where a
/// whole day reads 1天后 and no spare minutes read as hours alone; beyond,
/// the days `n` rounded up.
pub proof fn law_seconds_until_units(s: nat, m: nat, h: nat, k: nat)
    ensures
        s == 0 ==> seconds_until_text(s) == "现在"@,
        1 <= s <= 59 ==> seconds_until_text(s) == dec(s) + "秒后"@,
        60 <= s <= 3599 && (m - 1) * 60 < s <= m * 60
            ==> seconds_until_text(s) == dec(m) + "分钟后"@ && 1 <= m <= 60,
        3600 <= s <= 86399 && (m - 1) * 60 < s <= m * 60 && m == 60 * h + k && k < 60 ==> {
            &&& 60 <= m <= 1440
            &&& h >= 24 ==> seconds_until_text(s) == "1天后"@
            &&& h < 24 && k == 0 ==> seconds_until_text(s) == dec(h) + "小时后"@
            &&& h < 24 && k > 0 ==> seconds_until_text(s) == dec(h) + "小时"@ + dec(k) + "分钟后"@
        },
        86400 <= s && (m - 1) * 86400 < s <= m * 86400
            ==> seconds_until_text(s) == dec(m) + "天后"@ && m >= 1,
{
    lemma_ceil_unique(s, 60, m);
    lemma_ceil_unique(s, 86400, m);
    if 60 <= s && (m - 1) * 60 < s <= m * 60 {
        assert(s <= 86399 ==> 1 <= m <= 1440) by (nonlinear_arith)
            requires
                60 <= s,
                (m - 1) * 60 < s <= m * 60,
        ;
        assert(3600 <= s ==> 60 <= m) by (nonlinear_arith)
            requires
                (m - 1) * 60 < s <= m * 60,
        ;
        assert(s <= 3599 ==> m <= 60) by (nonlinear_arith)
            requires
                (m - 1) * 60 < s,
        ;
    }
    if 86400 <= s && (m - 1) * 86400 < s <= m * 86400 {
        assert(m >= 1) by (nonlinear_arith)
            requires
                86400 <= s <= m * 86400,
        ;
    }
    if 3600 <= s <= 86399 && (m - 1) * 60 < s <= m * 60 && m == 60 * h + k && k < 60 {
        assert(m / 60 == h && m % 60 == k) by (nonlinear_arith)
            requires
                m == 60 * h + k,
                k < 60,
        ;
    }
}

/// How long until a point in time, for `seconds` from now.
pub open spec fn seconds_until_text(seconds: nat) -> Seq<char> {
    if seconds == 0 {
        "现在"@
    } else if seconds <= 59 {
        dec(seconds) + "秒后"@
    } else if seconds <= 3599 {
        dec(ceil_div(seconds, 60)) + "分钟后"@
    } else if seconds <= 86399 {
        let total_minutes = ceil_div(seconds, 60);
        let hours = total_minutes / 60;
        let minutes = total_minutes % 60;
        if hours >= 24 {
            "1天后"@
        } else if minutes == 0 {
            dec(hours) + "小时后"@
        } else {
            dec(hours) + "小时"@ + dec(minutes) + "分钟后"@
        }
    } else {
        dec(ceil_div(seconds, 86400)) + "天后"@
    }
}

/// How long until a point in time `seconds` from now, in words.
pub fn seconds_until_label(seconds: u64) -> (r: String)
    ensures
        r@ == seconds_until_text(seconds as nat),
{
    let mut v: Vec<char> = Vec::new();
    if seconds == 0 {
        return owned("现在");
    } else if seconds <= 59 {
        push_dec(&mut v, seconds);
        push_str(&mut v, "秒后");
    } else if seconds <= 3599 {
        push_dec(&mut v, (seconds + 59) / 60);
        push_str(&mut v, "分钟后");
    } else if seconds <= 86399 {
        let total_minutes = (seconds + 59) / 60;
        let hours = total_minutes / 60;
        let minutes = total_minutes % 60;
        if hours >= 24 {
            return owned("1天后");
        } else if minutes == 0 {
            push_dec(&mut v, hours);
            push_str(&mut v, "小时后");
        } else {
            push_dec(&mut v, hours);
            push_str(&mut v, "小时");
            push_dec(&mut v, minutes);
            push_str(&mut v, "分钟后");
        }
    } else {
        let days = seconds / 86400 + if seconds % 86400 == 0 {
            0u64
        } else {
            1u64
        };
        proof {
            assert(days as nat == ceil_div(seconds as nat, 86400)) by (nonlinear_arith)
                requires
                    days == seconds / 86400 + (if seconds % 86400 == 0 {
                        0int
                    } else {
                        1int
                    }),
            ;
        }
        push_dec(&mut v, days);
        push_str(&mut v, "天后");
    }
    proof {
        assert(v@ =~= seconds_until_text(seconds as nat));
    }
    from_chars(&v)
}

/// The parts of a switch report, before they are joined.
pub open spec fn switch_parts(label: Seq<char>, s: SwitchStatus) -> Seq<Seq<char>> {
    let p0 = seq![label + "已"@ + on_off(s.enabled) + "（平台："@ + s.platform@ + "）"@];
    let p1 = if s.config_saved {
        p0.push("配置已保存"@)
    } else {
        p0
    };
    let p2 = if s.runtime_generated {
        p1.push("runtime 已生成"@)
    } else {
        p1
    };
    let p3 = if s.core_restarted {
        p2.push("Core 已重启"@)
    } else if s.requires_core_restart {
        p2.push("启动或重启 Core 后生效"@)
    } else {
        p2
    };
    let p4 = match s.runtime_applied {
        Some(true) => p3.push("runtime 已应用"@),
        Some(false) => if s.runtime_generated && !s.requires_core_restart {
            p3.push("Core 未运行"@)
        } else {
            p3
        },
        None => p3,
    };
    let p5 = match s.platform_applied {
        Some(true) => p4.push("平台已应用"@),
        Some(false) => p4.push("平台未应用"@),
        None => p4,
    };
    let p6 = match s.manual_action {
        Some(a) => if !blank(a@) {
            p5.push("处理建议："@ + a@)
        } else {
            p5
        },
        None => p5,
    };
    p6.push(s.message@)
}

fn push_text(parts: &mut Vec<String>, t: &str)
    ensures
        views(final(parts)@) == views(old(parts)@).push(t@),
{
    parts.push(owned(t));
    proof {
        assert(views(parts@) =~= views(old(parts)@).push(t@));
    }
}

/// The report of switching TUN or the system proxy: what was saved,
/// generated, restarted and applied, and what to do by hand, joined by `；`.
pub fn switch_status_message(label: &str, status: &SwitchStatus) -> (r: String)
    ensures
        r@ == join(switch_parts(label@, *status), "；"@),
{
    let mut parts: Vec<String> = Vec::new();
    let mut first: Vec<char> = Vec::new();
    push_str(&mut first, label);
    push_str(&mut first, "已");
    push_str(&mut first, bool_label(status.enabled));
    push_str(&mut first, "（平台：");
    push_str(&mut first, status.platform.as_str());
    push_str(&mut first, "）");
    parts.push(from_chars(&first));
    proof {
        assert(views(parts@) =~= seq![label@ + "已"@ + on_off(status.enabled) + "（平台："@
            + status.platform@ + "）"@]);
    }
    if status.config_saved {
        push_text(&mut parts, "配置已保存");
    }
    if status.runtime_generated {
        push_text(&mut parts, "runtime 已生成");
    }
    if status.core_restarted {
        push_text(&mut parts, "Core 已重启");
    } else if status.requires_core_restart {
        push_text(&mut parts, "启动或重启 Core 后生效");
    }
    match status.runtime_applied {
        Some(true) => push_text(&mut parts, "runtime 已应用"),
        Some(false) => {
            if status.runtime_generated && !status.requires_core_restart {
                push_text(&mut parts, "Core 未运行");
            }
        },
        None => {},
    }
    match status.platform_applied {
        Some(true) => push_text(&mut parts, "平台已应用"),
        Some(false) => push_text(&mut parts, "平台未应用"),
        None => {},
    }
    match &status.manual_action {
        Some(action) => {
            if !str_blank(action.as_str()) {
                let mut v: Vec<char> = Vec::new();
                push_str(&mut v, "处理建议：");
                push_str(&mut v, action.as_str());
                let t = from_chars(&v);
                push_text(&mut parts, t.as_str());
            }
        },
        None => {},
    }
    push_text(&mut parts, status.message.as_str());
    proof {
        assert(views(parts@) =~= switch_parts(label@, *status));
    }
    join_strings(&parts, "；")
}

/// The report of applying the external controller: the core's message, or
/// `<label>已保存` when it has none.
pub fn external_controller_status_message(
    label: &str,
    status: &ExternalControllerApplyStatus,
) -> (r: String)
    ensures
        r@ == (if blank(status.message@) {
            label@ + "已保存"@
        } else {
            status.message@
        }),
{
    if str_blank(status.message.as_str()) {
        let mut v: Vec<char> = Vec::new();
        push_str(&mut v, label);
        push_str(&mut v, "已保存");
        from_chars(&v)
    } else {
        owned(status.message.as_str())
    }
}

} // verus!
