//! The data the terminal client shows: views, panes, rows and summaries.
use vstd::prelude::*;
use vstd::string::*;
use vstd::view::View as _;
use crate::strs::{dec, join, push_str, push_usize, from_chars, join_strings, views};
use crate::text::{log_has_level, log_has_level_spec};

verus! {

/// Most status messages kept in the status history.
pub const STATUS_HISTORY_LIMIT: usize = 20;

/// Most diagnose recommendations kept in the status history.
pub const DIAGNOSE_RECOMMENDATION_HISTORY_LIMIT: usize = 8;

/// Most diagnose recommendations shown in a view.
pub const DIAGNOSE_RECOMMENDATION_VIEW_LIMIT: usize = 5;

/// Most providers refreshed automatically after an import.
pub const MAX_AUTO_PROVIDER_REFRESHES: usize = 16;

/// Smallest terminal width the client lays out.
pub const MIN_TUI_WIDTH: u16 = 80;

/// Smallest terminal height the client lays out.
pub const MIN_TUI_HEIGHT: u16 = 20;

/// The pages of the client.
#[derive(Debug, Clone, Copy, PartialEq, Eq, Structural)]
pub enum View {
    Dashboard,
    Profiles,
    Proxies,
    Logs,
    Settings,
    Rules,
    Connections,
    Jobs,
}

impl View {
    /// The page's tab title.
    pub fn title(self) -> (r: &'static str)
        ensures
            r@ == match self {
                View::Dashboard => "总览"@,
                View::Profiles => "订阅"@,
                View::Proxies => "代理"@,
                View::Logs => "日志"@,
                View::Settings => "设置"@,
                View::Rules => "规则"@,
                View::Connections => "连接"@,
                View::Jobs => "任务"@,
            },
    {
        match self {
            View::Dashboard => "总览",
            View::Profiles => "订阅",
            View::Proxies => "代理",
            View::Logs => "日志",
            View::Settings => "设置",
            View::Rules => "规则",
            View::Connections => "连接",
            View::Jobs => "任务",
        }
    }
}

/// The two panes of the proxy page.
#[derive(Debug, Clone, Copy, PartialEq, Eq, Structural)]
pub enum ProxyPane {
    Groups,
    Nodes,
}

impl ProxyPane {
    pub fn title(self) -> (r: &'static str)
        ensures
            r@ == match self {
                ProxyPane::Groups => "策略组"@,
                ProxyPane::Nodes => "节点"@,
            },
    {
        match self {
            ProxyPane::Groups => "策略组",
            ProxyPane::Nodes => "节点",
        }
    }

    /// The other pane.
    #[verifier::allow_in_spec]
    pub fn next(self) -> ProxyPane
        returns
            (match self {
                ProxyPane::Groups => ProxyPane::Nodes,
                ProxyPane::Nodes => ProxyPane::Groups,
            }),
    {
        match self {
            ProxyPane::Groups => ProxyPane::Nodes,
            ProxyPane::Nodes => ProxyPane::Groups,
        }
    }
}

/// Which proxy popup the dashboard shows.
#[derive(Debug, Clone, Copy, PartialEq, Eq, Structural)]
pub enum DashboardProxyPopup {
    Closed,
    Groups,
    Nodes,
}

/// How proxy nodes are ordered.
#[derive(Debug, Clone, Copy, PartialEq, Eq, Structural)]
pub enum ProxyNodeSort {
    Subscription,
    Latency,
    Alive,
}

impl ProxyNodeSort {
    pub fn title(self) -> (r: &'static str)
        ensures
            r@ == match self {
                ProxyNodeSort::Subscription => "订阅顺序"@,
                ProxyNodeSort::Latency => "延迟优先"@,
                ProxyNodeSort::Alive => "可用优先"@,
            },
    {
        match self {
            ProxyNodeSort::Subscription => "订阅顺序",
            ProxyNodeSort::Latency => "延迟优先",
            ProxyNodeSort::Alive => "可用优先",
        }
    }

    /// The next ordering in the cycle subscription → latency → alive.
    #[verifier::allow_in_spec]
    pub fn next(self) -> ProxyNodeSort
        returns
            (match self {
                ProxyNodeSort::Subscription => ProxyNodeSort::Latency,
                ProxyNodeSort::Latency => ProxyNodeSort::Alive,
                ProxyNodeSort::Alive => ProxyNodeSort::Subscription,
            }),
    {
        match self {
            ProxyNodeSort::Subscription => ProxyNodeSort::Latency,
            ProxyNodeSort::Latency => ProxyNodeSort::Alive,
            ProxyNodeSort::Alive => ProxyNodeSort::Subscription,
        }
    }
}

/// The log level filter of the log page.
#[derive(Debug, Clone, Copy, PartialEq, Eq, Structural)]
pub enum LogLevelFilter {
    All,
    Error,
    Warn,
    Info,
    Debug,
}

/// The levels a filter accepts.
pub open spec fn filter_levels(f: LogLevelFilter) -> Seq<Seq<char>> {
    match f {
        LogLevelFilter::All => Seq::empty(),
        LogLevelFilter::Error => seq!["error"@, "fatal"@],
        LogLevelFilter::Warn => seq!["warn"@, "warning"@],
        LogLevelFilter::Info => seq!["info"@],
        LogLevelFilter::Debug => seq!["debug"@, "trace"@],
    }
}

fn has_any_level(log: &str, levels: Vec<&str>) -> (b: bool)
    ensures
        b == log_has_level_spec(log@, levels@.map_values(|l: &str| l@)),
{
    log_has_level(log, levels.as_slice())
}

impl LogLevelFilter {
    /// The next filter in the cycle all → error → warn → info → debug.
    #[verifier::allow_in_spec]
    pub fn next(self) -> LogLevelFilter
        returns
            (match self {
                LogLevelFilter::All => LogLevelFilter::Error,
                LogLevelFilter::Error => LogLevelFilter::Warn,
                LogLevelFilter::Warn => LogLevelFilter::Info,
                LogLevelFilter::Info => LogLevelFilter::Debug,
                LogLevelFilter::Debug => LogLevelFilter::All,
            }),
    {
        match self {
            LogLevelFilter::All => LogLevelFilter::Error,
            LogLevelFilter::Error => LogLevelFilter::Warn,
            LogLevelFilter::Warn => LogLevelFilter::Info,
            LogLevelFilter::Info => LogLevelFilter::Debug,
            LogLevelFilter::Debug => LogLevelFilter::All,
        }
    }

    pub fn title(self) -> (r: &'static str)
        ensures
            r@ == match self {
                LogLevelFilter::All => "全部"@,
                LogLevelFilter::Error => "错误"@,
                LogLevelFilter::Warn => "警告"@,
                LogLevelFilter::Info => "信息"@,
                LogLevelFilter::Debug => "调试"@,
            },
    {
        match self {
            LogLevelFilter::All => "全部",
            LogLevelFilter::Error => "错误",
            LogLevelFilter::Warn => "警告",
            LogLevelFilter::Info => "信息",
            LogLevelFilter::Debug => "调试",
        }
    }

    /// Whether a log line passes the filter.
    pub fn matches(self, log: &str) -> (b: bool)
        ensures
            b == match self {
                LogLevelFilter::All => true,
                _ => log_has_level_spec(log@, filter_levels(self)),
            },
    {
        match self {
            LogLevelFilter::All => true,
            LogLevelFilter::Error => {
                let v = vec!["error", "fatal"];
                proof {
                    reveal_strlit("error");
                    assert(v@.map_values(|l: &str| l@) =~= filter_levels(self));
                }
                has_any_level(log, v)
            },
            LogLevelFilter::Warn => {
                let v = vec!["warn", "warning"];
                proof {
                    assert(v@.map_values(|l: &str| l@) =~= filter_levels(self));
                }
                has_any_level(log, v)
            },
            LogLevelFilter::Info => {
                let v = vec!["info"];
                proof {
                    assert(v@.map_values(|l: &str| l@) =~= filter_levels(self));
                }
                has_any_level(log, v)
            },
            LogLevelFilter::Debug => {
                let v = vec!["debug", "trace"];
                proof {
                    assert(v@.map_values(|l: &str| l@) =~= filter_levels(self));
                }
                has_any_level(log, v)
            },
        }
    }
}

/// Cycling the proxy pane twice comes back to the start.
pub proof fn law_proxy_pane_cycle(p: ProxyPane)
    ensures
        p.next().next() == p,
{
}

/// Cycling the node ordering three times comes back to the start.
pub proof fn law_proxy_node_sort_cycle(s: ProxyNodeSort)
    ensures
        s.next().next().next() == s,
{
}

/// Cycling the log filter five times comes back to the start, and every
/// filter is reached from `All`.
pub proof fn law_log_filter_cycle(f: LogLevelFilter)
    ensures
        f.next().next().next().next().next() == f,
{
}

/// The rows of the settings page.
#[derive(Debug, Clone, Copy, PartialEq, Eq, Structural)]
pub enum SettingRow {
    Dns,
    Ipv6,
    AllowLan,
    UnifiedDelay,
    TuiTheme,
    TuiDisplayMode,
    TuiPunctuationMode,
    LogLevel,
    CoreLog,
    RuleProviderDownloadProxy,
    MixedPort,
    ExternalController,
    ExternalControllerPort,
    Tun,
    SystemProxy,
}

/// Which provider list a provider dialog shows.
#[derive(Debug, Clone, Copy, PartialEq, Eq, Structural)]
pub enum ProviderDialogKind {
    Proxy,
    Rule,
}

impl ProviderDialogKind {
    pub fn title(self) -> (r: &'static str)
        ensures
            r@ == match self {
                ProviderDialogKind::Proxy => "Proxy Provider"@,
                ProviderDialogKind::Rule => "Rule Provider"@,
            },
    {
        match self {
            ProviderDialogKind::Proxy => "Proxy Provider",
            ProviderDialogKind::Rule => "Rule Provider",
        }
    }

    pub fn label(self) -> (r: &'static str)
        ensures
            r@ == match self {
                ProviderDialogKind::Proxy => "代理 Provider"@,
                ProviderDialogKind::Rule => "规则 Provider"@,
            },
    {
        match self {
            ProviderDialogKind::Proxy => "代理 Provider",
            ProviderDialogKind::Rule => "规则 Provider",
        }
    }

    /// The prefix of the keys under which operation feedback is kept.
    pub fn feedback_prefix(self) -> (r: &'static str)
        ensures
            r@ == match self {
                ProviderDialogKind::Proxy => "proxy"@,
                ProviderDialogKind::Rule => "rule"@,
            },
    {
        match self {
            ProviderDialogKind::Proxy => "proxy",
            ProviderDialogKind::Rule => "rule",
        }
    }
}

/// A proxy group as the proxy page shows it.
#[derive(Debug, Clone, PartialEq, Eq)]
pub struct ProxyGroupRow {
    pub name: String,
    pub now: String,
    pub nodes: Vec<String>,
    pub offline: bool,
}

/// Subscription traffic figures reported by a proxy provider.
#[derive(Debug, Clone, Copy, Default, PartialEq, Eq)]
pub struct ProviderSubscriptionInfoRow {
    pub upload: Option<u64>,
    pub download: Option<u64>,
    pub total: Option<u64>,
    pub expire: Option<u64>,
}

/// A proxy provider as the provider dialog shows it.
#[derive(Debug, Clone, Default, PartialEq, Eq)]
pub struct ProxyProviderRow {
    pub name: String,
    pub provider_type: String,
    pub vehicle_type: String,
    pub proxy_count: usize,
    pub updated_at: Option<String>,
    pub subscription: Option<ProviderSubscriptionInfoRow>,
}

/// A rule provider as the provider dialog shows it.
#[derive(Debug, Clone, Default, PartialEq, Eq)]
pub struct RuleProviderRow {
    pub name: String,
    pub provider_type: String,
    pub vehicle_type: String,
    pub behavior: String,
    pub format: String,
    pub rule_count: usize,
    pub updated_at: Option<String>,
}

/// Type, latest delay and liveness of a proxy node.
#[derive(Debug, Clone, PartialEq, Eq)]
pub struct ProxyNodeMeta {
    pub proxy_type: String,
    pub delay_ms: Option<i64>,
    pub alive: Option<bool>,
}

/// Counts over the controller's proxy list.
#[derive(Debug, Clone, Copy, Default, PartialEq, Eq)]
pub struct ProxyGroupLoadSummary {
    pub entries: usize,
    pub groups: usize,
    pub nodes: usize,
}

impl ProxyGroupLoadSummary {
    /// Proxy groups are usable once there is a group with nodes.
    pub fn is_ready(self) -> (b: bool)
        ensures
            b == (self.groups > 0 && self.nodes > 0),
    {
        self.groups > 0 && self.nodes > 0
    }
}

/// The outcome of refreshing providers automatically.
#[derive(Debug, Clone, Default, PartialEq, Eq)]
pub struct ProviderAutoRefreshSummary {
    pub candidates: usize,
    pub attempted: usize,
    pub succeeded: usize,
    pub failed: usize,
    pub errors: Vec<String>,
}

/// The message that reports an automatic provider refresh.
pub open spec fn auto_refresh_message(s: ProviderAutoRefreshSummary) -> Seq<char> {
    "Provider 自动更新：候选 "@ + dec(s.candidates as nat) + "，尝试 "@ + dec(s.attempted as nat)
        + "，成功 "@ + dec(s.succeeded as nat) + "，失败 "@ + dec(s.failed as nat) + (if s.errors.len()
        == 0 {
        Seq::empty()
    } else {
        "，错误："@ + join(views(s.errors@), "；"@)
    })
}

impl ProviderAutoRefreshSummary {
    /// No refresh was attempted.
    pub fn is_empty(&self) -> (b: bool)
        ensures
            b == (self.attempted == 0),
    {
        self.attempted == 0
    }

    /// The report of the refresh, `None` when nothing was attempted.
    pub fn to_message(&self) -> (r: Option<String>)
        ensures
            match r {
                None => self.attempted == 0,
                Some(m) => self.attempted != 0 && m@ == auto_refresh_message(*self),
            },
    {
        if self.is_empty() {
            return None;
        }
        let mut v: Vec<char> = Vec::new();
        push_str(&mut v, "Provider 自动更新：候选 ");
        push_usize(&mut v, self.candidates);
        push_str(&mut v, "，尝试 ");
        push_usize(&mut v, self.attempted);
        push_str(&mut v, "，成功 ");
        push_usize(&mut v, self.succeeded);
        push_str(&mut v, "，失败 ");
        push_usize(&mut v, self.failed);
        if self.errors.len() != 0 {
            push_str(&mut v, "，错误：");
            let joined = join_strings(&self.errors, "；");
            push_str(&mut v, joined.as_str());
        }
        proof {
            assert(v@ =~= auto_refresh_message(*self));
        }
        Some(from_chars(&v))
    }
}

/// What a generated runtime configuration holds.
#[derive(Debug, Clone, Default, PartialEq, Eq)]
pub struct RuntimeProxySummary {
    pub proxies: usize,
    pub providers: usize,
    pub provider_names: Vec<String>,
    pub group_provider_names: Vec<String>,
    pub groups: usize,
    pub rules: usize,
}

impl RuntimeProxySummary {
    /// The runtime draws nodes from proxy providers.
    pub fn uses_providers(&self) -> (b: bool)
        ensures
            b == (self.providers > 0 || self.provider_names.len() > 0
                || self.group_provider_names.len() > 0),
    {
        self.providers > 0 || self.provider_names.len() != 0 || self.group_provider_names.len() != 0
    }

    /// A one-line report of the runtime's sections.
    pub fn to_message(&self) -> (m: String)
        ensures
            m@ == "runtime：节点 "@ + dec(self.proxies as nat) + "，Provider "@ + dec(
                self.providers as nat,
            ) + "，策略组 "@ + dec(self.groups as nat) + "，规则 "@ + dec(self.rules as nat),
    {
        let mut v: Vec<char> = Vec::new();
        push_str(&mut v, "runtime：节点 ");
        push_usize(&mut v, self.proxies);
        push_str(&mut v, "，Provider ");
        push_usize(&mut v, self.providers);
        push_str(&mut v, "，策略组 ");
        push_usize(&mut v, self.groups);
        push_str(&mut v, "，规则 ");
        push_usize(&mut v, self.rules);
        proof {
            assert(v@ =~= "runtime：节点 "@ + dec(self.proxies as nat) + "，Provider "@ + dec(
                self.providers as nat,
            ) + "，策略组 "@ + dec(self.groups as nat) + "，规则 "@ + dec(self.rules as nat));
        }
        from_chars(&v)
    }
}

/// What an input box edits.
#[derive(Debug, Clone, Copy, PartialEq, Eq, Structural)]
pub enum InputTarget {
    Search(View),
    MixedPort,
    ExternalControllerPort,
    ImportLocalProfilePath,
    ImportSubscriptionUrl,
}

/// An open input box.
#[derive(Debug, Clone, PartialEq, Eq)]
pub struct InputState {
    pub target: InputTarget,
    pub value: String,
}

/// An action that waits for confirmation.
#[derive(Debug, Clone, PartialEq, Eq)]
pub enum ConfirmAction {
    SwitchProfile { uid: String, name: String },
    DeleteProfile { uid: String, name: String },
    CloseConnection { id: String },
    CloseAllConnections,
    ClearLogs,
    ToggleTun { enabled: bool },
    ToggleSystemProxy { enabled: bool },
    ToggleExternalController { enabled: bool },
    SetExternalControllerPort { port: u16 },
    ToggleCoreLog { enabled: bool },
}

/// The routing mode of the core.
#[derive(Debug, Clone, Copy, PartialEq, Eq, Structural)]
pub enum Mode {
    Rule,
    Global,
    Direct,
}

/// The lifecycle state of the proxy core.
#[derive(Debug, Clone, Copy, PartialEq, Eq, Structural)]
pub enum KernelState {
    Stopped,
    Starting,
    Running,
    Stopping,
    Restarting,
    Updating,
    Unhealthy,
    Crashed,
}

/// The state of a background job.
#[derive(Debug, Clone, Copy, PartialEq, Eq, Structural)]
pub enum JobStatus {
    Pending,
    Running,
    Succeeded,
    Failed,
    Cancelled,
}

/// The result document of a job: its pretty-printed JSON text and the
/// `current` field when it is a string.
#[derive(Debug, Clone, PartialEq, Eq)]
pub struct JobResult {
    pub pretty: String,
    pub current: Option<String>,
}

/// A background job.
#[derive(Debug, Clone, PartialEq, Eq)]
pub struct JobRecord {
    pub id: String,
    pub kind: String,
    pub name: String,
    pub target: Option<String>,
    pub status: JobStatus,
    pub message: Option<String>,
    pub error: Option<String>,
    pub result: Option<JobResult>,
    pub created_at: u64,
    pub updated_at: u64,
    pub finished_at: Option<u64>,
}

/// A validation job that was started.
#[derive(Debug, Clone, PartialEq, Eq)]
pub struct StartedValidationJob {
    pub job: JobRecord,
}

} // verus!
