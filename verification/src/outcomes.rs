//! What the client makes of the answers to the work it hands out: the
//! core's start and stop, the routing mode, subscription and profile
//! operations and provider dialogs.
use vstd::prelude::*;
use crate::strs::{dec, from_chars, owned, push_str, push_usize, str_blank, str_eq, str_trim, to_chars, trim};
use crate::models::{KernelState, Mode, ProviderDialogKind};
use crate::labels::{accepted_label, kernel_state_label, kernel_state_text, mode_label};
use crate::provider_dialog::{provider_operation_label, ProviderOperation};
use crate::text::{sanitize_url_error, sanitized, url_parts, url_verdict, validate_subscription_url};
use crate::state::{history_view, recorded, TuiApp, IMPORTANT_STATUS_PIN_MILLIS};
use crate::panes::{feedback_key, feedback_views};
use crate::controller::upsert;
use crate::models::ProxyGroupRow;
use crate::refresh_state::{applied_groups, now_set, now_updated, profiles_applied};
use crate::proxy_select::{dashboard_group, focus_nodes_on_current, focus_query_view, selected_dashboard_node_name, selected_group, selected_node_name};
use crate::commands::status_after;
use crate::controller::{meta_view, meta_views, table_get, upsert_meta};
use crate::layout::{delay_text, format_proxy_delay};
use crate::models::ProxyNodeMeta;
use crate::state::ProfileCatalog;

verus! {

/// What toggling the core asks for in a given state.
#[derive(Debug, Clone, Copy, PartialEq, Eq, Structural)]
pub enum CoreToggle {
    Start,
    Stop,
    /// The core is between states: nothing is asked.
    Busy,
}

/// A stopped or crashed core is started, a running or unhealthy one is
/// stopped; one that is between states is left alone.
pub open spec fn core_toggle_of(state: KernelState) -> CoreToggle {
    match state {
        KernelState::Stopped | KernelState::Crashed => CoreToggle::Start,
        KernelState::Running | KernelState::Unhealthy => CoreToggle::Stop,
        _ => CoreToggle::Busy,
    }
}

pub fn core_toggle(state: KernelState) -> (r: CoreToggle)
    ensures
        r == core_toggle_of(state),
{
    match state {
        KernelState::Stopped | KernelState::Crashed => CoreToggle::Start,
        KernelState::Running | KernelState::Unhealthy => CoreToggle::Stop,
        _ => CoreToggle::Busy,
    }
}

/// A request to the core.
#[derive(Debug, Clone, Copy, PartialEq, Eq, Structural)]
pub enum CoreRequest {
    Start,
    Stop,
    Restart,
}

pub open spec fn core_request_verb(request: CoreRequest) -> Seq<char> {
    match request {
        CoreRequest::Start => "启动"@,
        CoreRequest::Stop => "停止"@,
        CoreRequest::Restart => "重启"@,
    }
}

/// The status after a request to the core was answered.
pub fn core_request_message(request: CoreRequest, accepted: bool, state: KernelState) -> (r: String)
    ensures
        r@ == "核心"@ + core_request_verb(request) + "请求"@ + (if accepted {
            "已受理"@
        } else {
            "未受理"@
        }) + "，状态："@ + kernel_state_text(state),
{
    let mut v = to_chars("核心");
    match request {
        CoreRequest::Start => push_str(&mut v, "启动"),
        CoreRequest::Stop => push_str(&mut v, "停止"),
        CoreRequest::Restart => push_str(&mut v, "重启"),
    }
    push_str(&mut v, "请求");
    push_str(&mut v, accepted_label(accepted));
    push_str(&mut v, "，状态：");
    push_str(&mut v, kernel_state_label(state));
    from_chars(&v)
}

/// The status when the core is between states.
pub fn core_busy_message(state: KernelState) -> (r: String)
    ensures
        r@ == "核心正忙："@ + kernel_state_text(state),
{
    let mut v = to_chars("核心正忙：");
    push_str(&mut v, kernel_state_label(state));
    from_chars(&v)
}

/// The routing modes in turn: rule, global, direct.
pub open spec fn next_mode_of(mode: Mode) -> Mode {
    match mode {
        Mode::Rule => Mode::Global,
        Mode::Global => Mode::Direct,
        Mode::Direct => Mode::Rule,
    }
}

pub fn next_mode(mode: Mode) -> (r: Mode)
    ensures
        r == next_mode_of(mode),
{
    match mode {
        Mode::Rule => Mode::Global,
        Mode::Global => Mode::Direct,
        Mode::Direct => Mode::Rule,
    }
}

/// Three turns bring the routing mode back.
pub proof fn law_mode_cycle(mode: Mode)
    ensures
        next_mode_of(next_mode_of(next_mode_of(mode))) == mode,
        next_mode_of(mode) != mode,
{
}

/// The status after the routing mode was set.
pub fn mode_switched_message(mode: Mode) -> (r: String)
    ensures
        r@ == "代理模式已切换为 "@ + (match mode {
            Mode::Rule => "规则"@,
            Mode::Global => "全局"@,
            Mode::Direct => "直连"@,
        }),
{
    let mut v = to_chars("代理模式已切换为 ");
    push_str(&mut v, mode_label(mode));
    from_chars(&v)
}

/// The status of a failed operation.
pub fn action_error_message(error: &str) -> (r: String)
    ensures
        r@ == "错误："@ + error@,
{
    let mut v = to_chars("错误：");
    push_str(&mut v, error);
    from_chars(&v)
}

/// The status after switching to a profile.
pub fn profile_switched_message(name: &str, runtime_reloaded: bool) -> (r: String)
    ensures
        r@ == "已切换订阅："@ + name@ + (if runtime_reloaded {
            "，运行配置已热加载"@
        } else {
            "，Core 启动后应用"@
        }),
{
    let mut v = to_chars("已切换订阅：");
    push_str(&mut v, name);
    if runtime_reloaded {
        push_str(&mut v, "，运行配置已热加载");
    } else {
        push_str(&mut v, "，Core 启动后应用");
    }
    from_chars(&v)
}

/// The status after deleting a profile: where the deleted one was in
/// use, which way the next one was applied; a warning follows, its URLs
/// redacted.
pub fn profile_deleted_message(name: &str, current_changed: bool, runtime_reloaded: bool, warning: Option<&str>) -> (r:
    String)
    ensures
        r@ == "已删除订阅："@ + name@ + (if current_changed {
            if runtime_reloaded {
                "，已切换到下一个订阅并热加载运行配置"@
            } else {
                "，已切换到下一个订阅并刷新 runtime"@
            }
        } else {
            Seq::empty()
        }) + (match warning {
            Some(w) => "；"@ + sanitized(w@),
            None => Seq::empty(),
        }),
{
    let mut v = to_chars("已删除订阅：");
    push_str(&mut v, name);
    if current_changed {
        if runtime_reloaded {
            push_str(&mut v, "，已切换到下一个订阅并热加载运行配置");
        } else {
            push_str(&mut v, "，已切换到下一个订阅并刷新 runtime");
        }
    }
    let ghost before = v@;
    if let Some(w) = warning {
        push_str(&mut v, "；");
        let clean = sanitize_url_error(w);
        push_str(&mut v, clean.as_str());
    }
    proof {
        if warning is None {
            assert(v@ =~= before + Seq::<char>::empty());
        }
    }
    from_chars(&v)
}

/// The status after asking for a subscription update: a new job, or the
/// one already running.
pub fn subscription_job_message(created: bool, job_id: &str) -> (r: String)
    ensures
        r@ == (if created {
            "已创建订阅更新任务："@
        } else {
            "订阅更新任务已在运行："@
        }) + job_id@,
{
    let mut v = if created {
        to_chars("已创建订阅更新任务：")
    } else {
        to_chars("订阅更新任务已在运行：")
    };
    push_str(&mut v, job_id);
    from_chars(&v)
}

/// The label of a provider dialog kind.
pub open spec fn kind_label(kind: ProviderDialogKind) -> Seq<char> {
    match kind {
        ProviderDialogKind::Proxy => "代理 Provider"@,
        ProviderDialogKind::Rule => "规则 Provider"@,
    }
}

impl TuiApp {
    /// The subscription the selected profile row names for an online
    /// update, or why there is none: no row, not a remote one, no uid.
    pub fn subscription_update_uid(&self) -> (r: Result<String, String>)
        ensures
            self.profile_index >= self.profiles@.len() ==> (r matches Err(e) && e@ == "未选择订阅"@),
            self.profile_index < self.profiles@.len() ==> {
                let p = self.profiles@[self.profile_index as int];
                if !(p.itype matches Some(t) && t@ == "remote"@) {
                    r matches Err(e) && e@ == "当前订阅不是远程订阅，不能在线更新"@
                } else {
                    match p.uid {
                        Some(u) => r matches Ok(x) && x@ == u@,
                        None => r matches Err(e) && e@ == "当前订阅缺少 uid"@,
                    }
                }
            },
    {
        if self.profile_index >= self.profiles.len() {
            return Err(owned("未选择订阅"));
        }
        let p = &self.profiles[self.profile_index];
        let remote = match &p.itype {
            Some(t) => str_eq(t.as_str(), "remote"),
            None => false,
        };
        if !remote {
            return Err(owned("当前订阅不是远程订阅，不能在线更新"));
        }
        match &p.uid {
            Some(u) => Ok(owned(u.as_str())),
            None => Err(owned("当前订阅缺少 uid")),
        }
    }

    /// Opens a provider dialog on the answer of loading its providers:
    /// the number loaded, or the error. With none the dialog stays closed.
    pub fn provider_dialog_opened(&mut self, kind: ProviderDialogKind, loaded: Result<usize, String>, now: u64)
        requires
            now + IMPORTANT_STATUS_PIN_MILLIS <= u64::MAX,
        ensures
            match loaded {
                Ok(n) => if n == 0 {
                    &&& final(self).provider_dialog is None
                    &&& final(self).status@ == "当前配置没有"@ + kind_label(kind)
                    &&& final(self).status_pinned_until == Some((now + IMPORTANT_STATUS_PIN_MILLIS) as u64)
                } else {
                    &&& final(self).provider_dialog == Some(kind)
                    &&& final(self).status@ == "已打开"@ + kind_label(kind) + "，共 "@ + dec(n as nat) + " 个"@
                    &&& final(self).status_pinned_until == old(self).status_pinned_until
                },
                Err(e) => {
                    &&& final(self).provider_dialog is None
                    &&& final(self).status@ == kind_label(kind) + "不可用："@ + sanitized(e@)
                    &&& final(self).status_pinned_until == Some((now + IMPORTANT_STATUS_PIN_MILLIS) as u64)
                },
            },
            history_view(final(self).status_history) == recorded(
                history_view(old(self).status_history),
                final(self).status@,
            ),
            *final(self) == (TuiApp {
                provider_dialog: final(self).provider_dialog,
                status: final(self).status,
                status_history: final(self).status_history,
                status_pinned_until: final(self).status_pinned_until,
                ..*old(self)
            }),
    {
        match loaded {
            Ok(n) => {
                if n == 0 {
                    self.provider_dialog = None;
                    let mut v = to_chars("当前配置没有");
                    push_str(&mut v, kind.label());
                    let m = from_chars(&v);
                    self.set_important_status(m.as_str(), now);
                } else {
                    self.provider_dialog = Some(kind);
                    let mut v = to_chars("已打开");
                    push_str(&mut v, kind.label());
                    push_str(&mut v, "，共 ");
                    push_usize(&mut v, n);
                    push_str(&mut v, " 个");
                    let m = from_chars(&v);
                    self.set_status(m.as_str());
                }
            },
            Err(e) => {
                self.provider_dialog = None;
                let mut v = to_chars(kind.label());
                push_str(&mut v, "不可用：");
                let clean = sanitize_url_error(e.as_str());
                push_str(&mut v, clean.as_str());
                let m = from_chars(&v);
                self.set_important_status(m.as_str(), now);
            },
        }
    }

    /// Reloads the open provider dialog's providers with the answer: with
    /// none left the dialog closes. Without an open dialog nothing changes.
    pub fn provider_dialog_refreshed(&mut self, loaded: Result<usize, String>, now: u64)
        requires
            now + IMPORTANT_STATUS_PIN_MILLIS <= u64::MAX,
        ensures
            old(self).provider_dialog is None ==> *final(self) == *old(self),
            old(self).provider_dialog matches Some(kind) ==> {
                &&& match loaded {
                    Ok(n) => if n == 0 {
                        &&& final(self).provider_dialog is None
                        &&& final(self).status@ == "当前配置没有"@ + kind_label(kind) + "，已关闭弹窗"@
                        &&& final(self).status_pinned_until == Some((now + IMPORTANT_STATUS_PIN_MILLIS) as u64)
                    } else {
                        &&& final(self).provider_dialog == Some(kind)
                        &&& final(self).status@ == "已刷新"@ + kind_label(kind) + "，共 "@ + dec(n as nat) + " 个"@
                        &&& final(self).status_pinned_until == old(self).status_pinned_until
                    },
                    Err(e) => {
                        &&& final(self).provider_dialog == Some(kind)
                        &&& final(self).status@ == "刷新"@ + kind_label(kind) + "失败："@ + sanitized(e@)
                        &&& final(self).status_pinned_until == Some((now + IMPORTANT_STATUS_PIN_MILLIS) as u64)
                    },
                }
                &&& history_view(final(self).status_history) == recorded(
                    history_view(old(self).status_history),
                    final(self).status@,
                )
                &&& *final(self) == (TuiApp {
                    provider_dialog: final(self).provider_dialog,
                    status: final(self).status,
                    status_history: final(self).status_history,
                    status_pinned_until: final(self).status_pinned_until,
                    ..*old(self)
                })
            },
    {
        let kind = match self.provider_dialog {
            Some(kind) => kind,
            None => {
                return;
            },
        };
        match loaded {
            Ok(n) => {
                if n == 0 {
                    self.provider_dialog = None;
                    let mut v = to_chars("当前配置没有");
                    push_str(&mut v, kind.label());
                    push_str(&mut v, "，已关闭弹窗");
                    let m = from_chars(&v);
                    self.set_important_status(m.as_str(), now);
                } else {
                    let mut v = to_chars("已刷新");
                    push_str(&mut v, kind.label());
                    push_str(&mut v, "，共 ");
                    push_usize(&mut v, n);
                    push_str(&mut v, " 个");
                    let m = from_chars(&v);
                    self.set_status(m.as_str());
                }
            },
            Err(e) => {
                let mut v = to_chars("刷新");
                push_str(&mut v, kind.label());
                push_str(&mut v, "失败：");
                let clean = sanitize_url_error(e.as_str());
                push_str(&mut v, clean.as_str());
                let m = from_chars(&v);
                self.set_important_status(m.as_str(), now);
            },
        }
    }

    /// Records the answer to an operation on one provider: on success the
    /// provider the answer names (the requested one where it names none
    /// but blanks) and the operation it reports; on failure the requested
    /// provider, the requested operation and the error, URLs redacted.
    pub fn provider_operation_done(
        &mut self,
        kind: ProviderDialogKind,
        requested: &str,
        operation: ProviderOperation,
        answer: Result<(String, ProviderOperation), String>,
        now: u64,
    )
        requires
            now + IMPORTANT_STATUS_PIN_MILLIS <= u64::MAX,
        ensures
            match answer {
                Ok((reported, done)) => {
                    let provider = if trim(reported@).len() == 0 { requested@ } else { reported@ };
                    let row = operation_text(done) + "已触发"@;
                    &&& feedback_views(final(self).provider_operation_feedback@) == upsert(
                        feedback_views(old(self).provider_operation_feedback@),
                        feedback_key(kind, provider),
                        row,
                    )
                    &&& final(self).status@ == kind_label(kind) + " "@ + provider + " "@ + row + "；已刷新相关数据"@
                },
                Err(e) => {
                    let row = operation_text(operation) + "失败"@;
                    &&& feedback_views(final(self).provider_operation_feedback@) == upsert(
                        feedback_views(old(self).provider_operation_feedback@),
                        feedback_key(kind, requested@),
                        row,
                    )
                    &&& final(self).status@ == kind_label(kind) + " "@ + requested@ + " "@ + row + "："@ + sanitized(e@)
                },
            },
            final(self).status_pinned_until == Some((now + IMPORTANT_STATUS_PIN_MILLIS) as u64),
            history_view(final(self).status_history) == recorded(
                history_view(old(self).status_history),
                final(self).status@,
            ),
            *final(self) == (TuiApp {
                provider_operation_feedback: final(self).provider_operation_feedback,
                status: final(self).status,
                status_history: final(self).status_history,
                status_pinned_until: final(self).status_pinned_until,
                ..*old(self)
            }),
    {
        match answer {
            Ok((reported, done)) => {
                let provider = if str_blank(reported.as_str()) {
                    owned(requested)
                } else {
                    reported
                };
                let mut row = to_chars(provider_operation_label(done));
                push_str(&mut row, "已触发");
                let row = from_chars(&row);
                self.set_provider_feedback(kind, provider.as_str(), row.as_str());
                let mut v = to_chars(kind.label());
                push_str(&mut v, " ");
                push_str(&mut v, provider.as_str());
                push_str(&mut v, " ");
                push_str(&mut v, row.as_str());
                push_str(&mut v, "；已刷新相关数据");
                let m = from_chars(&v);
                self.set_important_status(m.as_str(), now);
            },
            Err(e) => {
                let mut row = to_chars(provider_operation_label(operation));
                push_str(&mut row, "失败");
                let row = from_chars(&row);
                self.set_provider_feedback(kind, requested, row.as_str());
                let mut v = to_chars(kind.label());
                push_str(&mut v, " ");
                push_str(&mut v, requested);
                push_str(&mut v, " ");
                push_str(&mut v, row.as_str());
                push_str(&mut v, "：");
                let clean = sanitize_url_error(e.as_str());
                push_str(&mut v, clean.as_str());
                let m = from_chars(&v);
                self.set_important_status(m.as_str(), now);
            },
        }
    }
}

/// The word for a provider operation.
pub open spec fn operation_text(operation: ProviderOperation) -> Seq<char> {
    match operation {
        ProviderOperation::Update => "更新"@,
        ProviderOperation::Healthcheck => "测速"@,
    }
}

/// The status after updating every provider of a dialog: the counts, and
/// up to the first three failures as examples.
pub fn provider_batch_message(kind: ProviderDialogKind, succeeded: usize, failed: usize, examples: &Vec<String>) -> (r:
    String)
    ensures
        r@ == kind_label(kind) + "批量更新完成：成功 "@ + dec(succeeded as nat) + "，失败 "@ + dec(failed as nat) + (
        if examples@.len() == 0 {
            Seq::empty()
        } else {
            "；失败示例："@ + crate::strs::join(crate::strs::views(examples@), "；"@)
        }),
{
    let mut v = to_chars(kind.label());
    push_str(&mut v, "批量更新完成：成功 ");
    push_usize(&mut v, succeeded);
    push_str(&mut v, "，失败 ");
    push_usize(&mut v, failed);
    let ghost before = v@;
    if examples.len() > 0 {
        push_str(&mut v, "；失败示例：");
        let joined = crate::strs::join_strings(examples, "；");
        push_str(&mut v, joined.as_str());
    } else {
        proof {
            assert(v@ =~= before + Seq::<char>::empty());
        }
    }
    from_chars(&v)
}

/// One failure example of a batch update: the provider and the error,
/// URLs redacted.
pub fn provider_batch_example(provider: &str, error: &str) -> (r: String)
    ensures
        r@ == provider@ + ": "@ + sanitized(error@),
{
    let mut v = to_chars(provider);
    push_str(&mut v, ": ");
    let clean = sanitize_url_error(error);
    push_str(&mut v, clean.as_str());
    from_chars(&v)
}

/// The link to import from the submitted text: trimmed, not empty, and
/// an `http`/`https` URL with a host.
pub fn subscription_import_url(raw: &str) -> (r: Result<String, String>)
    ensures
        trim(raw@).len() == 0 ==> (r matches Err(e) && e@ == "订阅链接不能为空"@),
        trim(raw@).len() > 0 ==> match url_verdict(url_parts(trim(raw@))) {
            None => r matches Ok(u) && u@ == trim(raw@),
            Some(m) => r matches Err(e) && e@ == m,
        },
{
    let t = str_trim(raw);
    if t.len() == 0 {
        return Err(owned("订阅链接不能为空"));
    }
    let url = from_chars(&t);
    match validate_subscription_url(url.as_str()) {
        Ok(()) => Ok(url),
        Err(e) => Err(e),
    }
}

/// How the core took an activated profile.
pub open spec fn core_action_text(started_core: bool, runtime_reloaded: bool) -> Seq<char> {
    if started_core {
        "Core 已启动"@
    } else if runtime_reloaded {
        "运行配置已热加载"@
    } else {
        "Core 未启动，启动后应用"@
    }
}

fn push_core_action(v: &mut Vec<char>, started_core: bool, runtime_reloaded: bool)
    ensures
        final(v)@ == old(v)@ + core_action_text(started_core, runtime_reloaded),
{
    if started_core {
        push_str(v, "Core 已启动");
    } else if runtime_reloaded {
        push_str(v, "运行配置已热加载");
    } else {
        push_str(v, "Core 未启动，启动后应用");
    }
}

/// The status after a subscription was imported, activated and its
/// proxy groups loaded; a provider refresh note follows where there is one.
pub fn import_ready_message(
    attempt: &str,
    started_core: bool,
    runtime_reloaded: bool,
    groups: usize,
    nodes: usize,
    provider_note: Option<&str>,
) -> (r: String)
    ensures
        r@ == "订阅导入并激活成功（"@ + attempt@ + "），"@ + core_action_text(started_core, runtime_reloaded)
            + "，策略组 "@ + dec(groups as nat) + " 个，节点 "@ + dec(nodes as nat) + " 个"@ + (match provider_note {
            Some(n) => "，"@ + n@,
            None => Seq::empty(),
        }),
{
    let mut v = to_chars("订阅导入并激活成功（");
    push_str(&mut v, attempt);
    push_str(&mut v, "），");
    push_core_action(&mut v, started_core, runtime_reloaded);
    push_str(&mut v, "，策略组 ");
    push_usize(&mut v, groups);
    push_str(&mut v, " 个，节点 ");
    push_usize(&mut v, nodes);
    push_str(&mut v, " 个");
    let ghost before = v@;
    match provider_note {
        Some(n) => {
            push_str(&mut v, "，");
            push_str(&mut v, n);
        },
        None => {
            proof {
                assert(v@ =~= before + Seq::<char>::empty());
            }
        },
    }
    from_chars(&v)
}

/// The status after a subscription was imported and activated but its
/// proxy groups did not load: the error (URLs redacted), the runtime
/// summary, the preview note, the diagnosis and where it was saved.
pub fn import_stalled_message(
    started_core: bool,
    runtime_reloaded: bool,
    error: &str,
    runtime_hint: &str,
    preview_hint: &str,
    diagnosis: &str,
    saved_hint: &str,
) -> (r: String)
    ensures
        r@ == "订阅已导入并激活，"@ + core_action_text(started_core, runtime_reloaded) + "，但代理组未加载："@
            + sanitized(error@) + "；"@ + runtime_hint@ + preview_hint@ + "；"@ + diagnosis@ + "；"@ + saved_hint@
            + "；按 r 重试刷新或查看日志"@,
{
    let mut v = to_chars("订阅已导入并激活，");
    push_core_action(&mut v, started_core, runtime_reloaded);
    push_str(&mut v, "，但代理组未加载：");
    let clean = sanitize_url_error(error);
    push_str(&mut v, clean.as_str());
    push_str(&mut v, "；");
    push_str(&mut v, runtime_hint);
    push_str(&mut v, preview_hint);
    push_str(&mut v, "；");
    push_str(&mut v, diagnosis);
    push_str(&mut v, "；");
    push_str(&mut v, saved_hint);
    push_str(&mut v, "；按 r 重试刷新或查看日志");
    from_chars(&v)
}

/// The status after an import or its activation failed: nothing of it
/// is kept.
pub fn import_failed_message(error: &str, diagnosis: &str, saved_hint: &str) -> (r: String)
    ensures
        r@ == "订阅导入或激活失败，本次导入未保留："@ + sanitized(error@) + "；"@ + diagnosis@ + "；"@ + saved_hint@,
{
    let mut v = to_chars("订阅导入或激活失败，本次导入未保留：");
    let clean = sanitize_url_error(error);
    push_str(&mut v, clean.as_str());
    push_str(&mut v, "；");
    push_str(&mut v, diagnosis);
    push_str(&mut v, "；");
    push_str(&mut v, saved_hint);
    from_chars(&v)
}

/// The status when a list could not be loaded: `<subject>不可用：<error>`.
pub fn unavailable_message(subject: &str, error: &str) -> (r: String)
    ensures
        r@ == subject@ + "不可用："@ + error@,
{
    let mut v = to_chars(subject);
    push_str(&mut v, "不可用：");
    push_str(&mut v, error);
    from_chars(&v)
}

/// Refreshes come at most every two seconds.
pub const REFRESH_INTERVAL_MILLIS: u64 = 2000;

/// The state after the proxy groups came back without usable nodes and no
/// offline preview could be shown: an empty answer keeps the rows the user
/// is choosing in, any other replaces them.
pub open spec fn groups_kept(s: TuiApp, groups: Seq<ProxyGroupRow>) -> bool {
    groups.len() == 0 && s.proxy_groups@.len() > 0 && s.proxy_user_selected
}

impl TuiApp {
    /// A refresh is due unless the last one began less than two seconds
    /// before `now`.
    pub fn refresh_due(&self, now: u64) -> (r: bool)
        ensures
            r == !(self.last_refresh matches Some(t) && now < t + REFRESH_INTERVAL_MILLIS),
    {
        match self.last_refresh {
            Some(t) => !(now < t || now - t < REFRESH_INTERVAL_MILLIS),
            None => true,
        }
    }

    /// Takes the core's log lines; when following, the cursor goes to the
    /// last one.
    pub fn logs_loaded(&mut self, logs: Vec<String>)
        ensures
            final(self).logs@ == logs@,
            final(self).log_index == (if old(self).log_follow && logs@.len() > 0 {
                (logs@.len() - 1) as usize
            } else {
                old(self).log_index
            }),
            *final(self) == (TuiApp { logs: final(self).logs, log_index: final(self).log_index, ..*old(self) }),
    {
        self.logs = logs;
        if self.log_follow && self.logs.len() > 0 {
            self.log_index = self.logs.len() - 1;
        }
    }

    /// Drops the proxy providers after they could not be loaded.
    pub fn proxy_providers_unavailable(&mut self)
        ensures
            final(self).proxy_providers@.len() == 0,
            *final(self) == (TuiApp {
                proxy_providers: final(self).proxy_providers,
                proxy_provider_index: 0,
                proxy_provider_selection_key: None,
                ..*old(self)
            }),
    {
        self.proxy_providers = Vec::new();
        self.proxy_provider_index = 0;
        self.proxy_provider_selection_key = None;
    }

    /// Drops the rule providers after they could not be loaded.
    pub fn rule_providers_unavailable(&mut self)
        ensures
            final(self).rule_providers@.len() == 0,
            *final(self) == (TuiApp {
                rule_providers: final(self).rule_providers,
                rule_provider_index: 0,
                rule_provider_selection_key: None,
                ..*old(self)
            }),
    {
        self.rule_providers = Vec::new();
        self.rule_provider_index = 0;
        self.rule_provider_selection_key = None;
    }

    /// Takes proxy groups that are not ready: they replace the rows unless
    /// the answer is empty while the user is choosing among the current
    /// rows; the refresh status then names the problem and the diagnosis,
    /// and says when the rows were kept.
    pub fn proxy_groups_unready(&mut self, groups: Vec<ProxyGroupRow>, message: &str, diagnosis: &str, now: u64)
        ensures
            ({
                let kept = groups_kept(*old(self), groups@);
                let mid = if kept { *old(self) } else { applied_groups(*old(self), groups) };
                let text = message@ + "；"@ + diagnosis@ + (if kept {
                    "；保留当前代理列表，避免刷新打断选择"@
                } else {
                    Seq::empty()
                });
                &&& (mid.status_pinned_until matches Some(d) && now < d) ==> *final(self) == mid
                &&& !(mid.status_pinned_until matches Some(d) && now < d) ==> {
                    &&& final(self).status@ == text
                    &&& history_view(final(self).status_history) == recorded(history_view(mid.status_history), text)
                    &&& *final(self) == (TuiApp {
                        status: final(self).status,
                        status_history: final(self).status_history,
                        ..mid
                    })
                }
            }),
    {
        let kept = groups.len() == 0 && self.proxy_groups.len() > 0 && self.proxy_user_selected;
        if !kept {
            self.apply_proxy_groups(groups);
        }
        let mut v = to_chars(message);
        push_str(&mut v, "；");
        push_str(&mut v, diagnosis);
        let ghost before = v@;
        if kept {
            push_str(&mut v, "；保留当前代理列表，避免刷新打断选择");
        } else {
            proof {
                assert(v@ =~= before + Seq::<char>::empty());
            }
        }
        let text = from_chars(&v);
        self.set_refresh_status(text.as_str(), now);
    }
}

/// A node chosen for a group, for the caller to apply.
#[derive(Debug, Clone, PartialEq, Eq)]
pub struct NodeChoice {
    pub group: String,
    pub proxy: String,
    /// The group is an offline preview: the choice is saved for when the
    /// core starts.
    pub offline: bool,
}

/// The message after Enter on the groups pane.
pub open spec fn located_policy_text(g: Option<ProxyGroupRow>) -> Seq<char> {
    match g {
        Some(g) => "已定位策略组："@ + g.name@ + "，请选择节点"@,
        None => "未选择策略组"@,
    }
}

/// The status after a node was applied: saved for later when the group is
/// offline or the core only preselected it, else chosen.
pub open spec fn node_applied_text(group: Seq<char>, proxy: Seq<char>, later: bool) -> Seq<char> {
    if later {
        "已预选 "@ + group + " -> "@ + proxy + "，启动 Core 后自动应用"@
    } else {
        "已为 "@ + group + " 选择 "@ + proxy
    }
}

/// The node meta after a delay test: the delay replaces the node's, or a
/// new entry of unknown type and liveness holds it.
pub open spec fn meta_with_delay(t: Seq<(String, ProxyNodeMeta)>, proxy: Seq<char>, delay: Option<i64>) -> Seq<(Seq<char>, (Seq<char>, Option<i64>, Option<bool>))> {
    upsert(
        meta_views(t),
        proxy,
        match table_get(meta_views(t), proxy) {
            Some(m) => (m.0, delay, m.2),
            None => ("-"@, delay, None),
        },
    )
}

fn meta_lookup(t: &Vec<(String, ProxyNodeMeta)>, proxy: &str) -> (r: Option<ProxyNodeMeta>)
    ensures
        match r {
            Some(m) => table_get(meta_views(t@), proxy@) == Some(meta_view(m)),
            None => table_get(meta_views(t@), proxy@) is None,
        },
{
    let mut i: usize = 0;
    proof {
        assert(meta_views(t@).skip(0) =~= meta_views(t@));
    }
    while i < t.len()
        invariant
            i <= t.len(),
            table_get(meta_views(t@), proxy@) == table_get(meta_views(t@).skip(i as int), proxy@),
        decreases t.len() - i,
    {
        proof {
            assert(meta_views(t@).skip(i as int).skip(1) =~= meta_views(t@).skip(i + 1));
        }
        if str_eq(t[i].0.as_str(), proxy) {
            let m = &t[i].1;
            return Some(ProxyNodeMeta { proxy_type: owned(m.proxy_type.as_str()), delay_ms: m.delay_ms, alive: m.alive });
        }
        i += 1;
    }
    None
}

impl TuiApp {
    /// Enter on the proxies page: on the groups pane the nodes pane opens
    /// on the group's current node; on the nodes pane the selected node of
    /// the selected group is handed back, or the status says what is missing.
    pub fn proxy_selection_request(&mut self) -> (r: Option<NodeChoice>)
        ensures
            old(self).proxy_pane == crate::models::ProxyPane::Groups ==> {
                let m = focus_nodes_on_current(*old(self), final(self).proxy_query);
                &&& r is None
                &&& final(self).proxy_query@ == focus_query_view(*old(self))
                &&& status_after(m, located_policy_text(selected_group(m)), *final(self))
            },
            old(self).proxy_pane == crate::models::ProxyPane::Nodes ==> match selected_group(*old(self)) {
                None => r is None && status_after(*old(self), "未选择策略组"@, *final(self)),
                Some(g) => match selected_node_name(*old(self)) {
                    None => r is None && status_after(*old(self), "未选择代理节点"@, *final(self)),
                    Some(p) => *final(self) == *old(self) && (r matches Some(c) && c.group@ == g.name@ && c.proxy@
                        == p@ && c.offline == g.offline),
                },
            },
    {
        match self.proxy_pane {
            crate::models::ProxyPane::Groups => {
                self.focus_proxy_nodes_on_current();
                let msg = match self.selected_proxy_group() {
                    Some(g) => {
                        let mut v = to_chars("已定位策略组：");
                        push_str(&mut v, g.name.as_str());
                        push_str(&mut v, "，请选择节点");
                        from_chars(&v)
                    },
                    None => owned("未选择策略组"),
                };
                self.set_status(msg.as_str());
                None
            },
            crate::models::ProxyPane::Nodes => {
                let (group, offline) = match self.selected_proxy_group() {
                    Some(g) => (g.name.clone(), g.offline),
                    None => {
                        self.set_status("未选择策略组");
                        return None;
                    },
                };
                match self.selected_proxy_node_name() {
                    Some(proxy) => Some(NodeChoice { group, proxy, offline }),
                    None => {
                        self.set_status("未选择代理节点");
                        None
                    },
                }
            },
        }
    }

    /// Enter on the dashboard's node popup: the popup closes and the
    /// selected node of the dashboard's group is handed back, or the status
    /// says what is missing.
    pub fn dashboard_node_request(&mut self) -> (r: Option<NodeChoice>)
        ensures
            ({
                let closed = TuiApp { dashboard_proxy_popup: crate::models::DashboardProxyPopup::Closed, ..*old(self) };
                match dashboard_group(*old(self)) {
                    None => r is None && status_after(closed, "未选择代理组"@, *final(self)),
                    Some(g) => match selected_dashboard_node_name(*old(self)) {
                        None => r is None && status_after(closed, "未选择代理节点"@, *final(self)),
                        Some(p) => *final(self) == closed && (r matches Some(c) && c.group@ == g.name@ && c.proxy@
                            == p@ && c.offline == g.offline),
                    },
                }
            }),
    {
        let group = match self.dashboard_proxy_group() {
            Some(g) => Some((g.name.clone(), g.offline)),
            None => None,
        };
        let proxy = self.selected_dashboard_proxy_node_name();
        self.dashboard_proxy_popup = crate::models::DashboardProxyPopup::Closed;
        match group {
            None => {
                self.set_status("未选择代理组");
                None
            },
            Some((group, offline)) => match proxy {
                Some(proxy) => Some(NodeChoice { group, proxy, offline }),
                None => {
                    self.set_status("未选择代理节点");
                    None
                },
            },
        }
    }

    /// Takes the answer to applying a chosen node: the profiles it returns
    /// (keeping profile-bound state), the group's current node, and a
    /// status saying whether the node is in use or saved for later
    /// (`preselected`); an error is shown with its URLs redacted. The next
    /// refresh is due at once.
    pub fn node_choice_applied(&mut self, choice: &NodeChoice, answer: Result<(ProfileCatalog, bool), String>)
        ensures
            match answer {
                Ok((catalog, preselected)) => exists|m1: TuiApp, m2: TuiApp|
                    {
                        &&& profiles_applied(*old(self), catalog, false, m1)
                        &&& now_updated(m1.proxy_groups@, choice.group@, choice.proxy@, m2.proxy_groups@)
                        &&& m2 == now_set(TuiApp { proxy_groups: m2.proxy_groups, ..m1 }, choice.group@, choice.proxy@)
                        &&& status_after(
                            TuiApp { last_refresh: None, ..m2 },
                            node_applied_text(choice.group@, choice.proxy@, choice.offline || preselected),
                            *final(self),
                        )
                    },
                Err(e) => status_after(TuiApp { last_refresh: None, ..*old(self) }, sanitized(e@), *final(self)),
            },
    {
        match answer {
            Ok((catalog, preselected)) => {
                self.apply_profiles_without_runtime_reset(catalog);
                let ghost m1 = *self;
                self.set_selected_proxy_group_now(choice.group.as_str(), choice.proxy.as_str());
                let ghost m2 = *self;
                self.last_refresh = None;
                let mut v: Vec<char>;
                if choice.offline || preselected {
                    v = to_chars("已预选 ");
                    push_str(&mut v, choice.group.as_str());
                    push_str(&mut v, " -> ");
                    push_str(&mut v, choice.proxy.as_str());
                    push_str(&mut v, "，启动 Core 后自动应用");
                } else {
                    v = to_chars("已为 ");
                    push_str(&mut v, choice.group.as_str());
                    push_str(&mut v, " 选择 ");
                    push_str(&mut v, choice.proxy.as_str());
                }
                let m = from_chars(&v);
                self.set_status(m.as_str());
                proof {
                    assert(profiles_applied(*old(self), catalog, false, m1));
                }
            },
            Err(e) => {
                self.last_refresh = None;
                let m = sanitize_url_error(e.as_str());
                self.set_status(m.as_str());
            },
        }
    }

    /// The node to test the delay of: the selected node of the selected
    /// group, which must not be an offline preview. It becomes the
    /// remembered choice, marked as the user's.
    pub fn delay_test_request(&mut self) -> (r: Option<String>)
        ensures
            match selected_group(*old(self)) {
                None => r is None && status_after(*old(self), "未选择策略组"@, *final(self)),
                Some(g) => match selected_node_name(*old(self)) {
                    None => r is None && status_after(*old(self), "未选择代理节点"@, *final(self)),
                    Some(p) => if g.offline {
                        r is None && status_after(
                            *old(self),
                            "当前为离线预览，启动 Core 后才能测速节点："@ + p@,
                            *final(self),
                        )
                    } else {
                        &&& r matches Some(x) && x@ == p@
                        &&& final(self).proxy_group_selection_key matches Some(k) && k@ == g.name@
                        &&& final(self).proxy_node_selection_key matches Some(k) && k@ == p@
                        &&& *final(self) == (TuiApp {
                            proxy_group_selection_key: final(self).proxy_group_selection_key,
                            proxy_node_selection_key: final(self).proxy_node_selection_key,
                            proxy_user_selected: true,
                            ..*old(self)
                        })
                    },
                },
            },
    {
        let (group, offline) = match self.selected_proxy_group() {
            Some(g) => (g.name.clone(), g.offline),
            None => {
                self.set_status("未选择策略组");
                return None;
            },
        };
        let proxy = match self.selected_proxy_node_name() {
            Some(p) => p,
            None => {
                self.set_status("未选择代理节点");
                return None;
            },
        };
        if offline {
            let mut v = to_chars("当前为离线预览，启动 Core 后才能测速节点：");
            push_str(&mut v, proxy.as_str());
            let m = from_chars(&v);
            self.set_status(m.as_str());
            return None;
        }
        self.proxy_group_selection_key = Some(group);
        self.proxy_node_selection_key = Some(owned(proxy.as_str()));
        self.mark_proxy_user_selection();
        Some(proxy)
    }

    /// Records a measured delay in the node meta.
    pub fn record_proxy_delay(&mut self, proxy: &str, delay: Option<i64>)
        ensures
            meta_views(final(self).proxy_node_meta@) == meta_with_delay(old(self).proxy_node_meta@, proxy@, delay),
            *final(self) == (TuiApp { proxy_node_meta: final(self).proxy_node_meta, ..*old(self) }),
    {
        let meta = match meta_lookup(&self.proxy_node_meta, proxy) {
            Some(m) => ProxyNodeMeta { proxy_type: m.proxy_type, delay_ms: delay, alive: m.alive },
            None => ProxyNodeMeta { proxy_type: owned("-"), delay_ms: delay, alive: None },
        };
        upsert_meta(&mut self.proxy_node_meta, owned(proxy), meta);
    }
}

/// The status after a delay test: the delay as shown in the list, or the
/// error with its URLs redacted.
pub fn delay_test_message(proxy: &str, answer: &Result<Option<i64>, String>) -> (r: String)
    ensures
        r@ == (match answer {
            Ok(d) => "已测速 "@ + proxy@ + "："@ + delay_text(*d),
            Err(e) => "测速 "@ + proxy@ + " 失败："@ + sanitized(e@),
        }),
{
    match answer {
        Ok(d) => {
            let mut v = to_chars("已测速 ");
            push_str(&mut v, proxy);
            push_str(&mut v, "：");
            let t = format_proxy_delay(*d);
            push_str(&mut v, t.as_str());
            from_chars(&v)
        },
        Err(e) => {
            let mut v = to_chars("测速 ");
            push_str(&mut v, proxy);
            push_str(&mut v, " 失败：");
            let clean = sanitize_url_error(e.as_str());
            push_str(&mut v, clean.as_str());
            from_chars(&v)
        },
    }
}

/// What retrying the selected job asks for: the target of a subscription
/// update job, or why it cannot be retried.
pub fn retry_target(job: Option<&crate::models::JobRecord>) -> (r: Result<String, String>)
    ensures
        match job {
            None => r matches Err(e) && e@ == "未选择任务"@,
            Some(j) => if j.kind@ != "profile-update"@ {
                r matches Err(e) && e@ == "只有订阅更新任务支持重试"@
            } else {
                match j.target {
                    Some(t) => r matches Ok(x) && x@ == t@,
                    None => r matches Err(e) && e@ == "当前任务缺少目标"@,
                }
            },
        },
{
    match job {
        None => Err(owned("未选择任务")),
        Some(j) => {
            if !str_eq(j.kind.as_str(), "profile-update") {
                Err(owned("只有订阅更新任务支持重试"))
            } else {
                match &j.target {
                    Some(t) => Ok(owned(t.as_str())),
                    None => Err(owned("当前任务缺少目标")),
                }
            }
        },
    }
}

/// The status after asking for a retry: a new job, or one of the same kind
/// already running.
pub fn retry_job_message(created: bool, job_id: &str) -> (r: String)
    ensures
        r@ == (if created {
            "已创建重试任务："@
        } else {
            "已有同类任务正在运行："@
        }) + job_id@,
{
    let mut v = if created {
        to_chars("已创建重试任务：")
    } else {
        to_chars("已有同类任务正在运行：")
    };
    push_str(&mut v, job_id);
    from_chars(&v)
}

/// Walking the answers of a batch update in order: the feedback table,
/// the counts of successes and failures, and up to three failure examples.
pub open spec fn batch_fold(
    table: Seq<(Seq<char>, Seq<char>)>,
    kind: ProviderDialogKind,
    answers: Seq<(Seq<char>, Result<Seq<char>, Seq<char>>)>,
) -> (Seq<(Seq<char>, Seq<char>)>, nat, nat, Seq<Seq<char>>)
    decreases answers.len(),
{
    if answers.len() == 0 {
        (table, 0, 0, Seq::empty())
    } else {
        let (t, ok, failed, examples) = batch_fold(table, kind, answers.drop_last());
        let (requested, answer) = answers.last();
        match answer {
            Ok(reported) => {
                let name = if trim(reported).len() == 0 { requested } else { reported };
                (upsert(t, feedback_key(kind, name), "更新已触发"@), ok + 1, failed, examples)
            },
            Err(e) => (
                upsert(t, feedback_key(kind, requested), "更新失败"@),
                ok,
                failed + 1,
                if examples.len() < 3 { examples.push(requested + ": "@ + sanitized(e)) } else { examples },
            ),
        }
    }
}

pub open spec fn answer_views(a: Seq<(String, Result<String, String>)>) -> Seq<(Seq<char>, Result<Seq<char>, Seq<char>>)> {
    a.map_values(
        |p: (String, Result<String, String>)|
            (
                p.0@,
                match p.1 {
                    Ok(x) => Ok(x@),
                    Err(e) => Err(e@),
                },
            ),
    )
}

impl TuiApp {
    /// Takes the answers of updating every provider of a dialog, one per
    /// requested provider: each leaves its feedback; the counts and up to
    /// three failure examples come back for the final status.
    pub fn provider_batch_done(&mut self, kind: ProviderDialogKind, answers: &Vec<(String, Result<String, String>)>) -> (r: (
        usize,
        usize,
        Vec<String>,
    ))
        ensures
            ({
                let (t, ok, failed, examples) = batch_fold(
                    feedback_views(old(self).provider_operation_feedback@),
                    kind,
                    answer_views(answers@),
                );
                &&& feedback_views(final(self).provider_operation_feedback@) == t
                &&& r.0 == ok
                &&& r.1 == failed
                &&& crate::strs::views(r.2@) == examples
            }),
            r.0 + r.1 == answers@.len(),
            r.2@.len() <= 3,
            *final(self) == (TuiApp { provider_operation_feedback: final(self).provider_operation_feedback, ..*old(self) }),
    {
        let ghost t0 = feedback_views(self.provider_operation_feedback@);
        let ghost av = answer_views(answers@);
        let mut ok: usize = 0;
        let mut failed: usize = 0;
        let mut examples: Vec<String> = Vec::new();
        let mut i: usize = 0;
        while i < answers.len()
            invariant
                i <= answers.len(),
                av == answer_views(answers@),
                ok + failed == i,
                examples@.len() <= 3,
                batch_fold(t0, kind, av.take(i as int)) == (
                    feedback_views(self.provider_operation_feedback@),
                    ok as nat,
                    failed as nat,
                    crate::strs::views(examples@),
                ),
                *self == (TuiApp { provider_operation_feedback: self.provider_operation_feedback, ..*old(self) }),
            decreases answers.len() - i,
        {
            proof {
                assert(av.take(i + 1).drop_last() =~= av.take(i as int));
                assert(av.take(i + 1).last() == av[i as int]);
            }
            let (requested, answer) = (&answers[i].0, &answers[i].1);
            match answer {
                Ok(reported) => {
                    let name = if str_blank(reported.as_str()) {
                        owned(requested.as_str())
                    } else {
                        owned(reported.as_str())
                    };
                    self.set_provider_feedback(kind, name.as_str(), "更新已触发");
                    ok = ok + 1;
                },
                Err(e) => {
                    self.set_provider_feedback(kind, requested.as_str(), "更新失败");
                    failed = failed + 1;
                    if examples.len() < 3 {
                        let x = provider_batch_example(requested.as_str(), e.as_str());
                        let ghost before = crate::strs::views(examples@);
                        examples.push(x);
                        proof {
                            assert(crate::strs::views(examples@) =~= before.push(x@));
                        }
                    }
                },
            }
            i += 1;
        }
        proof {
            assert(av.take(answers.len() as int) =~= av);
        }
        (ok, failed, examples)
    }
}

impl TuiApp {
    /// Shows the answer to an action as a pinned status: its message, or
    /// the error after `错误：`.
    pub fn set_action_status(&mut self, result: Result<String, String>, now: u64)
        requires
            now + IMPORTANT_STATUS_PIN_MILLIS <= u64::MAX,
        ensures
            final(self).status@ == (match result {
                Ok(m) => m@,
                Err(e) => "错误："@ + e@,
            }),
            history_view(final(self).status_history) == recorded(
                history_view(old(self).status_history),
                final(self).status@,
            ),
            *final(self) == (TuiApp {
                status: final(self).status,
                status_history: final(self).status_history,
                status_pinned_until: Some((now + IMPORTANT_STATUS_PIN_MILLIS) as u64),
                ..*old(self)
            }),
    {
        match result {
            Ok(m) => self.set_important_status(m.as_str(), now),
            Err(e) => {
                let m = action_error_message(e.as_str());
                self.set_important_status(m.as_str(), now);
            },
        }
    }
}

/// The profile file to import from the submitted text: trimmed, not empty.
pub fn local_profile_path(raw: &str) -> (r: Result<String, String>)
    ensures
        trim(raw@).len() == 0 ==> (r matches Err(e) && e@ == "本地配置路径不能为空"@),
        trim(raw@).len() > 0 ==> (r matches Ok(p) && p@ == trim(raw@)),
{
    let t = str_trim(raw);
    if t.len() == 0 {
        Err(owned("本地配置路径不能为空"))
    } else {
        Ok(from_chars(&t))
    }
}

/// How an import from a local file ended.
#[derive(Debug, Clone, PartialEq, Eq)]
pub enum LocalImport {
    Imported,
    /// The core refused the file.
    Refused(String),
    /// The file could not be read.
    Unreadable(String),
}

/// The status after an import from a local file.
pub fn local_import_message(outcome: &LocalImport) -> (r: String)
    ensures
        r@ == (match outcome {
            LocalImport::Imported => "本地配置导入成功"@,
            LocalImport::Refused(e) => "本地配置导入失败："@ + e@,
            LocalImport::Unreadable(e) => "读取本地配置失败："@ + e@,
        }),
{
    match outcome {
        LocalImport::Imported => owned("本地配置导入成功"),
        LocalImport::Refused(e) => {
            let mut v = to_chars("本地配置导入失败：");
            push_str(&mut v, e.as_str());
            from_chars(&v)
        },
        LocalImport::Unreadable(e) => {
            let mut v = to_chars("读取本地配置失败：");
            push_str(&mut v, e.as_str());
            from_chars(&v)
        },
    }
}

/// The status after asking to cancel a job: the job store's report, or
/// that the job no longer exists.
pub fn cancel_job_message(report: Option<&str>) -> (r: String)
    ensures
        r@ == (match report {
            Some(m) => "任务取消："@ + m@,
            None => "任务不存在"@,
        }),
{
    match report {
        Some(m) => {
            let mut v = to_chars("任务取消：");
            push_str(&mut v, m);
            from_chars(&v)
        },
        None => owned("任务不存在"),
    }
}

/// The status after an offline runtime preview replaced the proxy groups.
pub fn runtime_preview_message(reason: &str, groups: usize) -> (r: String)
    ensures
        r@ == reason@ + "；已显示 runtime 离线预览 "@ + dec(groups as nat) + " 个策略组；可预选节点，启动 Core 后自动应用"@,
{
    let mut v = to_chars(reason);
    push_str(&mut v, "；已显示 runtime 离线预览 ");
    push_usize(&mut v, groups);
    push_str(&mut v, " 个策略组；可预选节点，启动 Core 后自动应用");
    from_chars(&v)
}

impl TuiApp {
    /// The id of the selected job, or that none is selected.
    pub fn selected_job_id(&self) -> (r: Result<String, String>)
        ensures
            self.job_index < self.jobs@.len() ==> (r matches Ok(id) && id@ == self.jobs@[self.job_index as int].id@),
            self.job_index >= self.jobs@.len() ==> (r matches Err(e) && e@ == "未选择任务"@),
    {
        if self.job_index < self.jobs.len() {
            Ok(owned(self.jobs[self.job_index].id.as_str()))
        } else {
            Err(owned("未选择任务"))
        }
    }
}

} // verus!
