//! The diagnosis report as the client summarises it: one status line, the
//! recommendations, and what the runtime configuration holds.
use vstd::prelude::*;
use vstd::string::*;
use crate::controller::ControllerHealth;
use crate::labels::{kernel_state_label, kernel_state_text};
use crate::models::{KernelState, DIAGNOSE_RECOMMENDATION_HISTORY_LIMIT};
use crate::state::{history_view, recorded, TuiApp};
use crate::strs::{
    blank, copy_string, dec, from_chars, join, join_strings, owned, push_str, push_usize,
    str_blank, to_chars, views,
};
use crate::text::{link_marker, redact, safe_text, status_history_text};

verus! {

/// The overall verdict of a diagnosis.
#[derive(Debug, Clone, Copy, PartialEq, Eq, Structural)]
pub enum DiagnoseStatus {
    Ready,
    NeedsAttention,
    Blocked,
}

/// The profile in use.
#[derive(Debug, Clone, PartialEq, Eq)]
pub struct ProfileBrief {
    pub uid: Option<String>,
    pub name: Option<String>,
    pub profile_type: Option<String>,
}

/// How many runtime proxies have a type.
#[derive(Debug, Clone, PartialEq, Eq)]
pub struct RuntimeTypeCount {
    pub proxy_type: String,
    pub count: usize,
}

/// What the runtime configuration holds.
#[derive(Debug, Clone, PartialEq, Eq)]
pub struct RuntimeProbe {
    pub readable: bool,
    pub path: String,
    pub proxies: usize,
    pub providers: usize,
    pub groups: usize,
    pub rules: usize,
    pub proxy_types: Vec<RuntimeTypeCount>,
    pub proxy_samples: Vec<String>,
    pub provider_samples: Vec<String>,
    pub group_samples: Vec<String>,
    pub group_proxy_refs: usize,
    pub group_provider_refs: usize,
    pub error: Option<String>,
}

/// Whether the controller serves usable proxy groups.
#[derive(Debug, Clone, PartialEq, Eq)]
pub struct ProxyProbe {
    pub ready: bool,
    pub entries: usize,
    pub groups: usize,
    pub nodes: usize,
    pub error: Option<String>,
}

/// What the core log shows.
#[derive(Debug, Clone, PartialEq, Eq)]
pub struct LogProbe {
    pub recent: Vec<String>,
    pub warnings: usize,
    pub errors: usize,
    pub last_error: Option<String>,
}

/// A diagnosis of the client, the core and its configuration.
#[derive(Debug, Clone, PartialEq, Eq)]
pub struct DiagnoseReport {
    pub status: DiagnoseStatus,
    pub current_profile: Option<ProfileBrief>,
    pub kernel_state: KernelState,
    pub controller: ControllerHealth,
    pub runtime: RuntimeProbe,
    pub proxies: ProxyProbe,
    pub logs: LogProbe,
    pub recommendations: Vec<String>,
}

pub open spec fn status_text(status: DiagnoseStatus) -> Seq<char> {
    match status {
        DiagnoseStatus::Ready => "就绪"@,
        DiagnoseStatus::NeedsAttention => "需处理"@,
        DiagnoseStatus::Blocked => "阻塞"@,
    }
}

/// The word for a diagnosis verdict.
pub fn diagnose_status_label(status: DiagnoseStatus) -> (r: &'static str)
    ensures
        r@ == status_text(status),
{
    match status {
        DiagnoseStatus::Ready => "就绪",
        DiagnoseStatus::NeedsAttention => "需处理",
        DiagnoseStatus::Blocked => "阻塞",
    }
}

/// The profile of a report: its name, else its uid, else `未选择`.
pub open spec fn profile_text(p: Option<ProfileBrief>) -> Seq<char> {
    match p {
        Some(b) => match b.name {
            Some(n) => n@,
            None => match b.uid {
                Some(u) => u@,
                None => "未选择"@,
            },
        },
        None => "未选择"@,
    }
}

/// The suggestion of the status line, before it is made safe: while the
/// proxies are not ready the core's latest error comes first, then the
/// first recommendation, else `无额外建议`.
pub open spec fn raw_suggestion(r: DiagnoseReport) -> Seq<char> {
    let first = if r.recommendations@.len() > 0 {
        Some(r.recommendations@[0]@)
    } else {
        None
    };
    if !r.proxies.ready && r.logs.last_error is Some {
        "Core 最近错误："@ + r.logs.last_error->0@
    } else {
        match first {
            Some(f) => f,
            None => "无额外建议"@,
        }
    }
}

/// The status line of a diagnosis: verdict, profile, core, controller,
/// counts, and the first suggestion (URLs hidden, terminal-safe), noting
/// how many recommendations there are when there is more than one.
pub open spec fn diagnose_text(r: DiagnoseReport) -> Seq<char> {
    let n = r.recommendations@.len();
    let label = if n > 1 {
        "建议（共"@ + dec(n) + "条，按 n 查看）"@
    } else {
        "建议"@
    };
    "诊断："@ + status_text(r.status) + "，Profile="@ + profile_text(r.current_profile) + "，Core="@
        + kernel_state_text(r.kernel_state) + "，controller="@ + (if r.controller.healthy {
        "健康"@
    } else {
        "不可用"@
    }) + "，runtime 策略组="@ + dec(r.runtime.groups as nat) + "，代理组="@ + dec(
        r.proxies.groups as nat,
    ) + "/"@ + dec(r.proxies.nodes as nat) + "，日志错误="@ + dec(r.logs.errors as nat) + "；"@
        + label + "："@ + safe_text(redact(raw_suggestion(r), link_marker()))
}

/// The one-line summary of a diagnosis.
pub fn diagnose_status_message(report: &DiagnoseReport) -> (r: String)
    ensures
        r@ == diagnose_text(*report),
{
    let profile: String = match &report.current_profile {
        Some(b) => match &b.name {
            Some(n) => copy_string(n),
            None => match &b.uid {
                Some(u) => copy_string(u),
                None => owned("未选择"),
            },
        },
        None => owned("未选择"),
    };
    let raw: String = if !report.proxies.ready && report.logs.last_error.is_some() {
        let mut v = to_chars("Core 最近错误：");
        match &report.logs.last_error {
            Some(e) => push_str(&mut v, e.as_str()),
            None => {},
        }
        from_chars(&v)
    } else if report.recommendations.len() > 0 {
        copy_string(&report.recommendations[0])
    } else {
        owned("无额外建议")
    };
    let suggestion = status_history_text(raw.as_str());
    let mut v = to_chars("诊断：");
    push_str(&mut v, diagnose_status_label(report.status));
    push_str(&mut v, "，Profile=");
    push_str(&mut v, profile.as_str());
    push_str(&mut v, "，Core=");
    push_str(&mut v, kernel_state_label(report.kernel_state));
    push_str(&mut v, "，controller=");
    push_str(
        &mut v,
        if report.controller.healthy {
            "健康"
        } else {
            "不可用"
        },
    );
    push_str(&mut v, "，runtime 策略组=");
    push_usize(&mut v, report.runtime.groups);
    push_str(&mut v, "，代理组=");
    push_usize(&mut v, report.proxies.groups);
    push_str(&mut v, "/");
    push_usize(&mut v, report.proxies.nodes);
    push_str(&mut v, "，日志错误=");
    push_usize(&mut v, report.logs.errors);
    push_str(&mut v, "；");
    let n = report.recommendations.len();
    if n > 1 {
        push_str(&mut v, "建议（共");
        push_usize(&mut v, n);
        push_str(&mut v, "条，按 n 查看）");
    } else {
        push_str(&mut v, "建议");
    }
    push_str(&mut v, "：");
    push_str(&mut v, suggestion.as_str());
    from_chars(&v)
}

/// The recommendations that are not blank.
pub open spec fn non_blank(items: Seq<Seq<char>>) -> Seq<Seq<char>> {
    items.filter(|s: Seq<char>| !blank(s))
}

/// The numbered recommendation lines, at most `limit`, then how many more
/// there are.
pub open spec fn recommendation_lines(items: Seq<Seq<char>>, limit: nat) -> Seq<Seq<char>> {
    let kept = non_blank(items);
    let shown = if kept.len() <= limit {
        kept.len()
    } else {
        limit
    };
    let lines = Seq::new(
        shown,
        |i: int| "建议 "@ + dec((i + 1) as nat) + "："@ + safe_text(redact(kept[i], link_marker())),
    );
    if kept.len() > limit {
        lines.push(
            "还有 "@ + dec((kept.len() - limit) as nat)
                + " 条建议；按 E 导出诊断快照，或运行 clash-tui --json diagnose 查看完整报告"@,
        )
    } else {
        lines
    }
}

/// The recommendation lines of a diagnosis, at most `limit` of them.
pub fn diagnose_recommendation_lines(report: &DiagnoseReport, limit: usize) -> (r: Vec<String>)
    ensures
        views(r@) == recommendation_lines(views(report.recommendations@), limit as nat),
{
    let items = &report.recommendations;
    let mut kept: Vec<String> = Vec::new();
    let mut i: usize = 0;
    while i < items.len()
        invariant
            i <= items.len(),
            views(kept@) == non_blank(views(items@.take(i as int))),
        decreases items.len() - i,
    {
        let ghost next_items = views(items@.take(i + 1));
        proof {
            assert(next_items.drop_last() =~= views(items@.take(i as int)));
            assert(next_items.last() == items@[i as int]@);
        }
        if !str_blank(items[i].as_str()) {
            let ghost before = kept@;
            let c = copy_string(&items[i]);
            kept.push(c);
            proof {
                assert(views(kept@) =~= views(before).push(c@));
            }
        }
        i += 1;
        proof {
            reveal_with_fuel(Seq::filter, 1);
            assert(non_blank(next_items) == (if !blank(next_items.last()) {
                non_blank(next_items.drop_last()).push(next_items.last())
            } else {
                non_blank(next_items.drop_last())
            }));
            assert(views(kept@) =~= non_blank(views(items@.take(i as int))));
        }
    }
    proof {
        assert(items@.take(items.len() as int) =~= items@);
    }
    let ghost kept_model = non_blank(views(items@));
    let shown = if kept.len() <= limit {
        kept.len()
    } else {
        limit
    };
    let mut lines: Vec<String> = Vec::new();
    let mut k: usize = 0;
    while k < shown
        invariant
            k <= shown,
            shown <= kept.len(),
            views(kept@) == kept_model,
            views(lines@) == Seq::new(
                k as nat,
                |i: int| "建议 "@ + dec((i + 1) as nat) + "："@ + safe_text(redact(kept_model[i], link_marker())),
            ),
        decreases shown - k,
    {
        let mut v = to_chars("建议 ");
        push_usize(&mut v, k + 1);
        push_str(&mut v, "：");
        let safe = status_history_text(kept[k].as_str());
        push_str(&mut v, safe.as_str());
        let line = from_chars(&v);
        let ghost before = lines@;
        lines.push(line);
        proof {
            assert(kept_model[k as int] == kept@[k as int]@);
            assert(views(lines@) =~= views(before).push(line@));
            assert(views(lines@) =~= Seq::new(
                (k + 1) as nat,
                |i: int| "建议 "@ + dec((i + 1) as nat) + "："@ + safe_text(redact(kept_model[i], link_marker())),
            ));
        }
        k += 1;
    }
    if kept.len() > limit {
        let mut v = to_chars("还有 ");
        push_usize(&mut v, kept.len() - limit);
        push_str(&mut v, " 条建议；按 E 导出诊断快照，或运行 clash-tui --json diagnose 查看完整报告");
        let line = from_chars(&v);
        let ghost before = lines@;
        lines.push(line);
        proof {
            assert(views(lines@) =~= views(before).push(line@));
        }
    }
    lines
}

/// `items` cut to `limit`, with `more` appended when some were cut.
pub open spec fn limited(items: Seq<Seq<char>>, limit: nat, more: Seq<char>) -> Seq<Seq<char>> {
    if items.len() > limit {
        items.take(limit as int).push(more)
    } else {
        items
    }
}

pub open spec fn type_count_text(t: RuntimeTypeCount) -> Seq<char> {
    t.proxy_type@ + "="@ + dec(t.count as nat)
}

/// `type=count` for the first `limit` types, joined by `, `, then the
/// number of types when there are more.
pub open spec fn type_counts_text(items: Seq<RuntimeTypeCount>, limit: nat) -> Seq<char> {
    join(
        limited(
            items.map_values(|t: RuntimeTypeCount| type_count_text(t)),
            limit,
            "等"@ + dec(items.len()) + "类"@,
        ),
        ", "@,
    )
}

/// Lists the proxy types of the runtime with their counts.
pub fn format_runtime_type_counts(items: &Vec<RuntimeTypeCount>, limit: usize) -> (r: String)
    ensures
        r@ == type_counts_text(items@, limit as nat),
{
    let ghost all = items@.map_values(|t: RuntimeTypeCount| type_count_text(t));
    let mut values: Vec<String> = Vec::new();
    let mut i: usize = 0;
    while i < items.len() && i < limit
        invariant
            i <= items.len(),
            i <= limit,
            all == items@.map_values(|t: RuntimeTypeCount| type_count_text(t)),
            views(values@) == all.take(i as int),
        decreases items.len() - i,
    {
        let mut v = to_chars(items[i].proxy_type.as_str());
        push_str(&mut v, "=");
        push_usize(&mut v, items[i].count);
        let s = from_chars(&v);
        let ghost before = values@;
        values.push(s);
        proof {
            assert(views(values@) =~= views(before).push(s@));
            assert(views(values@) =~= all.take(i + 1));
        }
        i += 1;
    }
    if items.len() > limit {
        let mut v = to_chars("等");
        push_usize(&mut v, items.len());
        push_str(&mut v, "类");
        let s = from_chars(&v);
        let ghost before = values@;
        values.push(s);
        proof {
            assert(views(values@) =~= views(before).push(s@));
        }
    } else {
        proof {
            assert(all.take(i as int) =~= all);
        }
    }
    join_strings(&values, ", ")
}

/// The first `limit` samples joined by `、`, then how many there are when
/// there are more.
pub open spec fn sample_list_text(items: Seq<Seq<char>>, limit: nat) -> Seq<char> {
    join(limited(items, limit, "等"@ + dec(items.len()) + "项"@), "、"@)
}

/// Lists a few samples.
pub fn format_sample_list(items: &Vec<String>, limit: usize) -> (r: String)
    ensures
        r@ == sample_list_text(views(items@), limit as nat),
{
    let mut values: Vec<String> = Vec::new();
    let mut i: usize = 0;
    while i < items.len() && i < limit
        invariant
            i <= items.len(),
            i <= limit,
            views(values@) == views(items@).take(i as int),
        decreases items.len() - i,
    {
        let s = copy_string(&items[i]);
        let ghost before = values@;
        values.push(s);
        proof {
            assert(views(values@) =~= views(before).push(s@));
            assert(views(values@) =~= views(items@).take(i + 1));
        }
        i += 1;
    }
    if items.len() > limit {
        let mut v = to_chars("等");
        push_usize(&mut v, items.len());
        push_str(&mut v, "项");
        let s = from_chars(&v);
        let ghost before = values@;
        values.push(s);
        proof {
            assert(views(values@) =~= views(before).push(s@));
        }
    } else {
        proof {
            assert(views(items@).take(i as int) =~= views(items@));
        }
    }
    join_strings(&values, "、")
}

/// The runtime lines of a diagnosis: the read error alone, or the counts
/// (when readable), the types, samples of groups, references of the
/// groups, samples of providers and of proxies, each when there are any.
pub open spec fn runtime_lines(rt: RuntimeProbe) -> Seq<Seq<char>> {
    match rt.error {
        Some(e) => seq!["runtime 读取失败："@ + e@],
        None => {
            let l1: Seq<Seq<char>> = if rt.readable {
                seq![
                    "runtime 配置：节点="@ + dec(rt.proxies as nat) + "，Provider="@ + dec(
                        rt.providers as nat,
                    ) + "，策略组="@ + dec(rt.groups as nat) + "，规则="@ + dec(rt.rules as nat),
                ]
            } else {
                seq![]
            };
            let l2: Seq<Seq<char>> = if rt.proxy_types@.len() > 0 {
                seq!["runtime 类型："@ + type_counts_text(rt.proxy_types@, 6)]
            } else {
                seq![]
            };
            let l3: Seq<Seq<char>> = if rt.group_samples@.len() > 0 {
                seq!["runtime 策略组样本："@ + sample_list_text(views(rt.group_samples@), 4)]
            } else {
                seq![]
            };
            let l4: Seq<Seq<char>> = if rt.group_proxy_refs > 0 || rt.group_provider_refs > 0 {
                seq![
                    "策略组引用：节点="@ + dec(rt.group_proxy_refs as nat) + "，Provider="@ + dec(
                        rt.group_provider_refs as nat,
                    ),
                ]
            } else {
                seq![]
            };
            let l5: Seq<Seq<char>> = if rt.provider_samples@.len() > 0 {
                seq!["runtime Provider 样本："@ + sample_list_text(views(rt.provider_samples@), 4)]
            } else {
                seq![]
            };
            let l6: Seq<Seq<char>> = if rt.proxy_samples@.len() > 0 {
                seq!["runtime 节点样本："@ + sample_list_text(views(rt.proxy_samples@), 4)]
            } else {
                seq![]
            };
            l1 + l2 + l3 + l4 + l5 + l6
        },
    }
}

fn prefixed(prefix: &str, body: &str) -> (r: String)
    ensures
        r@ == prefix@ + body@,
{
    let mut v = to_chars(prefix);
    push_str(&mut v, body);
    from_chars(&v)
}

/// The runtime lines of a diagnosis.
pub fn diagnose_runtime_detail_lines(report: &DiagnoseReport) -> (r: Vec<String>)
    ensures
        views(r@) == runtime_lines(report.runtime),
{
    let rt = &report.runtime;
    let mut lines: Vec<String> = Vec::new();
    if let Some(e) = &rt.error {
        lines.push(prefixed("runtime 读取失败：", e.as_str()));
        proof {
            assert(views(lines@) =~= runtime_lines(report.runtime));
        }
        return lines;
    }
    if rt.readable {
        let mut v = to_chars("runtime 配置：节点=");
        push_usize(&mut v, rt.proxies);
        push_str(&mut v, "，Provider=");
        push_usize(&mut v, rt.providers);
        push_str(&mut v, "，策略组=");
        push_usize(&mut v, rt.groups);
        push_str(&mut v, "，规则=");
        push_usize(&mut v, rt.rules);
        lines.push(from_chars(&v));
    }
    if rt.proxy_types.len() > 0 {
        let body = format_runtime_type_counts(&rt.proxy_types, 6);
        lines.push(prefixed("runtime 类型：", body.as_str()));
    }
    if rt.group_samples.len() > 0 {
        let body = format_sample_list(&rt.group_samples, 4);
        lines.push(prefixed("runtime 策略组样本：", body.as_str()));
    }
    if rt.group_proxy_refs > 0 || rt.group_provider_refs > 0 {
        let mut v = to_chars("策略组引用：节点=");
        push_usize(&mut v, rt.group_proxy_refs);
        push_str(&mut v, "，Provider=");
        push_usize(&mut v, rt.group_provider_refs);
        lines.push(from_chars(&v));
    }
    if rt.provider_samples.len() > 0 {
        let body = format_sample_list(&rt.provider_samples, 4);
        lines.push(prefixed("runtime Provider 样本：", body.as_str()));
    }
    if rt.proxy_samples.len() > 0 {
        let body = format_sample_list(&rt.proxy_samples, 4);
        lines.push(prefixed("runtime 节点样本：", body.as_str()));
    }
    proof {
        assert(views(lines@) =~= runtime_lines(report.runtime));
    }
    lines
}

/// The history after recording each line in turn, after `诊断`.
pub open spec fn recorded_all(h: Seq<Seq<char>>, lines: Seq<Seq<char>>) -> Seq<Seq<char>>
    decreases lines.len(),
{
    if lines.len() == 0 {
        h
    } else {
        recorded(recorded_all(h, lines.drop_last()), "诊断"@ + lines.last())
    }
}

impl TuiApp {
    /// Records the report's numbered recommendations (up to eight) in the
    /// status history.
    pub fn record_diagnose_recommendations(&mut self, report: &DiagnoseReport)
        ensures
            history_view(final(self).status_history) == recorded_all(
                history_view(old(self).status_history),
                recommendation_lines(views(report.recommendations@), DIAGNOSE_RECOMMENDATION_HISTORY_LIMIT as nat),
            ),
            *final(self) == (TuiApp { status_history: final(self).status_history, ..*old(self) }),
    {
        let lines = diagnose_recommendation_lines(report, DIAGNOSE_RECOMMENDATION_HISTORY_LIMIT);
        let ghost lv = views(lines@);
        let ghost h0 = history_view(self.status_history);
        let mut i: usize = 0;
        while i < lines.len()
            invariant
                i <= lines.len(),
                lv == views(lines@),
                history_view(self.status_history) == recorded_all(h0, lv.take(i as int)),
                *self == (TuiApp { status_history: self.status_history, ..*old(self) }),
            decreases lines.len() - i,
        {
            proof {
                assert(lv.take(i + 1).drop_last() =~= lv.take(i as int));
                assert(lv.take(i + 1).last() == lines@[i as int]@);
            }
            let mut v = to_chars("诊断");
            push_str(&mut v, lines[i].as_str());
            let m = from_chars(&v);
            self.record_status(m.as_str());
            i += 1;
        }
        proof {
            assert(lv.take(lines.len() as int) =~= lv);
        }
    }
}

} // verus!
