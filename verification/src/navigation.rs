//! Paging between views and moving the cursor of the current list.
use vstd::prelude::*;
use vstd::view::View as _;
use crate::strs::{contains, lower, trim, chars_lower, chars_contains, to_chars, str_trim, push_str, from_chars};
use crate::models::{
    DashboardProxyPopup, LogLevelFilter, ProxyPane, View, filter_levels,
};
use crate::labels::{job_status_label, job_status_text};
use crate::text::log_has_level_spec;
use crate::selection::{moved_index, position, move_in_indices, move_index, clamp_with_indices, clamp_index};
use crate::state::{TuiApp, recorded, history_view};
use crate::proxy_select::{
    clamp_dashboard_group, clamp_dashboard_node, clamp_node, clamped, dashboard_group_indices,
    dashboard_node_indices, field_match, focus_nodes_on_current, focus_query_view, group_indices, indices_where,
    node_indices, remember_dashboard_group, remember_dashboard_node, remember_group, remember_node,
    restore_group, select_current_dashboard_node, select_current_node, select_query_view, selected_group,
};

verus! {

/// The number of rows of the settings page.
pub const SETTINGS_ROW_COUNT: usize = 15;

/// The tab title of a view.
pub open spec fn view_title(v: View) -> Seq<char> {
    match v {
        View::Dashboard => "总览"@,
        View::Profiles => "订阅"@,
        View::Proxies => "代理"@,
        View::Logs => "日志"@,
        View::Settings => "设置"@,
        View::Rules => "规则"@,
        View::Connections => "连接"@,
        View::Jobs => "任务"@,
    }
}

/// The view after `v` in tab order, wrapping around.
pub open spec fn view_after(v: View) -> View {
    match v {
        View::Dashboard => View::Profiles,
        View::Profiles => View::Proxies,
        View::Proxies => View::Logs,
        View::Logs => View::Settings,
        View::Settings => View::Rules,
        View::Rules => View::Connections,
        View::Connections => View::Jobs,
        View::Jobs => View::Dashboard,
    }
}

/// The view before `v` in tab order, wrapping around.
pub open spec fn view_before(v: View) -> View {
    match v {
        View::Dashboard => View::Jobs,
        View::Profiles => View::Dashboard,
        View::Proxies => View::Profiles,
        View::Logs => View::Proxies,
        View::Settings => View::Logs,
        View::Rules => View::Settings,
        View::Connections => View::Rules,
        View::Jobs => View::Connections,
    }
}

/// Paging forward and back returns to the same view, and eight steps
/// forward visit every view once.
pub proof fn law_view_cycle(v: View)
    ensures
        view_before(view_after(v)) == v,
        view_after(view_before(v)) == v,
        view_after(view_after(view_after(view_after(view_after(view_after(view_after(view_after(v))))))))
            == v,
{
}

/// Moving the cursor of a list with rows leaves it on one of the rows.
pub proof fn law_moved_in_listed(sel: usize, ix: Seq<usize>, delta: int)
    requires
        ix.len() > 0,
        isize::MIN <= delta <= isize::MAX,
    ensures
        ix.contains(moved_in(sel, ix, delta)),
{
    let pos = match position(ix, sel) {
        Some(p) => p,
        None => 0,
    };
    crate::selection::lemma_position_sound(ix, sel, 0);
    crate::selection::law_move_index_in_bounds(pos, ix.len() as int, delta);
    let k = moved_index(pos, ix.len() as int, delta);
    assert(ix[k] == moved_in(sel, ix, delta));
}

/// Entering the proxy page: focus the current node of the selected group,
/// or just the node pane when no group is selected.
pub open spec fn enter_proxy(s: TuiApp, q: String) -> TuiApp {
    if selected_group(s) is Some {
        focus_nodes_on_current(s, q)
    } else {
        clamp_node(TuiApp { proxy_pane: ProxyPane::Nodes, ..s })
    }
}

/// The filter text after entering the proxy page.
pub open spec fn enter_query_view(s: TuiApp) -> Seq<char> {
    if selected_group(s) is Some {
        focus_query_view(s)
    } else {
        s.proxy_query@
    }
}

/// The state before the status message when switching to `v`.
pub open spec fn switched(s: TuiApp, v: View) -> TuiApp {
    TuiApp {
        status_pinned_until: None,
        dashboard_proxy_popup: if v != View::Dashboard {
            DashboardProxyPopup::Closed
        } else {
            s.dashboard_proxy_popup
        },
        provider_dialog: if v != View::Proxies && v != View::Rules {
            None
        } else {
            s.provider_dialog
        },
        view: v,
        ..s
    }
}

/// Where the cursor lands after moving `delta` rows within `ix`.
pub open spec fn moved_in(sel: usize, ix: Seq<usize>, delta: int) -> usize {
    if ix.len() == 0 {
        0
    } else {
        let pos = match position(ix, sel) {
            Some(p) => p,
            None => 0,
        };
        ix[moved_index(pos, ix.len() as int, delta)]
    }
}

/// Whether a log line passes the level filter.
pub open spec fn level_passes(f: LogLevelFilter, log: Seq<char>) -> bool {
    match f {
        LogLevelFilter::All => true,
        _ => log_has_level_spec(log, filter_levels(f)),
    }
}

/// The log lines the log page lists.
pub open spec fn log_indices(s: TuiApp) -> Seq<usize> {
    let q = trim(s.log_query@);
    indices_where(
        s.logs@.len() as int,
        |i: int|
            level_passes(s.log_level_filter, s.logs@[i]@) && (q.len() == 0 || contains(
                lower(s.logs@[i]@),
                lower(q),
            )),
    )
}

pub open spec fn opt_view(v: Option<String>) -> Option<Seq<char>> {
    match v {
        Some(s) => Some(s@),
        None => None,
    }
}

/// The jobs the job page lists.
pub open spec fn job_indices(s: TuiApp) -> Seq<usize> {
    let q = trim(s.job_query@);
    indices_where(
        s.jobs@.len() as int,
        |i: int|
            {
                let j = s.jobs@[i];
                q.len() == 0 || field_match(q, Some(j.id@)) || field_match(q, Some(j.kind@))
                    || field_match(q, Some(j.name@)) || field_match(q, opt_view(j.target))
                    || field_match(q, Some(job_status_text(j.status))) || field_match(
                    q,
                    opt_view(j.message),
                ) || field_match(q, opt_view(j.error))
            },
    )
}

/// The connections the connection page lists.
pub open spec fn connection_indices(s: TuiApp) -> Seq<usize> {
    let q = trim(s.connection_query@);
    indices_where(
        s.connections@.len() as int,
        |i: int|
            {
                let c = s.connections@[i];
                let m = c.metadata;
                q.len() == 0 || field_match(q, Some(c.id@)) || field_match(q, opt_view(c.rule))
                    || field_match(q, opt_view(c.rule_payload)) || field_match(
                    q,
                    match m {
                        Some(m) => opt_view(m.host),
                        None => None,
                    },
                ) || field_match(
                    q,
                    match m {
                        Some(m) => opt_view(m.process),
                        None => None,
                    },
                ) || field_match(
                    q,
                    match m {
                        Some(m) => opt_view(m.source_ip),
                        None => None,
                    },
                ) || field_match(
                    q,
                    match m {
                        Some(m) => opt_view(m.destination_ip),
                        None => None,
                    },
                ) || exists|k: int|
                    0 <= k < c.chains@.len() && field_match(q, Some(#[trigger] c.chains@[k]@))
            },
    )
}

/// The rules the rule page lists: a rule passes by its type, payload or
/// target.
pub open spec fn rule_indices(s: TuiApp) -> Seq<usize> {
    let q = trim(s.rule_query@);
    indices_where(
        s.rules@.len() as int,
        |i: int|
            {
                let r = s.rules@[i];
                q.len() == 0 || field_match(q, opt_view(r.rule_type)) || field_match(q, opt_view(r.payload))
                    || field_match(q, opt_view(r.proxy))
            },
    )
}

/// The profiles the profile page lists.
pub open spec fn profile_indices(s: TuiApp) -> Seq<usize> {
    let q = trim(s.profile_query@);
    indices_where(
        s.profiles@.len() as int,
        |i: int|
            {
                let p = s.profiles@[i];
                q.len() == 0 || field_match(q, opt_view(p.uid)) || field_match(q, opt_view(p.name))
                    || field_match(q, opt_view(p.itype)) || field_match(q, opt_view(p.desc))
            },
    )
}

/// The filter keeps only positions of profiles that exist.
pub proof fn lemma_profile_indices_in_range(s: TuiApp)
    requires
        s.profiles@.len() <= usize::MAX,
    ensures
        forall|k: int| 0 <= k < profile_indices(s).len() ==> #[trigger] profile_indices(s)[k] < s.profiles@.len(),
{
    let q = trim(s.profile_query@);
    let p = |i: int|
        {
            let p = s.profiles@[i];
            q.len() == 0 || field_match(q, opt_view(p.uid)) || field_match(q, opt_view(p.name))
                || field_match(q, opt_view(p.itype)) || field_match(q, opt_view(p.desc))
        };
    assert(profile_indices(s) == indices_where(s.profiles@.len() as int, p));
    crate::proxy_select::lemma_indices_where_bounds(s.profiles@.len() as int, p);
}

/// The filter keeps only positions of jobs that exist.
pub proof fn lemma_job_indices_in_range(s: TuiApp)
    requires
        s.jobs@.len() <= usize::MAX,
    ensures
        forall|k: int| 0 <= k < job_indices(s).len() ==> #[trigger] job_indices(s)[k] < s.jobs@.len(),
{
    let q = trim(s.job_query@);
    let p = |i: int|
        {
            let j = s.jobs@[i];
            q.len() == 0 || field_match(q, Some(j.id@)) || field_match(q, Some(j.kind@))
                || field_match(q, Some(j.name@)) || field_match(q, opt_view(j.target))
                || field_match(q, Some(job_status_text(j.status))) || field_match(
                q,
                opt_view(j.message),
            ) || field_match(q, opt_view(j.error))
        };
    assert(job_indices(s) == indices_where(s.jobs@.len() as int, p));
    crate::proxy_select::lemma_indices_where_bounds(s.jobs@.len() as int, p);
}

/// The filter keeps only positions of rules that exist.
pub proof fn lemma_rule_indices_in_range(s: TuiApp)
    requires
        s.rules@.len() <= usize::MAX,
    ensures
        forall|k: int| 0 <= k < rule_indices(s).len() ==> #[trigger] rule_indices(s)[k] < s.rules@.len(),
{
    let q = trim(s.rule_query@);
    let p = |i: int|
        {
            let r = s.rules@[i];
            q.len() == 0 || field_match(q, opt_view(r.rule_type)) || field_match(q, opt_view(r.payload))
                || field_match(q, opt_view(r.proxy))
        };
    assert(rule_indices(s) == indices_where(s.rules@.len() as int, p));
    crate::proxy_select::lemma_indices_where_bounds(s.rules@.len() as int, p);
}

/// The filter keeps only positions of connections that exist.
pub proof fn lemma_connection_indices_in_range(s: TuiApp)
    requires
        s.connections@.len() <= usize::MAX,
    ensures
        forall|k: int|
            0 <= k < connection_indices(s).len() ==> #[trigger] connection_indices(s)[k] < s.connections@.len(),
{
    let q = trim(s.connection_query@);
    let p = |i: int|
        {
            let c = s.connections@[i];
            let m = c.metadata;
            q.len() == 0 || field_match(q, Some(c.id@)) || field_match(q, opt_view(c.rule))
                || field_match(q, opt_view(c.rule_payload)) || field_match(
                q,
                match m {
                    Some(m) => opt_view(m.host),
                    None => None,
                },
            ) || field_match(
                q,
                match m {
                    Some(m) => opt_view(m.process),
                    None => None,
                },
            ) || field_match(
                q,
                match m {
                    Some(m) => opt_view(m.source_ip),
                    None => None,
                },
            ) || field_match(
                q,
                match m {
                    Some(m) => opt_view(m.destination_ip),
                    None => None,
                },
            ) || exists|k: int|
                0 <= k < c.chains@.len() && field_match(q, Some(#[trigger] c.chains@[k]@))
        };
    assert(connection_indices(s) == indices_where(s.connections@.len() as int, p));
    crate::proxy_select::lemma_indices_where_bounds(s.connections@.len() as int, p);
}

/// The filter keeps only positions of log lines that exist.
pub proof fn lemma_log_indices_in_range(s: TuiApp)
    requires
        s.logs@.len() <= usize::MAX,
    ensures
        forall|k: int| 0 <= k < log_indices(s).len() ==> #[trigger] log_indices(s)[k] < s.logs@.len(),
{
    let q = trim(s.log_query@);
    let p = |i: int|
        level_passes(s.log_level_filter, s.logs@[i]@) && (q.len() == 0 || contains(
            lower(s.logs@[i]@),
            lower(q),
        ));
    assert(log_indices(s) == indices_where(s.logs@.len() as int, p));
    crate::proxy_select::lemma_indices_where_bounds(s.logs@.len() as int, p);
}

/// The state after moving the cursor of the current list by `delta`;
/// `q` is the proxy filter text afterwards.
pub open spec fn moved(s: TuiApp, delta: int, q: String) -> TuiApp {
    match s.view {
        View::Profiles => TuiApp { profile_index: moved_in(s.profile_index, profile_indices(s), delta), ..s },
        View::Proxies => match s.proxy_pane {
            ProxyPane::Groups => select_current_node(
                remember_group(
                    TuiApp {
                        proxy_group_index: moved_in(s.proxy_group_index, group_indices(s), delta),
                        proxy_user_selected: true,
                        ..s
                    },
                ),
                q,
            ),
            ProxyPane::Nodes => remember_node(
                TuiApp {
                    proxy_node_index: moved_in(s.proxy_node_index, node_indices(s), delta),
                    proxy_user_selected: true,
                    ..s
                },
            ),
        },
        View::Logs => TuiApp {
            log_follow: false,
            log_index: moved_in(s.log_index, log_indices(s), delta),
            ..s
        },
        View::Settings => TuiApp {
            setting_index: moved_index(s.setting_index as int, SETTINGS_ROW_COUNT as int, delta) as usize,
            ..s
        },
        View::Rules => TuiApp { rule_index: moved_in(s.rule_index, rule_indices(s), delta), ..s },
        View::Connections => TuiApp {
            connection_index: moved_in(s.connection_index, connection_indices(s), delta),
            ..s
        },
        View::Jobs => TuiApp { job_index: moved_in(s.job_index, job_indices(s), delta), ..s },
        View::Dashboard => match s.dashboard_proxy_popup {
            DashboardProxyPopup::Groups => select_current_dashboard_node(
                remember_dashboard_group(
                    TuiApp {
                        dashboard_proxy_group_index: moved_in(
                            s.dashboard_proxy_group_index,
                            dashboard_group_indices(s),
                            delta,
                        ),
                        dashboard_proxy_user_selected: true,
                        ..s
                    },
                ),
            ),
            DashboardProxyPopup::Nodes => remember_dashboard_node(
                TuiApp {
                    dashboard_proxy_node_index: moved_in(
                        s.dashboard_proxy_node_index,
                        dashboard_node_indices(s),
                        delta,
                    ),
                    dashboard_proxy_user_selected: true,
                    ..s
                },
            ),
            DashboardProxyPopup::Closed => s,
        },
    }
}

/// The proxy filter text after moving the cursor.
pub open spec fn moved_query_view(s: TuiApp, delta: int) -> Seq<char> {
    if s.view == View::Proxies && s.proxy_pane == ProxyPane::Groups {
        select_query_view(
            remember_group(
                TuiApp {
                    proxy_group_index: moved_in(s.proxy_group_index, group_indices(s), delta),
                    proxy_user_selected: true,
                    ..s
                },
            ),
        )
    } else {
        s.proxy_query@
    }
}

/// The profile cursor kept on a listed profile.
pub open spec fn clamped_profiles(s: TuiApp) -> TuiApp {
    TuiApp { profile_index: clamped(s.profile_index, profile_indices(s)), ..s }
}

/// The proxy cursors kept on listed rows, remembered choices first.
pub open spec fn clamped_proxies(s: TuiApp) -> TuiApp {
    let s2 = restore_group(s);
    let s3 = TuiApp { proxy_group_index: clamped(s2.proxy_group_index, group_indices(s2)), ..s2 };
    clamp_dashboard_node(clamp_dashboard_group(clamp_node(s3)))
}

/// The cursors of the rule, connection, log, settings and job pages kept
/// on listed rows.
pub open spec fn clamped_lists(s4: TuiApp) -> TuiApp {
    TuiApp {
        rule_index: clamped(s4.rule_index, rule_indices(s4)),
        connection_index: clamped(s4.connection_index, connection_indices(s4)),
        log_index: clamped(s4.log_index, log_indices(s4)),
        setting_index: if s4.setting_index >= SETTINGS_ROW_COUNT {
            (SETTINGS_ROW_COUNT - 1) as usize
        } else {
            s4.setting_index
        },
        job_index: clamped(s4.job_index, job_indices(s4)),
        ..s4
    }
}

/// Every cursor kept on a listed row, remembered proxy choices first.
#[verifier::opaque]
pub open spec fn clamped_all(s: TuiApp) -> TuiApp {
    clamped_lists(clamped_proxies(clamped_profiles(s)))
}

fn field_has(lowered_query: &Vec<char>, value: Option<&str>) -> (b: bool)
    ensures
        b == (value matches Some(t) && contains(lower(t@), lowered_query@)),
{
    match value {
        Some(t) => {
            let c = to_chars(t);
            let l = chars_lower(&c);
            chars_contains(&l, lowered_query)
        },
        None => false,
    }
}

fn opt_str(v: &Option<String>) -> (r: Option<&str>)
    ensures
        match r {
            Some(t) => opt_view(*v) == Some(t@),
            None => opt_view(*v) is None,
        },
{
    match v {
        Some(s) => Some(s.as_str()),
        None => None,
    }
}

/// Whether one of the chain names holds the lowered query.
fn chains_match(lq: &Vec<char>, chains: &Vec<String>) -> (b: bool)
    ensures
        b == exists|k: int| 0 <= k < chains@.len() && contains(lower(#[trigger] chains@[k]@), lq@),
{
    let mut k: usize = 0;
    while k < chains.len()
        invariant
            k <= chains.len(),
            forall|j: int| 0 <= j < k ==> !contains(lower(#[trigger] chains@[j]@), lq@),
        decreases chains.len() - k,
    {
        if field_has(lq, Some(chains[k].as_str())) {
            return true;
        }
        k += 1;
    }
    false
}

impl TuiApp {
    /// The log lines the log page lists, by index.
    pub fn filtered_log_indices(&self) -> (r: Vec<usize>)
        ensures
            r@ == log_indices(*self),
    {
        let q = str_trim(self.log_query.as_str());
        let lq = chars_lower(&q);
        let ghost qs = trim(self.log_query@);
        let ghost p = |i: int|
            level_passes(self.log_level_filter, self.logs@[i]@) && (qs.len() == 0 || contains(
                lower(self.logs@[i]@),
                lower(qs),
            ));
        let mut r: Vec<usize> = Vec::new();
        let mut i: usize = 0;
        while i < self.logs.len()
            invariant
                i <= self.logs.len(),
                q@ == qs,
                qs == trim(self.log_query@),
                lq@ == lower(q@),
                p == (|i: int|
                    level_passes(self.log_level_filter, self.logs@[i]@) && (qs.len() == 0 || contains(
                        lower(self.logs@[i]@),
                        lower(qs),
                    ))),
                r@ == indices_where(i as int, p),
            decreases self.logs.len() - i,
        {
            let keep = self.log_level_filter.matches(self.logs[i].as_str()) && (q.len() == 0 || field_has(
                &lq,
                Some(self.logs[i].as_str()),
            ));
            if keep {
                r.push(i);
            }
            i += 1;
        }
        r
    }

    /// The jobs the job page lists, by index.
    pub fn filtered_job_indices(&self) -> (r: Vec<usize>)
        ensures
            r@ == job_indices(*self),
    {
        let q = str_trim(self.job_query.as_str());
        let lq = chars_lower(&q);
        let ghost qs = trim(self.job_query@);
        let ghost p = |i: int|
            {
                let j = self.jobs@[i];
                qs.len() == 0 || field_match(qs, Some(j.id@)) || field_match(qs, Some(j.kind@))
                    || field_match(qs, Some(j.name@)) || field_match(qs, opt_view(j.target))
                    || field_match(qs, Some(job_status_text(j.status))) || field_match(
                    qs,
                    opt_view(j.message),
                ) || field_match(qs, opt_view(j.error))
            };
        let mut r: Vec<usize> = Vec::new();
        let mut i: usize = 0;
        while i < self.jobs.len()
            invariant
                i <= self.jobs.len(),
                q@ == qs,
                qs == trim(self.job_query@),
                lq@ == lower(q@),
                p == (|i: int|
                    {
                        let j = self.jobs@[i];
                        qs.len() == 0 || field_match(qs, Some(j.id@)) || field_match(qs, Some(j.kind@))
                            || field_match(qs, Some(j.name@)) || field_match(qs, opt_view(j.target))
                            || field_match(qs, Some(job_status_text(j.status))) || field_match(
                            qs,
                            opt_view(j.message),
                        ) || field_match(qs, opt_view(j.error))
                    }),
                r@ == indices_where(i as int, p),
            decreases self.jobs.len() - i,
        {
            let j = &self.jobs[i];
            let keep = q.len() == 0 || field_has(&lq, Some(j.id.as_str())) || field_has(&lq, Some(j.kind.as_str()))
                || field_has(&lq, Some(j.name.as_str())) || field_has(&lq, opt_str(&j.target))
                || field_has(&lq, Some(job_status_label(j.status))) || field_has(&lq, opt_str(&j.message))
                || field_has(&lq, opt_str(&j.error));
            if keep {
                r.push(i);
            }
            i += 1;
        }
        r
    }
}


/// What `set_view` does: `s` before, `f` after.
pub open spec fn set_view_done(s: TuiApp, v: View, f: TuiApp) -> bool {
    &&& (f.proxy_query@ == (if v == View::Proxies {
            enter_query_view(switched(s, v))
        } else {
            s.proxy_query@
        }))
    &&& (f.status@ == "已切换到"@ + view_title(v))
    &&& (({
            let s2 = if v == View::Proxies {
                enter_proxy(switched(s, v), f.proxy_query)
            } else {
                switched(s, v)
            };
            let s3 = TuiApp { last_refresh: None, ..s2 };
            &&& history_view(f.status_history) == recorded(
                history_view(s3.status_history),
                "已切换到"@ + view_title(v),
            )
            &&& f == (TuiApp {
                status: f.status,
                status_history: f.status_history,
                ..s3
            })
        }))
}

/// What `move_selection` does: `s` before, `f` after.
pub open spec fn move_selection_done(s: TuiApp, delta: isize, f: TuiApp) -> bool {
    &&& (f.proxy_query@ == moved_query_view(s, delta as int))
    &&& (f == moved(s, delta as int, f.proxy_query))
}

/// What `move_to_edge` does: `s` before, `f` after.
pub open spec fn move_to_edge_done(s: TuiApp, end: bool, f: TuiApp) -> bool {
    &&& (f.proxy_query@ == moved_query_view(
            s,
            if end {
                isize::MAX as int
            } else {
                isize::MIN as int
            },
        ))
    &&& (f == moved(
            s,
            if end {
                isize::MAX as int
            } else {
                isize::MIN as int
            },
            f.proxy_query,
        ))
}

impl TuiApp {
    /// The connections the connection page lists, by index.
    pub fn filtered_connection_indices(&self) -> (r: Vec<usize>)
        ensures
            r@ == connection_indices(*self),
    {
        let q = str_trim(self.connection_query.as_str());
        let lq = chars_lower(&q);
        let ghost qs = trim(self.connection_query@);
        let ghost p = |i: int|
            {
                let c = self.connections@[i];
                let m = c.metadata;
                qs.len() == 0 || field_match(qs, Some(c.id@)) || field_match(qs, opt_view(c.rule))
                    || field_match(qs, opt_view(c.rule_payload)) || field_match(
                    qs,
                    match m {
                        Some(m) => opt_view(m.host),
                        None => None,
                    },
                ) || field_match(
                    qs,
                    match m {
                        Some(m) => opt_view(m.process),
                        None => None,
                    },
                ) || field_match(
                    qs,
                    match m {
                        Some(m) => opt_view(m.source_ip),
                        None => None,
                    },
                ) || field_match(
                    qs,
                    match m {
                        Some(m) => opt_view(m.destination_ip),
                        None => None,
                    },
                ) || exists|k: int|
                    0 <= k < c.chains@.len() && field_match(qs, Some(#[trigger] c.chains@[k]@))
            };
        let mut r: Vec<usize> = Vec::new();
        let mut i: usize = 0;
        while i < self.connections.len()
            invariant
                i <= self.connections.len(),
                q@ == qs,
                qs == trim(self.connection_query@),
                lq@ == lower(q@),
                p == (|i: int|
                    {
                        let c = self.connections@[i];
                        let m = c.metadata;
                        qs.len() == 0 || field_match(qs, Some(c.id@)) || field_match(qs, opt_view(c.rule))
                            || field_match(qs, opt_view(c.rule_payload)) || field_match(
                            qs,
                            match m {
                                Some(m) => opt_view(m.host),
                                None => None,
                            },
                        ) || field_match(
                            qs,
                            match m {
                                Some(m) => opt_view(m.process),
                                None => None,
                            },
                        ) || field_match(
                            qs,
                            match m {
                                Some(m) => opt_view(m.source_ip),
                                None => None,
                            },
                        ) || field_match(
                            qs,
                            match m {
                                Some(m) => opt_view(m.destination_ip),
                                None => None,
                            },
                        ) || exists|k: int|
                            0 <= k < c.chains@.len() && field_match(qs, Some(#[trigger] c.chains@[k]@))
                    }),
                r@ == indices_where(i as int, p),
            decreases self.connections.len() - i,
        {
            let c = &self.connections[i];
            let mut keep = q.len() == 0 || field_has(&lq, Some(c.id.as_str())) || field_has(&lq, opt_str(&c.rule))
                || field_has(&lq, opt_str(&c.rule_payload));
            if !keep {
                match &c.metadata {
                    Some(m) => {
                        keep = field_has(&lq, opt_str(&m.host)) || field_has(&lq, opt_str(&m.process))
                            || field_has(&lq, opt_str(&m.source_ip)) || field_has(&lq, opt_str(&m.destination_ip));
                    },
                    None => {},
                }
            }
            if !keep {
                keep = chains_match(&lq, &c.chains);
            }
            if keep {
                r.push(i);
            }
            i += 1;
        }
        r
    }

    /// The rules the rule page lists, by index.
    pub fn filtered_rule_indices(&self) -> (r: Vec<usize>)
        ensures
            r@ == rule_indices(*self),
    {
        let q = str_trim(self.rule_query.as_str());
        let lq = chars_lower(&q);
        let ghost qs = trim(self.rule_query@);
        let ghost p = |i: int|
            {
                let r = self.rules@[i];
                qs.len() == 0 || field_match(qs, opt_view(r.rule_type)) || field_match(qs, opt_view(r.payload))
                    || field_match(qs, opt_view(r.proxy))
            };
        let mut r: Vec<usize> = Vec::new();
        let mut i: usize = 0;
        while i < self.rules.len()
            invariant
                i <= self.rules.len(),
                q@ == qs,
                qs == trim(self.rule_query@),
                lq@ == lower(q@),
                p == (|i: int|
                    {
                        let r = self.rules@[i];
                        qs.len() == 0 || field_match(qs, opt_view(r.rule_type)) || field_match(
                            qs,
                            opt_view(r.payload),
                        ) || field_match(qs, opt_view(r.proxy))
                    }),
                r@ == indices_where(i as int, p),
            decreases self.rules.len() - i,
        {
            let e = &self.rules[i];
            let keep = q.len() == 0 || field_has(&lq, opt_str(&e.rule_type)) || field_has(&lq, opt_str(&e.payload))
                || field_has(&lq, opt_str(&e.proxy));
            if keep {
                r.push(i);
            }
            i += 1;
        }
        r
    }

    /// The profiles the profile page lists, by index.
    pub fn filtered_profile_indices(&self) -> (r: Vec<usize>)
        ensures
            r@ == profile_indices(*self),
    {
        let q = str_trim(self.profile_query.as_str());
        let lq = chars_lower(&q);
        let ghost qs = trim(self.profile_query@);
        let ghost p = |i: int|
            {
                let p = self.profiles@[i];
                qs.len() == 0 || field_match(qs, opt_view(p.uid)) || field_match(qs, opt_view(p.name))
                    || field_match(qs, opt_view(p.itype)) || field_match(qs, opt_view(p.desc))
            };
        let mut r: Vec<usize> = Vec::new();
        let mut i: usize = 0;
        while i < self.profiles.len()
            invariant
                i <= self.profiles.len(),
                q@ == qs,
                qs == trim(self.profile_query@),
                lq@ == lower(q@),
                p == (|i: int|
                    {
                        let p = self.profiles@[i];
                        qs.len() == 0 || field_match(qs, opt_view(p.uid)) || field_match(qs, opt_view(p.name))
                            || field_match(qs, opt_view(p.itype)) || field_match(qs, opt_view(p.desc))
                    }),
                r@ == indices_where(i as int, p),
            decreases self.profiles.len() - i,
        {
            let e = &self.profiles[i];
            let keep = q.len() == 0 || field_has(&lq, opt_str(&e.uid)) || field_has(&lq, opt_str(&e.name))
                || field_has(&lq, opt_str(&e.itype)) || field_has(&lq, opt_str(&e.desc));
            if keep {
                r.push(i);
            }
            i += 1;
        }
        r
    }

    /// Enters the proxy page: the node pane, on the current node of the
    /// selected group.
    pub fn enter_proxy_view(&mut self)
        ensures
            final(self).proxy_query@ == enter_query_view(*old(self)),
            *final(self) == enter_proxy(*old(self), final(self).proxy_query),
    {
        if self.proxy_group_index < self.proxy_groups.len() {
            self.focus_proxy_nodes_on_current();
        } else {
            self.proxy_pane = ProxyPane::Nodes;
            self.clamp_proxy_node_selection();
        }
    }

    /// Switches to view `v`: popups that belong to other views close, the
    /// pin drops, the view is due for refresh and the status says so.
    pub fn set_view(&mut self, v: View)
        ensures
            set_view_done(*old(self), v, *final(self)),
    {
        self.status_pinned_until = None;
        if v != View::Dashboard {
            self.dashboard_proxy_popup = DashboardProxyPopup::Closed;
        }
        if v != View::Proxies && v != View::Rules {
            self.provider_dialog = None;
        }
        self.view = v;
        if v == View::Proxies {
            self.enter_proxy_view();
        }
        self.last_refresh = None;
        let mut m: Vec<char> = Vec::new();
        push_str(&mut m, "已切换到");
        push_str(&mut m, v.title());
        let msg = from_chars(&m);
        self.set_status(msg.as_str());
    }

    /// Switches to the next view in tab order.
    pub fn next_view(&mut self)
        ensures
            set_view_done(*old(self), view_after(old(self).view), *final(self)),
    {
        let v = match self.view {
            View::Dashboard => View::Profiles,
            View::Profiles => View::Proxies,
            View::Proxies => View::Logs,
            View::Logs => View::Settings,
            View::Settings => View::Rules,
            View::Rules => View::Connections,
            View::Connections => View::Jobs,
            View::Jobs => View::Dashboard,
        };
        self.set_view(v);
    }

    /// Switches to the previous view in tab order.
    pub fn previous_view(&mut self)
        ensures
            set_view_done(*old(self), view_before(old(self).view), *final(self)),
    {
        let v = match self.view {
            View::Dashboard => View::Jobs,
            View::Profiles => View::Dashboard,
            View::Proxies => View::Profiles,
            View::Logs => View::Proxies,
            View::Settings => View::Logs,
            View::Rules => View::Settings,
            View::Connections => View::Rules,
            View::Jobs => View::Connections,
        };
        self.set_view(v);
    }

    /// Moves the cursor of the current list by `delta` rows; `isize::MIN`
    /// and `isize::MAX` jump to the first and last row.
    pub fn move_selection(&mut self, delta: isize)
        ensures
            move_selection_done(*old(self), delta, *final(self)),
    {
        match self.view {
            View::Profiles => {
                let ix = self.filtered_profile_indices();
                let mut i = self.profile_index;
                move_in_indices(&mut i, &ix, delta);
                self.profile_index = i;
            },
            View::Proxies => match self.proxy_pane {
                ProxyPane::Groups => {
                    let ix = self.filtered_proxy_group_indices();
                    let mut i = self.proxy_group_index;
                    move_in_indices(&mut i, &ix, delta);
                    self.proxy_group_index = i;
                    self.proxy_user_selected = true;
                    self.remember_proxy_group_selection();
                    self.select_current_node_for_selected_proxy_group();
                },
                ProxyPane::Nodes => {
                    let ix = self.filtered_proxy_node_indices();
                    let mut i = self.proxy_node_index;
                    move_in_indices(&mut i, &ix, delta);
                    self.proxy_node_index = i;
                    self.proxy_user_selected = true;
                    self.remember_proxy_node_selection();
                },
            },
            View::Logs => {
                self.log_follow = false;
                let ix = self.filtered_log_indices();
                let mut i = self.log_index;
                move_in_indices(&mut i, &ix, delta);
                self.log_index = i;
            },
            View::Settings => {
                let mut i = self.setting_index;
                move_index(&mut i, SETTINGS_ROW_COUNT, delta);
                self.setting_index = i;
            },
            View::Rules => {
                let ix = self.filtered_rule_indices();
                let mut i = self.rule_index;
                move_in_indices(&mut i, &ix, delta);
                self.rule_index = i;
            },
            View::Connections => {
                let ix = self.filtered_connection_indices();
                let mut i = self.connection_index;
                move_in_indices(&mut i, &ix, delta);
                self.connection_index = i;
            },
            View::Jobs => {
                let ix = self.filtered_job_indices();
                let mut i = self.job_index;
                move_in_indices(&mut i, &ix, delta);
                self.job_index = i;
            },
            View::Dashboard => match self.dashboard_proxy_popup {
                DashboardProxyPopup::Groups => {
                    let ix = self.filtered_dashboard_proxy_group_indices();
                    let mut i = self.dashboard_proxy_group_index;
                    move_in_indices(&mut i, &ix, delta);
                    self.dashboard_proxy_group_index = i;
                    self.dashboard_proxy_user_selected = true;
                    self.remember_dashboard_proxy_group_selection();
                    self.select_current_node_for_dashboard_proxy_group();
                },
                DashboardProxyPopup::Nodes => {
                    let ix = self.filtered_dashboard_proxy_node_indices();
                    let mut i = self.dashboard_proxy_node_index;
                    move_in_indices(&mut i, &ix, delta);
                    self.dashboard_proxy_node_index = i;
                    self.dashboard_proxy_user_selected = true;
                    self.remember_dashboard_proxy_node_selection();
                },
                DashboardProxyPopup::Closed => {},
            },
        }
    }

    /// Jumps to the last row (`end`) or the first row of the current list.
    pub fn move_to_edge(&mut self, end: bool)
        ensures
            move_to_edge_done(*old(self), end, *final(self)),
    {
        let delta = if end {
            isize::MAX
        } else {
            isize::MIN
        };
        self.move_selection(delta);
    }

    /// Keeps every cursor on a listed row.
    pub fn clamp_selections(&mut self)
        ensures
            *final(self) == clamped_all(*old(self)),
            final(self).proxy_group_selection_key == old(self).proxy_group_selection_key,
            final(self).dashboard_proxy_group_selection_key == old(self).dashboard_proxy_group_selection_key,
            final(self).profiles == old(self).profiles,
            final(self).proxy_groups == old(self).proxy_groups,
            final(self).proxy_node_meta == old(self).proxy_node_meta,
            final(self).proxy_providers == old(self).proxy_providers,
            final(self).rule_providers == old(self).rule_providers,
            final(self).provider_operation_feedback == old(self).provider_operation_feedback,
            final(self).rules == old(self).rules,
            final(self).connections == old(self).connections,
            final(self).profile_query == old(self).profile_query,
            final(self).proxy_query == old(self).proxy_query,
            final(self).rule_query == old(self).rule_query,
            final(self).connection_query == old(self).connection_query,
            final(self).log_query == old(self).log_query,
            final(self).job_query == old(self).job_query,
            final(self).status == old(self).status,
            final(self).status_history == old(self).status_history,
            final(self).last_refresh == old(self).last_refresh,
    {
        reveal(clamped_all);
        let ix = self.filtered_profile_indices();
        let mut i = self.profile_index;
        clamp_with_indices(&mut i, &ix);
        self.profile_index = i;
        self.clamp_proxy_cursors();
        self.clamp_list_cursors();
    }

    fn clamp_proxy_cursors(&mut self)
        ensures
            *final(self) == clamped_proxies(*old(self)),
    {
        self.restore_proxy_group_selection_from_key();
        let ix = self.filtered_proxy_group_indices();
        let mut i = self.proxy_group_index;
        clamp_with_indices(&mut i, &ix);
        self.proxy_group_index = i;
        self.clamp_proxy_node_selection();
        self.clamp_dashboard_proxy_group_selection();
        self.clamp_dashboard_proxy_node_selection();
    }

    fn clamp_list_cursors(&mut self)
        ensures
            *final(self) == clamped_lists(*old(self)),
    {
        let ix = self.filtered_rule_indices();
        let mut i = self.rule_index;
        clamp_with_indices(&mut i, &ix);
        let ix = self.filtered_connection_indices();
        let mut c = self.connection_index;
        clamp_with_indices(&mut c, &ix);
        let ix = self.filtered_log_indices();
        let mut l = self.log_index;
        clamp_with_indices(&mut l, &ix);
        let mut t = self.setting_index;
        clamp_index(&mut t, SETTINGS_ROW_COUNT);
        let ix = self.filtered_job_indices();
        let mut j = self.job_index;
        clamp_with_indices(&mut j, &ix);
        self.rule_index = i;
        self.connection_index = c;
        self.log_index = l;
        self.setting_index = t;
        self.job_index = j;
    }
}

} // verus!
