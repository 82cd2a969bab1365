//! Provider dialogs, the proxy page's panes and orderings, the log filter
//! and the dashboard's proxy popups.
use vstd::prelude::*;
use vstd::view::View as _;
use crate::strs::{owned, push_str, from_chars, str_eq};
use crate::models::{
    DashboardProxyPopup, LogLevelFilter, ProviderDialogKind, ProxyNodeSort, ProxyPane, ProxyProviderRow,
    RuleProviderRow, View,
};
use crate::layout::{proxy_selection_key_matches, selection_key_match};
use crate::selection::{moved_index, move_index};
use crate::controller::{table_get, upsert};
use crate::provider_dialog::provider_feedback_key;
use crate::state::{TuiApp, recorded, history_view};
use crate::proxy_select::{
    clamp_dashboard_group, clamp_node, dashboard_group, first_from, first_where, focus_dashboard_nodes_on_current,
    focus_nodes_on_current, focus_query_view, remember_dashboard_group, remember_group, remember_node,
    restore_dashboard_group, restore_group,
};
use crate::refresh_state::{key_view, or_else};

verus! {

/// The provider the proxy provider dialog's cursor is on.
pub open spec fn selected_proxy_provider(s: TuiApp) -> Option<String> {
    if s.proxy_provider_index < s.proxy_providers@.len() {
        Some(s.proxy_providers@[s.proxy_provider_index as int].name)
    } else {
        None
    }
}

/// The provider the rule provider dialog's cursor is on.
pub open spec fn selected_rule_provider(s: TuiApp) -> Option<String> {
    if s.rule_provider_index < s.rule_providers@.len() {
        Some(s.rule_providers@[s.rule_provider_index as int].name)
    } else {
        None
    }
}

/// The first proxy provider whose name matches `name`.
pub open spec fn proxy_provider_named(p: Seq<ProxyProviderRow>, name: Option<Seq<char>>) -> Option<int> {
    match name {
        Some(n) => first_where(p.len() as int, |i: int| selection_key_match(p[i].name@, n)),
        None => None,
    }
}

/// The first rule provider whose name matches `name`.
pub open spec fn rule_provider_named(p: Seq<RuleProviderRow>, name: Option<Seq<char>>) -> Option<int> {
    match name {
        Some(n) => first_where(p.len() as int, |i: int| selection_key_match(p[i].name@, n)),
        None => None,
    }
}

/// Remembers the provider under a dialog's cursor (nothing when the
/// cursor is past the end).
pub open spec fn remember_provider(s: TuiApp, kind: ProviderDialogKind) -> TuiApp {
    match kind {
        ProviderDialogKind::Proxy => TuiApp { proxy_provider_selection_key: selected_proxy_provider(s), ..s },
        ProviderDialogKind::Rule => TuiApp { rule_provider_selection_key: selected_rule_provider(s), ..s },
    }
}

pub open spec fn clamp_len(i: usize, len: nat) -> usize {
    if len == 0 {
        0
    } else if i >= len {
        (len - 1) as usize
    } else {
        i
    }
}

/// The state after fresh proxy providers arrive: the cursor follows the
/// provider it was on, else the remembered one, and stays in the list.
pub open spec fn applied_proxy_providers(s: TuiApp, providers: Vec<ProxyProviderRow>) -> TuiApp {
    let cur = key_view(selected_proxy_provider(s));
    let rem = key_view(s.proxy_provider_selection_key);
    let s1 = TuiApp { proxy_providers: providers, ..s };
    let p = or_else(proxy_provider_named(providers@, cur), proxy_provider_named(providers@, rem));
    let i = match p {
        Some(i) => i as usize,
        None => s.proxy_provider_index,
    };
    remember_provider(
        TuiApp { proxy_provider_index: clamp_len(i, providers@.len()), ..s1 },
        ProviderDialogKind::Proxy,
    )
}

/// The state after fresh rule providers arrive, likewise.
pub open spec fn applied_rule_providers(s: TuiApp, providers: Vec<RuleProviderRow>) -> TuiApp {
    let cur = key_view(selected_rule_provider(s));
    let rem = key_view(s.rule_provider_selection_key);
    let s1 = TuiApp { rule_providers: providers, ..s };
    let p = or_else(rule_provider_named(providers@, cur), rule_provider_named(providers@, rem));
    let i = match p {
        Some(i) => i as usize,
        None => s.rule_provider_index,
    };
    remember_provider(
        TuiApp { rule_provider_index: clamp_len(i, providers@.len()), ..s1 },
        ProviderDialogKind::Rule,
    )
}

/// The number of providers in a dialog.
pub open spec fn provider_count(s: TuiApp, kind: ProviderDialogKind) -> nat {
    match kind {
        ProviderDialogKind::Proxy => s.proxy_providers@.len(),
        ProviderDialogKind::Rule => s.rule_providers@.len(),
    }
}

/// The dialog cursor set to `i`, then remembered.
pub open spec fn provider_cursor_at(s: TuiApp, kind: ProviderDialogKind, i: usize) -> TuiApp {
    match kind {
        ProviderDialogKind::Proxy => remember_provider(TuiApp { proxy_provider_index: i, ..s }, kind),
        ProviderDialogKind::Rule => remember_provider(TuiApp { rule_provider_index: i, ..s }, kind),
    }
}

pub open spec fn provider_index(s: TuiApp, kind: ProviderDialogKind) -> usize {
    match kind {
        ProviderDialogKind::Proxy => s.proxy_provider_index,
        ProviderDialogKind::Rule => s.rule_provider_index,
    }
}

/// The feedback table as text pairs.
pub open spec fn feedback_views(t: Seq<(String, String)>) -> Seq<(Seq<char>, Seq<char>)> {
    t.map_values(|e: (String, String)| (e.0@, e.1@))
}

/// The key of a provider's feedback.
pub open spec fn feedback_key(kind: ProviderDialogKind, provider: Seq<char>) -> Seq<char> {
    (match kind {
        ProviderDialogKind::Proxy => "proxy"@,
        ProviderDialogKind::Rule => "rule"@,
    }) + ":"@ + provider
}

pub open spec fn pane_title(p: ProxyPane) -> Seq<char> {
    match p {
        ProxyPane::Groups => "策略组"@,
        ProxyPane::Nodes => "节点"@,
    }
}

pub open spec fn sort_title(s: ProxyNodeSort) -> Seq<char> {
    match s {
        ProxyNodeSort::Subscription => "订阅顺序"@,
        ProxyNodeSort::Latency => "延迟优先"@,
        ProxyNodeSort::Alive => "可用优先"@,
    }
}

pub open spec fn filter_title(f: LogLevelFilter) -> Seq<char> {
    match f {
        LogLevelFilter::All => "全部"@,
        LogLevelFilter::Error => "错误"@,
        LogLevelFilter::Warn => "警告"@,
        LogLevelFilter::Info => "信息"@,
        LogLevelFilter::Debug => "调试"@,
    }
}

/// Remembers the proxy page's choice in the focused pane.
pub open spec fn remember_current_pane(s: TuiApp) -> TuiApp {
    match s.proxy_pane {
        ProxyPane::Groups => remember_group(s),
        ProxyPane::Nodes => remember_node(s),
    }
}

/// Restores the proxy page's choice in the focused pane.
pub open spec fn restore_current_pane(s: TuiApp) -> TuiApp {
    let s1 = restore_group(s);
    match s1.proxy_pane {
        ProxyPane::Groups => s1,
        ProxyPane::Nodes => clamp_node(s1),
    }
}

/// The state before the status message after switching panes.
pub open spec fn pane_switched(s: TuiApp) -> TuiApp {
    let s2 = TuiApp { proxy_pane: remember_current_pane(s).proxy_pane.next(), ..remember_current_pane(s) };
    let s3 = match s2.proxy_pane {
        ProxyPane::Groups => restore_group(s2),
        ProxyPane::Nodes => clamp_node(s2),
    };
    remember_current_pane(s3)
}

/// The state before the status message after cycling the node order;
/// `q` is the filter text afterwards.
pub open spec fn sort_cycled(s: TuiApp, q: String) -> TuiApp {
    let s1 = remember_node(s);
    let s2 = TuiApp { proxy_node_sort: s1.proxy_node_sort.next(), ..s1 };
    if s1.proxy_pane == ProxyPane::Nodes {
        remember_node(clamp_node(s2))
    } else {
        focus_nodes_on_current(s2, q)
    }
}

/// The filter text after cycling the node order.
pub open spec fn sort_query_view(s: TuiApp) -> Seq<char> {
    let s1 = remember_node(s);
    if s1.proxy_pane == ProxyPane::Nodes {
        s.proxy_query@
    } else {
        focus_query_view(TuiApp { proxy_node_sort: s1.proxy_node_sort.next(), ..s1 })
    }
}

/// The message shown with the dashboard's node popup.
pub open spec fn node_popup_message(s: TuiApp) -> Seq<char> {
    "首页节点选择：↑↓ 移动，Enter "@ + (if dashboard_group(s) matches Some(g) && g.offline {
        "预选节点"@
    } else {
        "应用节点"@
    }) + "，Esc 收起"@
}

/// What `move_provider_selection` does: `s` before, `f` after.
pub open spec fn move_provider_selection_done(s: TuiApp, delta: isize, f: TuiApp) -> bool {
    &&& (f == match s.provider_dialog {
            None => s,
            Some(kind) => provider_cursor_at(
                s,
                kind,
                moved_index(
                    provider_index(s, kind) as int,
                    provider_count(s, kind) as int,
                    delta as int,
                ) as usize,
            ),
        })
}

/// What `move_provider_to_edge` does: `s` before, `f` after.
pub open spec fn move_provider_to_edge_done(s: TuiApp, end: bool, f: TuiApp) -> bool {
    &&& (f == match s.provider_dialog {
            None => s,
            Some(kind) => provider_cursor_at(
                s,
                kind,
                if end && provider_count(s, kind) > 0 {
                    (provider_count(s, kind) - 1) as usize
                } else {
                    0
                },
            ),
        })
}

impl TuiApp {
    /// The provider under the proxy provider dialog's cursor.
    fn selected_proxy_provider_name(&self) -> (r: Option<String>)
        ensures
            r == selected_proxy_provider(*self),
    {
        if self.proxy_provider_index < self.proxy_providers.len() {
            Some(self.proxy_providers[self.proxy_provider_index].name.clone())
        } else {
            None
        }
    }

    /// The provider under the rule provider dialog's cursor.
    fn selected_rule_provider_name(&self) -> (r: Option<String>)
        ensures
            r == selected_rule_provider(*self),
    {
        if self.rule_provider_index < self.rule_providers.len() {
            Some(self.rule_providers[self.rule_provider_index].name.clone())
        } else {
            None
        }
    }

    /// The provider under a dialog's cursor.
    pub fn selected_provider_name(&self, kind: ProviderDialogKind) -> (r: Option<String>)
        ensures
            r == (match kind {
                ProviderDialogKind::Proxy => selected_proxy_provider(*self),
                ProviderDialogKind::Rule => selected_rule_provider(*self),
            }),
    {
        match kind {
            ProviderDialogKind::Proxy => self.selected_proxy_provider_name(),
            ProviderDialogKind::Rule => self.selected_rule_provider_name(),
        }
    }

    /// The first proxy provider whose name matches `name`.
    pub fn find_proxy_provider_index(&self, name: &str) -> (r: Option<usize>)
        ensures
            r matches Some(i) ==> proxy_provider_named(self.proxy_providers@, Some(name@)) == Some(i as int),
            r is None ==> proxy_provider_named(self.proxy_providers@, Some(name@)) is None,
    {
        let ghost p = |i: int| selection_key_match(self.proxy_providers@[i].name@, name@);
        let mut j: usize = 0;
        while j < self.proxy_providers.len()
            invariant
                j <= self.proxy_providers.len(),
                p == (|i: int| selection_key_match(self.proxy_providers@[i].name@, name@)),
                first_where(self.proxy_providers@.len() as int, p) == first_from(
                    self.proxy_providers@.len() as int,
                    p,
                    j as int,
                ),
            decreases self.proxy_providers.len() - j,
        {
            if proxy_selection_key_matches(self.proxy_providers[j].name.as_str(), name) {
                return Some(j);
            }
            j += 1;
        }
        None
    }

    /// The first rule provider whose name matches `name`.
    pub fn find_rule_provider_index(&self, name: &str) -> (r: Option<usize>)
        ensures
            r matches Some(i) ==> rule_provider_named(self.rule_providers@, Some(name@)) == Some(i as int),
            r is None ==> rule_provider_named(self.rule_providers@, Some(name@)) is None,
    {
        let ghost p = |i: int| selection_key_match(self.rule_providers@[i].name@, name@);
        let mut j: usize = 0;
        while j < self.rule_providers.len()
            invariant
                j <= self.rule_providers.len(),
                p == (|i: int| selection_key_match(self.rule_providers@[i].name@, name@)),
                first_where(self.rule_providers@.len() as int, p) == first_from(
                    self.rule_providers@.len() as int,
                    p,
                    j as int,
                ),
            decreases self.rule_providers.len() - j,
        {
            if proxy_selection_key_matches(self.rule_providers[j].name.as_str(), name) {
                return Some(j);
            }
            j += 1;
        }
        None
    }

    /// Remembers the provider under a dialog's cursor.
    pub fn remember_provider_selection(&mut self, kind: ProviderDialogKind)
        ensures
            *final(self) == remember_provider(*old(self), kind),
    {
        match kind {
            ProviderDialogKind::Proxy => {
                self.proxy_provider_selection_key = self.selected_proxy_provider_name();
            },
            ProviderDialogKind::Rule => {
                self.rule_provider_selection_key = self.selected_rule_provider_name();
            },
        }
    }

    /// Takes in fresh proxy providers.
    pub fn apply_proxy_providers(&mut self, providers: Vec<ProxyProviderRow>)
        ensures
            *final(self) == applied_proxy_providers(*old(self), providers),
    {
        let current = self.selected_proxy_provider_name();
        let remembered = match &self.proxy_provider_selection_key {
            Some(k) => Some(k.clone()),
            None => None,
        };
        self.proxy_providers = providers;
        let by_current = match &current {
            Some(n) => self.find_proxy_provider_index(n.as_str()),
            None => None,
        };
        let found = match by_current {
            Some(i) => Some(i),
            None => match &remembered {
                Some(n) => self.find_proxy_provider_index(n.as_str()),
                None => None,
            },
        };
        match found {
            Some(i) => {
                self.proxy_provider_index = i;
            },
            None => {},
        }
        let mut i = self.proxy_provider_index;
        crate::selection::clamp_index(&mut i, self.proxy_providers.len());
        self.proxy_provider_index = i;
        self.remember_provider_selection(ProviderDialogKind::Proxy);
    }

    /// Takes in fresh rule providers.
    pub fn apply_rule_providers(&mut self, providers: Vec<RuleProviderRow>)
        ensures
            *final(self) == applied_rule_providers(*old(self), providers),
    {
        let current = self.selected_rule_provider_name();
        let remembered = match &self.rule_provider_selection_key {
            Some(k) => Some(k.clone()),
            None => None,
        };
        self.rule_providers = providers;
        let by_current = match &current {
            Some(n) => self.find_rule_provider_index(n.as_str()),
            None => None,
        };
        let found = match by_current {
            Some(i) => Some(i),
            None => match &remembered {
                Some(n) => self.find_rule_provider_index(n.as_str()),
                None => None,
            },
        };
        match found {
            Some(i) => {
                self.rule_provider_index = i;
            },
            None => {},
        }
        let mut i = self.rule_provider_index;
        crate::selection::clamp_index(&mut i, self.rule_providers.len());
        self.rule_provider_index = i;
        self.remember_provider_selection(ProviderDialogKind::Rule);
    }

    /// The number of providers in a dialog.
    pub fn provider_len(&self, kind: ProviderDialogKind) -> (r: usize)
        ensures
            r == provider_count(*self, kind),
    {
        match kind {
            ProviderDialogKind::Proxy => self.proxy_providers.len(),
            ProviderDialogKind::Rule => self.rule_providers.len(),
        }
    }

    /// The names of a dialog's providers, in list order.
    pub fn provider_names(&self, kind: ProviderDialogKind) -> (r: Vec<String>)
        ensures
            r@.len() == provider_count(*self, kind),
            forall|i: int|
                0 <= i < r@.len() ==> r@[i] == match kind {
                    ProviderDialogKind::Proxy => self.proxy_providers@[i].name,
                    ProviderDialogKind::Rule => self.rule_providers@[i].name,
                },
    {
        let mut r: Vec<String> = Vec::new();
        let n = self.provider_len(kind);
        let mut i: usize = 0;
        while i < n
            invariant
                i <= n,
                n == provider_count(*self, kind),
                r@.len() == i,
                forall|k: int|
                    0 <= k < i ==> r@[k] == match kind {
                        ProviderDialogKind::Proxy => self.proxy_providers@[k].name,
                        ProviderDialogKind::Rule => self.rule_providers@[k].name,
                    },
            decreases n - i,
        {
            let name = match kind {
                ProviderDialogKind::Proxy => self.proxy_providers[i].name.clone(),
                ProviderDialogKind::Rule => self.rule_providers[i].name.clone(),
            };
            r.push(name);
            i += 1;
        }
        r
    }

    /// Moves the open dialog's cursor by `delta` rows.
    pub fn move_provider_selection(&mut self, delta: isize)
        ensures
            move_provider_selection_done(*old(self), delta, *final(self)),
    {
        let kind = match self.provider_dialog {
            Some(k) => k,
            None => {
                return;
            },
        };
        let len = self.provider_len(kind);
        match kind {
            ProviderDialogKind::Proxy => {
                let mut i = self.proxy_provider_index;
                move_index(&mut i, len, delta);
                self.proxy_provider_index = i;
            },
            ProviderDialogKind::Rule => {
                let mut i = self.rule_provider_index;
                move_index(&mut i, len, delta);
                self.rule_provider_index = i;
            },
        }
        self.remember_provider_selection(kind);
    }

    /// Jumps to the last (`end`) or first provider of the open dialog.
    pub fn move_provider_to_edge(&mut self, end: bool)
        ensures
            move_provider_to_edge_done(*old(self), end, *final(self)),
    {
        let kind = match self.provider_dialog {
            Some(k) => k,
            None => {
                return;
            },
        };
        let len = self.provider_len(kind);
        let index = if end && len > 0 {
            len - 1
        } else {
            0
        };
        match kind {
            ProviderDialogKind::Proxy => {
                self.proxy_provider_index = index;
            },
            ProviderDialogKind::Rule => {
                self.rule_provider_index = index;
            },
        }
        self.remember_provider_selection(kind);
    }

    /// The feedback last recorded for a provider.
    pub fn provider_feedback(&self, kind: ProviderDialogKind, provider: &str) -> (r: Option<String>)
        ensures
            key_view(r) == table_get(feedback_views(self.provider_operation_feedback@), feedback_key(kind, provider@)),
    {
        let key = provider_feedback_key(kind, provider);
        let ghost t0 = feedback_views(self.provider_operation_feedback@);
        let mut i: usize = 0;
        proof {
            assert(t0.skip(0) =~= t0);
        }
        while i < self.provider_operation_feedback.len()
            invariant
                i <= self.provider_operation_feedback.len(),
                t0 == feedback_views(self.provider_operation_feedback@),
                key@ == feedback_key(kind, provider@),
                table_get(t0, key@) == table_get(t0.skip(i as int), key@),
            decreases self.provider_operation_feedback.len() - i,
        {
            proof {
                assert(t0.skip(i as int)[0] == t0[i as int]);
                assert(t0.skip(i as int).skip(1) =~= t0.skip(i + 1));
            }
            if str_eq(self.provider_operation_feedback[i].0.as_str(), key.as_str()) {
                return Some(self.provider_operation_feedback[i].1.clone());
            }
            i += 1;
        }
        None
    }

    /// Records feedback for a provider, replacing what was there.
    pub fn set_provider_feedback(&mut self, kind: ProviderDialogKind, provider: &str, message: &str)
        ensures
            feedback_views(final(self).provider_operation_feedback@) == upsert(
                feedback_views(old(self).provider_operation_feedback@),
                feedback_key(kind, provider@),
                message@,
            ),
            *final(self) == (TuiApp {
                provider_operation_feedback: final(self).provider_operation_feedback,
                ..*old(self)
            }),
    {
        let key = provider_feedback_key(kind, provider);
        let ghost t0 = feedback_views(self.provider_operation_feedback@);
        let ghost k = key@;
        let ghost v = message@;
        let mut i: usize = 0;
        proof {
            assert(t0.skip(0) =~= t0);
            assert(t0.take(0) + upsert(t0.skip(0), k, v) =~= upsert(t0, k, v));
        }
        while i < self.provider_operation_feedback.len()
            invariant
                i <= self.provider_operation_feedback.len(),
                *self == *old(self),
                t0 == feedback_views(self.provider_operation_feedback@),
                k == key@,
                k == feedback_key(kind, provider@),
                v == message@,
                upsert(t0, k, v) == t0.take(i as int) + upsert(t0.skip(i as int), k, v),
            decreases self.provider_operation_feedback.len() - i,
        {
            let ghost rest = t0.skip(i as int);
            proof {
                assert(rest[0] == t0[i as int]);
                assert(rest.skip(1) =~= t0.skip(i + 1));
            }
            if str_eq(self.provider_operation_feedback[i].0.as_str(), key.as_str()) {
                let entry = (key, owned(message));
                proof {
                    assert(feedback_views(self.provider_operation_feedback@.update(i as int, entry)) =~= t0.take(
                        i as int,
                    ) + upsert(rest, k, v));
                }
                self.provider_operation_feedback.set(i, entry);
                return;
            }
            if crate::order::text_less(key.as_str(), self.provider_operation_feedback[i].0.as_str()) {
                let entry = (key, owned(message));
                proof {
                    assert(feedback_views(self.provider_operation_feedback@.insert(i as int, entry)) =~= t0.take(
                        i as int,
                    ) + upsert(rest, k, v));
                }
                self.provider_operation_feedback.insert(i, entry);
                return;
            }
            proof {
                assert(t0.take(i + 1) =~= t0.take(i as int).push(rest[0]));
                assert(t0.take(i as int) + upsert(rest, k, v) =~= t0.take(i + 1) + upsert(t0.skip(i + 1), k, v));
            }
            i += 1;
        }
        let entry = (key, owned(message));
        proof {
            assert(t0.take(i as int) =~= t0);
            assert(feedback_views(self.provider_operation_feedback@.push(entry)) =~= t0 + seq![(k, v)]);
        }
        self.provider_operation_feedback.push(entry);
    }
}



/// The state before the status message after a profile import: the proxy
/// page with every proxy cursor back at the start, focused on current
/// nodes; `q` is the (empty) filter text.
pub open spec fn import_focused(s: TuiApp, q: String) -> TuiApp {
    let s1 = TuiApp {
        view: View::Proxies,
        proxy_pane: ProxyPane::Nodes,
        proxy_query: q,
        proxy_group_index: 0,
        proxy_node_index: 0,
        proxy_group_selection_key: None,
        proxy_node_selection_key: None,
        proxy_user_selected: false,
        dashboard_proxy_group_index: 0,
        dashboard_proxy_node_index: 0,
        dashboard_proxy_group_selection_key: None,
        dashboard_proxy_node_selection_key: None,
        dashboard_proxy_user_selected: false,
        ..s
    };
    focus_dashboard_nodes_on_current(focus_nodes_on_current(s1, q))
}

fn sort_message(o: ProxyNodeSort) -> (r: String)
    ensures
        r@ == "节点排序："@ + sort_title(o),
{
    let mut m: Vec<char> = Vec::new();
    push_str(&mut m, "节点排序：");
    push_str(&mut m, o.title());
    from_chars(&m)
}

fn filter_message(f: LogLevelFilter) -> (r: String)
    ensures
        r@ == "日志等级过滤："@ + filter_title(f),
{
    let mut m: Vec<char> = Vec::new();
    push_str(&mut m, "日志等级过滤：");
    push_str(&mut m, f.title());
    from_chars(&m)
}

/// What `focus_next_proxy_pane` does: `s` before, `f` after.
pub open spec fn focus_next_proxy_pane_done(s: TuiApp, f: TuiApp) -> bool {
    &&& (f.status@ == "当前焦点："@ + pane_title(pane_switched(s).proxy_pane))
    &&& (history_view(f.status_history) == recorded(
            history_view(s.status_history),
            "当前焦点："@ + pane_title(pane_switched(s).proxy_pane),
        ))
    &&& (f == (TuiApp {
            status: f.status,
            status_history: f.status_history,
            ..pane_switched(s)
        }))
}

/// What `cycle_proxy_node_sort` does: `s` before, `f` after.
pub open spec fn cycle_proxy_node_sort_done(s: TuiApp, f: TuiApp) -> bool {
    &&& (s.view != View::Proxies ==> f == s)
    &&& (s.view == View::Proxies ==> {
            let t = sort_cycled(s, f.proxy_query);
            &&& f.proxy_query@ == sort_query_view(s)
            &&& f.status@ == "节点排序："@ + sort_title(t.proxy_node_sort)
            &&& history_view(f.status_history) == recorded(
                history_view(s.status_history),
                "节点排序："@ + sort_title(t.proxy_node_sort),
            )
            &&& f == (TuiApp {
                status: f.status,
                status_history: f.status_history,
                ..t
            })
        })
}

/// What `cycle_log_level_filter` does: `s` before, `f` after.
pub open spec fn cycle_log_level_filter_done(s: TuiApp, f: TuiApp) -> bool {
    &&& (({
            let t = crate::navigation::clamped_all(
                TuiApp { log_level_filter: s.log_level_filter.next(), ..s },
            );
            &&& f.status@ == "日志等级过滤："@ + filter_title(s.log_level_filter.next())
            &&& history_view(f.status_history) == recorded(
                history_view(t.status_history),
                "日志等级过滤："@ + filter_title(s.log_level_filter.next()),
            )
            &&& f == (TuiApp {
                status: f.status,
                status_history: f.status_history,
                ..t
            })
        }))
}

/// What `open_dashboard_proxy_groups` does: `s` before, `f` after.
pub open spec fn open_dashboard_proxy_groups_done(s: TuiApp, f: TuiApp) -> bool {
    &&& (({
            let t = TuiApp {
                dashboard_proxy_popup: DashboardProxyPopup::Groups,
                ..remember_dashboard_group(clamp_dashboard_group(restore_dashboard_group(s)))
            };
            &&& f.status@ == "首页代理组选择：↑↓ 移动，Enter 定位节点，Esc 收起"@
            &&& history_view(f.status_history) == recorded(
                history_view(t.status_history),
                "首页代理组选择：↑↓ 移动，Enter 定位节点，Esc 收起"@,
            )
            &&& f == (TuiApp {
                status: f.status,
                status_history: f.status_history,
                ..t
            })
        }))
}

/// What `open_dashboard_proxy_nodes` does: `s` before, `f` after.
pub open spec fn open_dashboard_proxy_nodes_done(s: TuiApp, f: TuiApp) -> bool {
    &&& (s.proxy_groups@.len() == 0 ==> {
            &&& f.status@ == "尚未加载代理组；按 r 刷新，或按 3 进入代理页查看诊断"@
            &&& history_view(f.status_history) == recorded(
                history_view(s.status_history),
                "尚未加载代理组；按 r 刷新，或按 3 进入代理页查看诊断"@,
            )
            &&& f == (TuiApp {
                status: f.status,
                status_history: f.status_history,
                ..s
            })
        })
    &&& (s.proxy_groups@.len() > 0 ==> {
            let t = TuiApp {
                dashboard_proxy_popup: DashboardProxyPopup::Nodes,
                ..focus_dashboard_nodes_on_current(s)
            };
            &&& f.status@ == node_popup_message(t)
            &&& history_view(f.status_history) == recorded(
                history_view(t.status_history),
                node_popup_message(t),
            )
            &&& f == (TuiApp {
                status: f.status,
                status_history: f.status_history,
                ..t
            })
        })
}

impl TuiApp {
    /// Remembers the choice in the focused pane of the proxy page.
    pub fn remember_proxy_selection_for_current_pane(&mut self)
        ensures
            *final(self) == remember_current_pane(*old(self)),
    {
        match self.proxy_pane {
            ProxyPane::Groups => self.remember_proxy_group_selection(),
            ProxyPane::Nodes => self.remember_proxy_node_selection(),
        }
    }

    /// Restores the choice in the focused pane of the proxy page.
    pub fn restore_proxy_selection_for_current_pane(&mut self)
        ensures
            *final(self) == restore_current_pane(*old(self)),
    {
        self.restore_proxy_group_selection_from_key();
        match self.proxy_pane {
            ProxyPane::Groups => {},
            ProxyPane::Nodes => self.clamp_proxy_node_selection(),
        }
    }

    /// Moves the focus to the other pane of the proxy page.
    pub fn focus_next_proxy_pane(&mut self)
        ensures
            focus_next_proxy_pane_done(*old(self), *final(self)),
    {
        self.remember_proxy_selection_for_current_pane();
        self.proxy_pane = self.proxy_pane.next();
        match self.proxy_pane {
            ProxyPane::Groups => self.restore_proxy_group_selection_from_key(),
            ProxyPane::Nodes => self.clamp_proxy_node_selection(),
        }
        self.remember_proxy_selection_for_current_pane();
        let mut m: Vec<char> = Vec::new();
        push_str(&mut m, "当前焦点：");
        push_str(&mut m, self.proxy_pane.title());
        let msg = from_chars(&m);
        self.set_status(msg.as_str());
    }

    /// Cycles the node order on the proxy page (elsewhere nothing happens).
    pub fn cycle_proxy_node_sort(&mut self)
        ensures
            cycle_proxy_node_sort_done(*old(self), *final(self)),
    {
        if self.view != View::Proxies {
            return;
        }
        self.cycle_sort_cursors();
        let ghost s1 = *self;
        let msg = sort_message(self.proxy_node_sort);
        self.set_status(msg.as_str());
        assert(*self == (TuiApp { status: self.status, status_history: self.status_history, ..s1 }));
    }

    fn cycle_sort_cursors(&mut self)
        ensures
            final(self).proxy_query@ == sort_query_view(*old(self)),
            *final(self) == sort_cycled(*old(self), final(self).proxy_query),
    {
        self.remember_proxy_node_selection();
        let was_nodes = self.proxy_pane == ProxyPane::Nodes;
        self.proxy_node_sort = self.proxy_node_sort.next();
        if was_nodes {
            self.clamp_proxy_node_selection();
            self.remember_proxy_node_selection();
        } else {
            self.focus_proxy_nodes_on_current();
        }
    }

    /// Cycles the log level filter; cursors stay on listed rows.
    pub fn cycle_log_level_filter(&mut self)
        ensures
            cycle_log_level_filter_done(*old(self), *final(self)),
    {
        let next = self.log_level_filter.next();
        let msg = filter_message(next);
        assert(msg@ == "日志等级过滤："@ + filter_title(old(self).log_level_filter.next()));
        self.log_level_filter = next;
        let ghost s0 = *self;
        assert(s0 == TuiApp { log_level_filter: old(self).log_level_filter.next(), ..*old(self) });
        self.clamp_selections();
        let ghost s1 = *self;
        assert(s1 == crate::navigation::clamped_all(s0));
        self.set_status(msg.as_str());
        assert(*self == (TuiApp { status: self.status, status_history: self.status_history, ..s1 }));
    }

    /// Opens the dashboard's group popup on the remembered group.
    pub fn open_dashboard_proxy_groups(&mut self)
        ensures
            open_dashboard_proxy_groups_done(*old(self), *final(self)),
    {
        self.restore_dashboard_proxy_group_selection_from_key();
        self.clamp_dashboard_proxy_group_selection();
        self.remember_dashboard_proxy_group_selection();
        self.dashboard_proxy_popup = DashboardProxyPopup::Groups;
        self.set_status("首页代理组选择：↑↓ 移动，Enter 定位节点，Esc 收起");
    }

    /// Opens the dashboard's node popup on its group's current node; with
    /// no groups loaded it only says how to load them.
    pub fn open_dashboard_proxy_nodes(&mut self)
        ensures
            open_dashboard_proxy_nodes_done(*old(self), *final(self)),
    {
        if self.proxy_groups.len() == 0 {
            self.set_status("尚未加载代理组；按 r 刷新，或按 3 进入代理页查看诊断");
            return;
        }
        self.focus_dashboard_proxy_nodes_on_current();
        self.dashboard_proxy_popup = DashboardProxyPopup::Nodes;
        let offline = match self.dashboard_proxy_group() {
            Some(g) => g.offline,
            None => false,
        };
        let mut m: Vec<char> = Vec::new();
        push_str(&mut m, "首页节点选择：↑↓ 移动，Enter ");
        push_str(&mut m, if offline {
            "预选节点"
        } else {
            "应用节点"
        });
        push_str(&mut m, "，Esc 收起");
        let msg = from_chars(&m);
        self.set_status(msg.as_str());
    }

    /// After a profile import: the proxy page, unfiltered, every proxy
    /// cursor on the current nodes.
    pub fn focus_proxy_groups_after_import(&mut self)
        ensures
            final(self).proxy_query@.len() == 0,
            *final(self) == import_focused(*old(self), final(self).proxy_query),
    {
        self.view = View::Proxies;
        self.proxy_pane = ProxyPane::Nodes;
        self.proxy_query = String::new();
        self.proxy_group_index = 0;
        self.proxy_node_index = 0;
        self.proxy_group_selection_key = None;
        self.proxy_node_selection_key = None;
        self.proxy_user_selected = false;
        self.dashboard_proxy_group_index = 0;
        self.dashboard_proxy_node_index = 0;
        self.dashboard_proxy_group_selection_key = None;
        self.dashboard_proxy_node_selection_key = None;
        self.dashboard_proxy_user_selected = false;
        self.focus_proxy_nodes_on_current();
        self.focus_dashboard_proxy_nodes_on_current();
    }

    /// Records that the user moved the proxy page's cursor by hand.
    pub fn mark_proxy_user_selection(&mut self)
        ensures
            *final(self) == (TuiApp { proxy_user_selected: true, ..*old(self) }),
    {
        self.proxy_user_selected = true;
    }

    /// Records that the user moved the dashboard's cursor by hand.
    pub fn mark_dashboard_proxy_user_selection(&mut self)
        ensures
            *final(self) == (TuiApp { dashboard_proxy_user_selected: true, ..*old(self) }),
    {
        self.dashboard_proxy_user_selected = true;
    }

    /// Whether a refresh keeps the proxy page's remembered choice.
    pub fn proxy_user_selection_is_sticky(&self) -> (b: bool)
        ensures
            b == self.proxy_user_selected,
    {
        self.proxy_user_selected
    }

    /// Whether a refresh keeps the dashboard's remembered choice.
    pub fn dashboard_proxy_user_selection_is_sticky(&self) -> (b: bool)
        ensures
            b == self.dashboard_proxy_user_selected,
    {
        self.dashboard_proxy_user_selected
    }
}

} // verus!
