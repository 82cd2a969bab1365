//! What the controller of the core reports (health, proxies, providers),
//! and the rows the client builds from it.
use vstd::prelude::*;
use vstd::string::*;
use crate::models::{
    ProviderSubscriptionInfoRow, ProxyGroupLoadSummary, ProxyGroupRow, ProxyNodeMeta,
    ProxyProviderRow, RuleProviderRow,
};
use crate::order::{insert_sorted, lemma_stable_sort_multiset, stable_sort, text_less, text_lt};
use crate::strs::{
    chars_eq, chars_lower, copy_string, dec, from_chars, lower, owned, push_str,
    push_usize, str_eq, str_trim, to_chars, trim, views,
};

verus! {

/// The health report of the controller.
#[derive(Debug, Clone, PartialEq, Eq)]
pub struct ControllerHealth {
    pub healthy: bool,
    pub version: Option<String>,
    pub message: Option<String>,
}

pub open spec fn or_unknown(v: Option<String>) -> Seq<char> {
    match v {
        Some(s) => s@,
        None => "未知"@,
    }
}

/// The controller status line of a health report.
pub open spec fn health_text(h: ControllerHealth) -> Seq<char> {
    if h.healthy {
        "控制器：健康，版本 "@ + or_unknown(h.version)
    } else {
        "控制器：不可用（"@ + or_unknown(h.message) + "）"@
    }
}

/// Describes the controller's health: its version when healthy, else why
/// it is unavailable.
pub fn controller_status_from_health(health: &ControllerHealth) -> (r: String)
    ensures
        r@ == health_text(*health),
{
    let mut v: Vec<char> = Vec::new();
    if health.healthy {
        push_str(&mut v, "控制器：健康，版本 ");
        match &health.version {
            Some(s) => push_str(&mut v, s.as_str()),
            None => push_str(&mut v, "未知"),
        }
    } else {
        push_str(&mut v, "控制器：不可用（");
        match &health.message {
            Some(s) => push_str(&mut v, s.as_str()),
            None => push_str(&mut v, "未知"),
        }
        push_str(&mut v, "）");
    }
    from_chars(&v)
}

/// One delay measurement of a proxy.
#[derive(Debug, Clone, Copy, PartialEq, Eq, Structural)]
pub struct ProxyHistory {
    pub delay: Option<i64>,
}

/// One proxy (node or group) as the controller lists it.
#[derive(Debug, Clone, PartialEq, Eq)]
pub struct ProxyEntry {
    pub name: Option<String>,
    pub proxy_type: Option<String>,
    pub now: Option<String>,
    pub all: Vec<String>,
    pub alive: Option<bool>,
    pub history: Vec<ProxyHistory>,
}

/// The controller's proxy list, keyed by name in key order.
#[derive(Debug, Clone, PartialEq, Eq)]
pub struct ProxyGroups {
    pub proxies: Vec<(String, ProxyEntry)>,
}

/// The name of an entry: its own, else its key.
pub open spec fn entry_name(key: String, e: ProxyEntry) -> Seq<char> {
    match e.name {
        Some(n) => n@,
        None => key@,
    }
}

/// A group row as text: name, current node, nodes, offline.
pub open spec fn row_view(r: ProxyGroupRow) -> (Seq<char>, Seq<char>, Seq<Seq<char>>, bool) {
    (r.name@, r.now@, views(r.nodes@), r.offline)
}

pub open spec fn row_views(rows: Seq<ProxyGroupRow>) -> Seq<(Seq<char>, Seq<char>, Seq<Seq<char>>, bool)> {
    rows.map_values(|r: ProxyGroupRow| row_view(r))
}

/// The rows of the entries that have members (the groups), in key order.
pub open spec fn group_rows(entries: Seq<(String, ProxyEntry)>) -> Seq<
    (Seq<char>, Seq<char>, Seq<Seq<char>>, bool),
>
    decreases entries.len(),
{
    if entries.len() == 0 {
        Seq::empty()
    } else {
        let rest = group_rows(entries.drop_last());
        let (k, e) = entries.last();
        if e.all@.len() > 0 {
            rest.push(
                (
                    entry_name(k, e),
                    match e.now {
                        Some(n) => n@,
                        None => "-"@,
                    },
                    views(e.all@),
                    false,
                ),
            )
        } else {
            rest
        }
    }
}

/// Rows are ordered by name.
pub open spec fn row_before() -> spec_fn(
    (Seq<char>, Seq<char>, Seq<Seq<char>>, bool),
    (Seq<char>, Seq<char>, Seq<Seq<char>>, bool),
) -> bool {
    |a: (Seq<char>, Seq<char>, Seq<Seq<char>>, bool), b: (Seq<char>, Seq<char>, Seq<Seq<char>>, bool)|
        text_lt(a.0, b.0)
}

fn copy_strings(v: &Vec<String>) -> (r: Vec<String>)
    ensures
        views(r@) == views(v@),
{
    let mut r: Vec<String> = Vec::new();
    let mut i: usize = 0;
    while i < v.len()
        invariant
            i <= v.len(),
            views(r@) == views(v@.take(i as int)),
        decreases v.len() - i,
    {
        let c = copy_string(&v[i]);
        let ghost before = r@;
        r.push(c);
        proof {
            assert(views(r@) =~= views(before).push(c@));
            assert(views(v@.take(i + 1)) =~= views(v@.take(i as int)).push(v@[i as int]@));
        }
        i += 1;
    }
    proof {
        assert(v@.take(v.len() as int) =~= v@);
    }
    r
}

/// Inserts a row into rows sorted by name, after the rows whose name does
/// not come after its own.
fn insert_row(rows: &mut Vec<ProxyGroupRow>, row: ProxyGroupRow)
    ensures
        row_views(final(rows)@) == insert_sorted(row_views(old(rows)@), row_view(row), row_before()),
{
    let ghost s = row_views(rows@);
    let mut j: usize = 0;
    while j < rows.len() && !text_less(row.name.as_str(), rows[j].name.as_str())
        invariant
            j <= rows.len(),
            s == row_views(rows@),
            forall|k: int| 0 <= k < j ==> !text_lt(row.name@, #[trigger] rows@[k].name@),
        decreases rows.len() - j,
    {
        j += 1;
    }
    proof {
        assert forall|k: int| 0 <= k < j implies !(row_before())(row_view(row), #[trigger] s[k]) by {
            assert(s[k] == row_view(rows@[k]));
        }
        if j < rows.len() {
            assert(s[j as int] == row_view(rows@[j as int]));
        }
        crate::order::lemma_insert_at(s, row_view(row), row_before(), j as int);
    }
    rows.insert(j, row);
    proof {
        assert(row_views(rows@) =~= s.insert(j as int, row_view(row)));
    }
}

/// The proxy groups of a controller list: every entry with members, named
/// by its own name (else its key), with its current node (else `-`),
/// stably sorted by name.
pub fn proxy_groups_from_response(response: &ProxyGroups) -> (r: Vec<ProxyGroupRow>)
    ensures
        row_views(r@) == stable_sort(group_rows(response.proxies@), row_before()),
{
    let ghost entries = response.proxies@;
    let mut out: Vec<ProxyGroupRow> = Vec::new();
    let mut i: usize = 0;
    while i < response.proxies.len()
        invariant
            i <= response.proxies.len(),
            entries == response.proxies@,
            row_views(out@) == stable_sort(group_rows(entries.take(i as int)), row_before()),
        decreases response.proxies.len() - i,
    {
        let (key, entry) = &response.proxies[i];
        proof {
            assert(entries.take(i + 1).drop_last() =~= entries.take(i as int));
            assert(entries.take(i + 1).last() == entries[i as int]);
        }
        if entry.all.len() > 0 {
            let name = match &entry.name {
                Some(n) => copy_string(n),
                None => copy_string(key),
            };
            let now = match &entry.now {
                Some(n) => copy_string(n),
                None => owned("-"),
            };
            let row = ProxyGroupRow { name, now, nodes: copy_strings(&entry.all), offline: false };
            proof {
                let g = group_rows(entries.take(i + 1));
                assert(g.drop_last() =~= group_rows(entries.take(i as int)));
                assert(g.last() == row_view(row));
            }
            insert_row(&mut out, row);
        }
        i += 1;
    }
    proof {
        assert(entries.take(entries.len() as int) =~= entries);
    }
    out
}

/// Sorting the group rows keeps every group and adds none.
pub proof fn law_group_rows_permutation(response: ProxyGroups)
    ensures
        stable_sort(group_rows(response.proxies@), row_before()).to_multiset() == group_rows(
            response.proxies@,
        ).to_multiset(),
{
    lemma_stable_sort_multiset(group_rows(response.proxies@), row_before());
}

/// The latest measured delay that is not negative, scanning the history
/// from its end.
pub open spec fn latest_delay(history: Seq<ProxyHistory>) -> Option<i64>
    decreases history.len(),
{
    if history.len() == 0 {
        None
    } else {
        match history.last().delay {
            Some(d) if d >= 0 => Some(d),
            _ => latest_delay(history.drop_last()),
        }
    }
}

/// The latest non-negative delay of a proxy.
pub fn latest_proxy_delay(proxy: &ProxyEntry) -> (r: Option<i64>)
    ensures
        r == latest_delay(proxy.history@),
{
    let mut i: usize = proxy.history.len();
    proof {
        assert(proxy.history@.take(i as int) =~= proxy.history@);
    }
    while i > 0
        invariant
            i <= proxy.history.len(),
            latest_delay(proxy.history@) == latest_delay(proxy.history@.take(i as int)),
        decreases i,
    {
        let h = proxy.history[i - 1];
        proof {
            assert(proxy.history@.take(i as int).drop_last() =~= proxy.history@.take(i - 1));
        }
        if let Some(d) = h.delay {
            if d >= 0 {
                return Some(d);
            }
        }
        i -= 1;
    }
    proof {
        assert(proxy.history@.take(proxy.history.len() as int) =~= proxy.history@);
    }
    None
}

/// Node metadata as text: type, delay, liveness.
pub open spec fn meta_view(m: ProxyNodeMeta) -> (Seq<char>, Option<i64>, Option<bool>) {
    (m.proxy_type@, m.delay_ms, m.alive)
}

pub open spec fn meta_of(e: ProxyEntry) -> (Seq<char>, Option<i64>, Option<bool>) {
    (
        match e.proxy_type {
            Some(t) => t@,
            None => "-"@,
        },
        latest_delay(e.history@),
        e.alive,
    )
}

/// Sets `k` to `v` in a table kept in key order: replaces the entry of `k`,
/// or inserts one before the first larger key.
pub open spec fn upsert<V>(t: Seq<(Seq<char>, V)>, k: Seq<char>, v: V) -> Seq<(Seq<char>, V)>
    decreases t.len(),
{
    if t.len() == 0 {
        seq![(k, v)]
    } else if t[0].0 == k {
        seq![(k, v)] + t.skip(1)
    } else if text_lt(k, t[0].0) {
        seq![(k, v)] + t
    } else {
        seq![t[0]] + upsert(t.skip(1), k, v)
    }
}

/// The metadata table of the entries, each entry set in turn under its
/// name (a later entry of the same name replaces an earlier one).
pub open spec fn meta_table(entries: Seq<(String, ProxyEntry)>) -> Seq<
    (Seq<char>, (Seq<char>, Option<i64>, Option<bool>)),
>
    decreases entries.len(),
{
    if entries.len() == 0 {
        Seq::empty()
    } else {
        let (k, e) = entries.last();
        upsert(meta_table(entries.drop_last()), entry_name(k, e), meta_of(e))
    }
}

pub open spec fn meta_views(t: Seq<(String, ProxyNodeMeta)>) -> Seq<
    (Seq<char>, (Seq<char>, Option<i64>, Option<bool>)),
> {
    t.map_values(|p: (String, ProxyNodeMeta)| (p.0@, meta_view(p.1)))
}

pub(crate) fn upsert_meta(table: &mut Vec<(String, ProxyNodeMeta)>, name: String, meta: ProxyNodeMeta)
    ensures
        meta_views(final(table)@) == upsert(meta_views(old(table)@), name@, meta_view(meta)),
{
    let ghost t0 = meta_views(table@);
    let mut i: usize = 0;
    proof {
        assert(t0.skip(0) =~= t0);
        assert(t0.take(0) + upsert(t0.skip(0), name@, meta_view(meta)) =~= upsert(t0, name@, meta_view(meta)));
    }
    while i < table.len()
        invariant
            i <= table.len(),
            t0 == meta_views(table@),
            t0 == meta_views(old(table)@),
            upsert(t0, name@, meta_view(meta)) == t0.take(i as int) + upsert(
                t0.skip(i as int),
                name@,
                meta_view(meta),
            ),
        decreases table.len() - i,
    {
        let ghost rest = t0.skip(i as int);
        proof {
            assert(rest[0] == (table@[i as int].0@, meta_view(table@[i as int].1)));
            assert(rest.skip(1) =~= t0.skip(i + 1));
        }
        if str_eq(table[i].0.as_str(), name.as_str()) {
            proof {
                assert(meta_views(table@.update(i as int, (name, meta))) =~= t0.take(i as int)
                    + upsert(rest, name@, meta_view(meta)));
            }
            table.set(i, (name, meta));
            return;
        }
        if text_less(name.as_str(), table[i].0.as_str()) {
            proof {
                assert(meta_views(table@.insert(i as int, (name, meta))) =~= t0.take(i as int)
                    + upsert(rest, name@, meta_view(meta)));
            }
            table.insert(i, (name, meta));
            return;
        }
        proof {
            assert(t0.take(i + 1) =~= t0.take(i as int).push(rest[0]));
            assert(t0.take(i as int) + upsert(rest, name@, meta_view(meta)) =~= t0.take(i + 1)
                + upsert(t0.skip(i + 1), name@, meta_view(meta)));
        }
        i += 1;
    }
    proof {
        assert(t0.take(i as int) =~= t0);
        assert(meta_views(table@.push((name, meta))) =~= t0 + seq![(name@, meta_view(meta))]);
    }
    table.push((name, meta));
}

/// The type, latest delay and liveness of every proxy, by name, in name
/// order.
pub fn proxy_node_meta_from_response(response: &ProxyGroups) -> (r: Vec<(String, ProxyNodeMeta)>)
    ensures
        meta_views(r@) == meta_table(response.proxies@),
{
    let ghost entries = response.proxies@;
    let mut table: Vec<(String, ProxyNodeMeta)> = Vec::new();
    let mut i: usize = 0;
    while i < response.proxies.len()
        invariant
            i <= response.proxies.len(),
            entries == response.proxies@,
            meta_views(table@) == meta_table(entries.take(i as int)),
        decreases response.proxies.len() - i,
    {
        let (key, entry) = &response.proxies[i];
        proof {
            assert(entries.take(i + 1).drop_last() =~= entries.take(i as int));
            assert(entries.take(i + 1).last() == entries[i as int]);
        }
        let name = match &entry.name {
            Some(n) => copy_string(n),
            None => copy_string(key),
        };
        let proxy_type = match &entry.proxy_type {
            Some(t) => copy_string(t),
            None => owned("-"),
        };
        let meta = ProxyNodeMeta {
            proxy_type,
            delay_ms: latest_proxy_delay(entry),
            alive: entry.alive,
        };
        upsert_meta(&mut table, name, meta);
        i += 1;
    }
    proof {
        assert(entries.take(entries.len() as int) =~= entries);
    }
    table
}

/// The value stored under `k`, if any.
pub open spec fn table_get<V>(t: Seq<(Seq<char>, V)>, k: Seq<char>) -> Option<V>
    decreases t.len(),
{
    if t.len() == 0 {
        None
    } else if t[0].0 == k {
        Some(t[0].1)
    } else {
        table_get(t.skip(1), k)
    }
}

/// After setting `k` to `v`, looking up `k` gives `v` and every other key
/// gives what it gave before.
pub proof fn law_upsert_get<V>(t: Seq<(Seq<char>, V)>, k: Seq<char>, v: V, other: Seq<char>)
    ensures
        table_get(upsert(t, k, v), k) == Some(v),
        other != k ==> table_get(upsert(t, k, v), other) == table_get(t, other),
    decreases t.len(),
{
    if t.len() == 0 {
        assert(seq![(k, v)].skip(1) =~= t);
    } else if t[0].0 == k {
        assert((seq![(k, v)] + t.skip(1)).skip(1) =~= t.skip(1));
    } else if text_lt(k, t[0].0) {
        assert((seq![(k, v)] + t).skip(1) =~= t);
    } else {
        law_upsert_get(t.skip(1), k, v, other);
        assert((seq![t[0]] + upsert(t.skip(1), k, v)).skip(1) =~= upsert(t.skip(1), k, v));
    }
}

/// Counts over a controller list: entries, groups (entries with members)
/// and the members of all groups.
pub open spec fn load_summary(entries: Seq<(String, ProxyEntry)>) -> (nat, nat, nat)
    decreases entries.len(),
{
    if entries.len() == 0 {
        (0, 0, 0)
    } else {
        let s = load_summary(entries.drop_last());
        let n = entries.last().1.all@.len();
        if n > 0 {
            (s.0 + 1, s.1 + 1, s.2 + n)
        } else {
            (s.0 + 1, s.1, s.2)
        }
    }
}

proof fn lemma_load_summary_bounds(entries: Seq<(String, ProxyEntry)>)
    ensures
        load_summary(entries).0 == entries.len(),
        load_summary(entries).1 <= load_summary(entries).0,
        load_summary(entries).1 <= load_summary(entries).2,
    decreases entries.len(),
{
    if entries.len() > 0 {
        lemma_load_summary_bounds(entries.drop_last());
    }
}

/// Counts the entries, groups and group members of a controller list.
pub fn proxy_group_load_summary(response: &ProxyGroups) -> (r: ProxyGroupLoadSummary)
    requires
        load_summary(response.proxies@).2 <= usize::MAX,
    ensures
        load_summary(response.proxies@) == (r.entries as nat, r.groups as nat, r.nodes as nat),
{
    let ghost entries = response.proxies@;
    let mut s = ProxyGroupLoadSummary { entries: 0, groups: 0, nodes: 0 };
    let mut i: usize = 0;
    while i < response.proxies.len()
        invariant
            i <= response.proxies.len(),
            entries == response.proxies@,
            load_summary(entries).2 <= usize::MAX,
            load_summary(entries.take(i as int)) == (s.entries as nat, s.groups as nat, s.nodes as nat),
        decreases response.proxies.len() - i,
    {
        proof {
            assert(entries.take(i + 1).drop_last() =~= entries.take(i as int));
            assert(entries.take(i + 1).last() == entries[i as int]);
            lemma_load_summary_bounds(entries.take(i as int));
            lemma_load_summary_monotone(entries, i + 1);
        }
        let n = response.proxies[i].1.all.len();
        s.entries = s.entries + 1;
        if n > 0 {
            s.groups = s.groups + 1;
            s.nodes = s.nodes + n;
        }
        i += 1;
    }
    proof {
        assert(entries.take(entries.len() as int) =~= entries);
    }
    s
}

proof fn lemma_load_summary_monotone(entries: Seq<(String, ProxyEntry)>, i: int)
    requires
        0 <= i <= entries.len(),
    ensures
        load_summary(entries.take(i)).2 <= load_summary(entries).2,
    decreases entries.len() - i,
{
    if i < entries.len() {
        lemma_load_summary_monotone(entries, i + 1);
        assert(entries.take(i + 1).drop_last() =~= entries.take(i));
    } else {
        assert(entries.take(i) =~= entries);
    }
}

/// A list has no more groups than entries, and no more groups than group
/// members.
pub proof fn law_load_summary_bounds(entries: Seq<(String, ProxyEntry)>)
    ensures
        load_summary(entries).0 == entries.len(),
        load_summary(entries).1 <= load_summary(entries).0,
        load_summary(entries).1 <= load_summary(entries).2,
{
    lemma_load_summary_bounds(entries);
}

/// Why proxy groups are not ready yet.
pub open spec fn empty_message_text(s: ProxyGroupLoadSummary) -> Seq<char> {
    if s.entries == 0 {
        "策略组为空：controller 未返回代理数据"@
    } else if s.groups == 0 {
        "策略组为空：controller 返回 "@ + dec(s.entries as nat) + " 个代理条目，但没有可选策略组"@
    } else {
        "策略组为空："@ + dec(s.groups as nat) + " 个策略组没有可选节点"@
    }
}

/// Explains why proxy groups are not ready yet.
pub fn proxy_groups_empty_message(summary: ProxyGroupLoadSummary) -> (r: String)
    ensures
        r@ == empty_message_text(summary),
{
    if summary.entries == 0 {
        return owned("策略组为空：controller 未返回代理数据");
    }
    let mut v: Vec<char> = Vec::new();
    if summary.groups == 0 {
        push_str(&mut v, "策略组为空：controller 返回 ");
        push_usize(&mut v, summary.entries);
        push_str(&mut v, " 个代理条目，但没有可选策略组");
    } else {
        push_str(&mut v, "策略组为空：");
        push_usize(&mut v, summary.groups);
        push_str(&mut v, " 个策略组没有可选节点");
    }
    from_chars(&v)
}

/// A proxy group as read from the runtime configuration, before the
/// controller serves it.
#[derive(Debug, Clone, PartialEq, Eq)]
pub struct RuntimeProxyGroupPreview {
    pub name: String,
    pub now: String,
    pub nodes: Vec<String>,
}

/// Rows of runtime groups: the same groups, marked offline.
pub fn proxy_group_rows_from_runtime_preview(groups: Vec<RuntimeProxyGroupPreview>) -> (r: Vec<
    ProxyGroupRow,
>)
    ensures
        r@.len() == groups@.len(),
        forall|i: int|
            0 <= i < groups@.len() ==> row_view(#[trigger] r@[i]) == (
                groups@[i].name@,
                groups@[i].now@,
                views(groups@[i].nodes@),
                true,
            ),
{
    let mut out: Vec<ProxyGroupRow> = Vec::new();
    let mut i: usize = 0;
    while i < groups.len()
        invariant
            i <= groups.len(),
            out@.len() == i,
            forall|k: int|
                0 <= k < i ==> row_view(#[trigger] out@[k]) == (
                    groups@[k].name@,
                    groups@[k].now@,
                    views(groups@[k].nodes@),
                    true,
                ),
        decreases groups.len() - i,
    {
        let g = &groups[i];
        out.push(
            ProxyGroupRow {
                name: copy_string(&g.name),
                now: copy_string(&g.now),
                nodes: copy_strings(&g.nodes),
                offline: true,
            },
        );
        i += 1;
    }
    out
}

/// A proxy provider as the controller lists it.
#[derive(Debug, Clone, PartialEq, Eq)]
pub struct ProxyProviderEntry {
    pub name: Option<String>,
    pub provider_type: Option<String>,
    pub vehicle_type: Option<String>,
    pub proxies: Vec<String>,
    pub updated_at: Option<String>,
    pub subscription_info: Option<ProviderSubscriptionInfoRow>,
}

/// The controller's proxy providers, keyed by name in key order.
#[derive(Debug, Clone, PartialEq, Eq)]
pub struct ProxyProvidersResponse {
    pub providers: Vec<(String, ProxyProviderEntry)>,
}

/// A rule provider as the controller lists it.
#[derive(Debug, Clone, PartialEq, Eq)]
pub struct RuleProviderEntry {
    pub name: Option<String>,
    pub provider_type: Option<String>,
    pub vehicle_type: Option<String>,
    pub behavior: Option<String>,
    pub format: Option<String>,
    pub rule_count: Option<u64>,
    pub updated_at: Option<String>,
}

/// The controller's rule providers, keyed by name in key order.
#[derive(Debug, Clone, PartialEq, Eq)]
pub struct RuleProvidersResponse {
    pub providers: Vec<(String, RuleProviderEntry)>,
}

pub open spec fn opt_text(v: Option<String>) -> Option<Seq<char>> {
    match v {
        Some(s) => Some(s@),
        None => None,
    }
}

pub open spec fn or_dash(v: Option<String>) -> Seq<char> {
    match v {
        Some(s) => s@,
        None => "-"@,
    }
}

/// Providers fetched over HTTP or read from a file are shown; built-in
/// (compatible) providers are not. The vehicle type is compared trimmed
/// and without regard to ASCII case.
pub open spec fn visible_vehicle(vehicle_type: Option<Seq<char>>) -> bool {
    match vehicle_type {
        Some(v) => lower(trim(v)) == "http"@ || lower(trim(v)) == "file"@,
        None => false,
    }
}

/// Whether a provider with this vehicle type is shown.
pub fn is_visible_proxy_provider(vehicle_type: Option<&str>) -> (b: bool)
    ensures
        b == visible_vehicle(
            match vehicle_type {
                Some(v) => Some(v@),
                None => None,
            },
        ),
{
    match vehicle_type {
        Some(v) => {
            let t = str_trim(v);
            let l = chars_lower(&t);
            let http = to_chars("http");
            let file = to_chars("file");
            chars_eq(&l, &http) || chars_eq(&l, &file)
        },
        None => false,
    }
}

fn copy_opt(v: &Option<String>) -> (r: Option<String>)
    ensures
        opt_text(r) == opt_text(*v),
{
    match v {
        Some(s) => Some(copy_string(s)),
        None => None,
    }
}

/// A provider row as text.
pub open spec fn provider_row_view(r: ProxyProviderRow) -> (
    Seq<char>,
    Seq<char>,
    Seq<char>,
    nat,
    Option<Seq<char>>,
    Option<ProviderSubscriptionInfoRow>,
) {
    (r.name@, r.provider_type@, r.vehicle_type@, r.proxy_count as nat, opt_text(r.updated_at), r.subscription)
}

/// The rows of the shown providers, in key order.
pub open spec fn provider_rows(entries: Seq<(String, ProxyProviderEntry)>) -> Seq<
    (Seq<char>, Seq<char>, Seq<char>, nat, Option<Seq<char>>, Option<ProviderSubscriptionInfoRow>),
>
    decreases entries.len(),
{
    if entries.len() == 0 {
        Seq::empty()
    } else {
        let rest = provider_rows(entries.drop_last());
        let (k, e) = entries.last();
        if visible_vehicle(opt_text(e.vehicle_type)) {
            rest.push(
                (
                    match e.name {
                        Some(n) => n@,
                        None => k@,
                    },
                    or_dash(e.provider_type),
                    or_dash(e.vehicle_type),
                    e.proxies@.len(),
                    opt_text(e.updated_at),
                    e.subscription_info,
                ),
            )
        } else {
            rest
        }
    }
}

/// The rows of the provider dialog: the shown providers, in key order.
pub fn proxy_providers_from_response(response: &ProxyProvidersResponse) -> (r: Vec<ProxyProviderRow>)
    ensures
        r@.map_values(|row: ProxyProviderRow| provider_row_view(row)) == provider_rows(
            response.providers@,
        ),
{
    let ghost entries = response.providers@;
    let mut out: Vec<ProxyProviderRow> = Vec::new();
    let mut i: usize = 0;
    while i < response.providers.len()
        invariant
            i <= response.providers.len(),
            entries == response.providers@,
            out@.map_values(|row: ProxyProviderRow| provider_row_view(row)) == provider_rows(
                entries.take(i as int),
            ),
        decreases response.providers.len() - i,
    {
        let (key, p) = &response.providers[i];
        proof {
            assert(entries.take(i + 1).drop_last() =~= entries.take(i as int));
            assert(entries.take(i + 1).last() == entries[i as int]);
        }
        let vehicle: Option<&str> = match &p.vehicle_type {
            Some(v) => Some(v.as_str()),
            None => None,
        };
        if is_visible_proxy_provider(vehicle) {
            let row = ProxyProviderRow {
                name: match &p.name {
                    Some(n) => copy_string(n),
                    None => copy_string(key),
                },
                provider_type: match &p.provider_type {
                    Some(t) => copy_string(t),
                    None => owned("-"),
                },
                vehicle_type: match &p.vehicle_type {
                    Some(t) => copy_string(t),
                    None => owned("-"),
                },
                proxy_count: p.proxies.len(),
                updated_at: copy_opt(&p.updated_at),
                subscription: p.subscription_info,
            };
            let ghost before = out@;
            out.push(row);
            proof {
                assert(out@.map_values(|row: ProxyProviderRow| provider_row_view(row)) =~= before.map_values(
                    |row: ProxyProviderRow| provider_row_view(row),
                ).push(provider_row_view(row)));
            }
        }
        i += 1;
    }
    proof {
        assert(entries.take(entries.len() as int) =~= entries);
    }
    out
}

/// A rule provider row as text.
pub open spec fn rule_row_view(r: RuleProviderRow) -> (
    Seq<char>,
    Seq<char>,
    Seq<char>,
    Seq<char>,
    Seq<char>,
    nat,
    Option<Seq<char>>,
) {
    (
        r.name@,
        r.provider_type@,
        r.vehicle_type@,
        r.behavior@,
        r.format@,
        r.rule_count as nat,
        opt_text(r.updated_at),
    )
}

/// The row of a rule provider: missing texts are `-`, a missing count is
/// 0, a count beyond `usize` is `usize::MAX`.
pub open spec fn rule_row_of(k: String, e: RuleProviderEntry) -> (
    Seq<char>,
    Seq<char>,
    Seq<char>,
    Seq<char>,
    Seq<char>,
    nat,
    Option<Seq<char>>,
) {
    (
        match e.name {
            Some(n) => n@,
            None => k@,
        },
        or_dash(e.provider_type),
        or_dash(e.vehicle_type),
        or_dash(e.behavior),
        or_dash(e.format),
        match e.rule_count {
            Some(c) => if c <= usize::MAX {
                c as nat
            } else {
                usize::MAX as nat
            },
            None => 0,
        },
        opt_text(e.updated_at),
    )
}

/// The rows of the rule provider dialog, in key order.
pub fn rule_providers_from_response(response: &RuleProvidersResponse) -> (r: Vec<RuleProviderRow>)
    ensures
        r@.len() == response.providers@.len(),
        forall|i: int|
            0 <= i < r@.len() ==> rule_row_view(#[trigger] r@[i]) == rule_row_of(
                response.providers@[i].0,
                response.providers@[i].1,
            ),
{
    let mut out: Vec<RuleProviderRow> = Vec::new();
    let mut i: usize = 0;
    while i < response.providers.len()
        invariant
            i <= response.providers.len(),
            out@.len() == i,
            forall|k: int|
                0 <= k < i ==> rule_row_view(#[trigger] out@[k]) == rule_row_of(
                    response.providers@[k].0,
                    response.providers@[k].1,
                ),
        decreases response.providers.len() - i,
    {
        let (key, p) = &response.providers[i];
        let count: usize = match p.rule_count {
            Some(c) => if c as u128 <= usize::MAX as u128 {
                c as usize
            } else {
                usize::MAX
            },
            None => 0,
        };
        out.push(
            RuleProviderRow {
                name: match &p.name {
                    Some(n) => copy_string(n),
                    None => copy_string(key),
                },
                provider_type: match &p.provider_type {
                    Some(t) => copy_string(t),
                    None => owned("-"),
                },
                vehicle_type: match &p.vehicle_type {
                    Some(t) => copy_string(t),
                    None => owned("-"),
                },
                behavior: match &p.behavior {
                    Some(t) => copy_string(t),
                    None => owned("-"),
                },
                format: match &p.format {
                    Some(t) => copy_string(t),
                    None => owned("-"),
                },
                rule_count: count,
                updated_at: copy_opt(&p.updated_at),
            },
        );
        i += 1;
    }
    out
}

} // verus!
