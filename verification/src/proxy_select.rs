//! The proxy page's and the dashboard's cursors over proxy groups and
//! their nodes: filtering, ordering, and keeping the user's choice across
//! refreshes by remembering names.
use vstd::prelude::*;
use vstd::view::View as _;
use crate::strs::{contains, lower, trim, chars_lower, chars_contains, to_chars, str_trim, str_eq, str_blank};
use crate::models::{ProxyGroupRow, ProxyNodeMeta, ProxyNodeSort, ProxyPane};
use crate::layout::{delay_text, format_proxy_delay, proxy_selection_key_matches, selection_key_match};
use crate::labels::alive_label;
use crate::state::TuiApp;

verus! {

/// The first index `j` with `from <= j < n` at which `p` holds.
pub open spec fn first_from(n: int, p: spec_fn(int) -> bool, from: int) -> Option<int>
    decreases n - from,
{
    if from >= n {
        None
    } else if p(from) {
        Some(from)
    } else {
        first_from(n, p, from + 1)
    }
}

/// The first index below `n` at which `p` holds.
pub open spec fn first_where(n: int, p: spec_fn(int) -> bool) -> Option<int> {
    first_from(n, p, 0)
}

/// The indices below `n` at which `p` holds, in increasing order.
pub open spec fn indices_where(n: int, p: spec_fn(int) -> bool) -> Seq<usize>
    decreases n,
{
    if n <= 0 {
        Seq::empty()
    } else {
        let r = indices_where(n - 1, p);
        if p(n - 1) {
            r.push((n - 1) as usize)
        } else {
            r
        }
    }
}

pub proof fn lemma_first_from_found(n: int, p: spec_fn(int) -> bool, from: int)
    ensures
        first_from(n, p, from) matches Some(j) ==> from <= j < n && p(j) && forall|k: int|
            from <= k < j ==> !#[trigger] p(k),
        first_from(n, p, from) is None ==> forall|k: int| from <= k < n ==> !#[trigger] p(k),
    decreases n - from,
{
    if from < n && !p(from) {
        lemma_first_from_found(n, p, from + 1);
    }
}

pub proof fn lemma_indices_where_bounds(n: int, p: spec_fn(int) -> bool)
    requires
        n <= usize::MAX + 1,
    ensures
        forall|k: int| 0 <= k < indices_where(n, p).len() ==> #[trigger] indices_where(n, p)[k] < n && p(
            indices_where(n, p)[k] as int,
        ),
        forall|i: int| 0 <= i < n && #[trigger] p(i) ==> indices_where(n, p).contains(i as usize),
        n >= 0 ==> indices_where(n, p).len() <= n,
    decreases n,
{
    if n > 0 {
        lemma_indices_where_bounds(n - 1, p);
        let r = indices_where(n - 1, p);
        if p(n - 1) {
            assert(indices_where(n, p) == r.push((n - 1) as usize));
            assert forall|k: int| 0 <= k < indices_where(n, p).len() implies #[trigger] indices_where(n, p)[k] < n
                && p(indices_where(n, p)[k] as int) by {
                if k < r.len() {
                    assert(indices_where(n, p)[k] == r[k]);
                }
            }
            assert forall|i: int| 0 <= i < n && #[trigger] p(i) implies indices_where(n, p).contains(i as usize) by {
                if i < n - 1 {
                    let k = choose|k: int| 0 <= k < r.len() && r[k] == i as usize;
                    assert(indices_where(n, p)[k] == i as usize);
                } else {
                    assert(indices_where(n, p)[r.len() as int] == i as usize);
                }
            }
        }
    }
}

/// The value, ASCII case ignored, holds the query.
pub open spec fn field_match(q: Seq<char>, v: Option<Seq<char>>) -> bool {
    v matches Some(t) && contains(lower(t), lower(q))
}

/// The group the proxy page's cursor is on.
pub open spec fn selected_group(s: TuiApp) -> Option<ProxyGroupRow> {
    if s.proxy_group_index < s.proxy_groups@.len() {
        Some(s.proxy_groups@[s.proxy_group_index as int])
    } else {
        None
    }
}

/// The group the dashboard's cursor is on.
pub open spec fn dashboard_group(s: TuiApp) -> Option<ProxyGroupRow> {
    if s.dashboard_proxy_group_index < s.proxy_groups@.len() {
        Some(s.proxy_groups@[s.dashboard_proxy_group_index as int])
    } else {
        None
    }
}

/// The first group whose name matches the remembered `name`.
pub open spec fn group_named(groups: Seq<ProxyGroupRow>, name: Seq<char>) -> Option<int> {
    first_where(groups.len() as int, |i: int| selection_key_match(groups[i].name@, name))
}

/// The first node whose name matches the remembered `name`.
pub open spec fn node_named(nodes: Seq<String>, name: Seq<char>) -> Option<int> {
    first_where(nodes.len() as int, |i: int| selection_key_match(nodes[i]@, name))
}

/// The first node that is exactly `name`.
pub open spec fn node_equal(nodes: Seq<String>, name: Seq<char>) -> Option<int> {
    first_where(nodes.len() as int, |i: int| nodes[i]@ == name)
}

/// The metadata stored for a node name.
pub open spec fn meta_for(t: Seq<(String, ProxyNodeMeta)>, name: Seq<char>) -> Option<ProxyNodeMeta> {
    match first_where(t.len() as int, |i: int| t[i].0@ == name) {
        Some(i) => Some(t[i].1),
        None => None,
    }
}

/// The proxy filter, when it applies to the group list.
pub open spec fn group_query(s: TuiApp) -> Seq<char> {
    if s.proxy_pane == ProxyPane::Groups {
        trim(s.proxy_query@)
    } else {
        Seq::empty()
    }
}

/// The proxy filter, when it applies to the node list.
pub open spec fn node_query(s: TuiApp) -> Seq<char> {
    if s.proxy_pane == ProxyPane::Nodes {
        trim(s.proxy_query@)
    } else {
        Seq::empty()
    }
}

/// A group passes the filter by its name, its current node or any node.
pub open spec fn group_keep(g: ProxyGroupRow, q: Seq<char>) -> bool {
    q.len() == 0 || field_match(q, Some(g.name@)) || field_match(q, Some(g.now@)) || exists|k: int|
        0 <= k < g.nodes@.len() && field_match(q, Some(#[trigger] g.nodes@[k]@))
}

/// The groups the proxy page lists.
pub open spec fn group_indices(s: TuiApp) -> Seq<usize> {
    indices_where(s.proxy_groups@.len() as int, |i: int| group_keep(s.proxy_groups@[i], group_query(s)))
}

/// The groups the dashboard lists: all of them.
pub open spec fn dashboard_group_indices(s: TuiApp) -> Seq<usize> {
    indices_where(s.proxy_groups@.len() as int, |i: int| true)
}

pub open spec fn alive_text(alive: Option<bool>) -> Option<Seq<char>> {
    match alive {
        Some(true) => Some("可用"@),
        Some(false) => Some("不可用"@),
        None => None,
    }
}

/// A node passes the filter by its name, type, delay text or liveness.
pub open spec fn node_keep(meta: Option<ProxyNodeMeta>, node: Seq<char>, q: Seq<char>) -> bool {
    let delay = match meta {
        Some(m) => m.delay_ms,
        None => None,
    };
    q.len() == 0 || field_match(q, Some(node)) || field_match(
        q,
        match meta {
            Some(m) => Some(m.proxy_type@),
            None => None,
        },
    ) || field_match(q, Some(delay_text(delay))) || field_match(
        q,
        alive_text(
            match meta {
                Some(m) => m.alive,
                None => None,
            },
        ),
    )
}

/// Sort weight of a node's delay: unknown and negative delays last.
pub open spec fn delay_weight(meta: Option<ProxyNodeMeta>) -> int {
    match meta {
        Some(m) => match m.delay_ms {
            Some(d) => if d >= 0 {
                d as int
            } else {
                i64::MAX as int
            },
            None => i64::MAX as int,
        },
        None => i64::MAX as int,
    }
}

/// Sort weight of a node's liveness: alive, unknown, dead.
pub open spec fn alive_weight(meta: Option<ProxyNodeMeta>) -> int {
    match meta {
        Some(m) => match m.alive {
            Some(true) => 0,
            None => 1,
            Some(false) => 2,
        },
        None => 1,
    }
}

/// `(a1, a2, a3)` comes before `(b1, b2, b3)`.
pub open spec fn lex_lt(a1: int, a2: int, a3: int, b1: int, b2: int, b3: int) -> bool {
    a1 < b1 || (a1 == b1 && (a2 < b2 || (a2 == b2 && a3 < b3)))
}

/// Node `a` comes before node `b` of group `g` in the given ordering.
pub open spec fn node_before(
    meta: Seq<(String, ProxyNodeMeta)>,
    g: ProxyGroupRow,
    sort: ProxyNodeSort,
    a: usize,
    b: usize,
) -> bool {
    let ma = if a < g.nodes@.len() {
        meta_for(meta, g.nodes@[a as int]@)
    } else {
        None
    };
    let mb = if b < g.nodes@.len() {
        meta_for(meta, g.nodes@[b as int]@)
    } else {
        None
    };
    match sort {
        ProxyNodeSort::Subscription => false,
        ProxyNodeSort::Latency => lex_lt(
            delay_weight(ma),
            alive_weight(ma),
            a as int,
            delay_weight(mb),
            alive_weight(mb),
            b as int,
        ),
        ProxyNodeSort::Alive => lex_lt(
            alive_weight(ma),
            delay_weight(ma),
            a as int,
            alive_weight(mb),
            delay_weight(mb),
            b as int,
        ),
    }
}

/// Where `x` goes in `t`: before the first element it comes before.
pub open spec fn insert_position(t: Seq<usize>, x: usize, lt: spec_fn(usize, usize) -> bool) -> int {
    match first_where(t.len() as int, |j: int| lt(x, t[j])) {
        Some(j) => j,
        None => t.len() as int,
    }
}

/// Insertion sort of `xs` by `lt`; ties keep their order.
pub open spec fn sort_by(xs: Seq<usize>, lt: spec_fn(usize, usize) -> bool) -> Seq<usize>
    decreases xs.len(),
{
    if xs.len() == 0 {
        xs
    } else {
        let t = sort_by(xs.drop_last(), lt);
        t.insert(insert_position(t, xs.last(), lt), xs.last())
    }
}

/// The nodes of `g` that pass filter `q`, in the chosen order.
pub open spec fn node_order(s: TuiApp, g: ProxyGroupRow, q: Seq<char>) -> Seq<usize> {
    let f = indices_where(
        g.nodes@.len() as int,
        |i: int| node_keep(meta_for(s.proxy_node_meta@, g.nodes@[i]@), g.nodes@[i]@, q),
    );
    if s.proxy_node_sort == ProxyNodeSort::Subscription {
        f
    } else {
        sort_by(f, |a: usize, b: usize| node_before(s.proxy_node_meta@, g, s.proxy_node_sort, a, b))
    }
}

/// The nodes the proxy page lists for its group.
pub open spec fn node_indices(s: TuiApp) -> Seq<usize> {
    match selected_group(s) {
        Some(g) => node_order(s, g, node_query(s)),
        None => Seq::empty(),
    }
}

/// The nodes the dashboard lists for its group.
pub open spec fn dashboard_node_indices(s: TuiApp) -> Seq<usize> {
    match dashboard_group(s) {
        Some(g) => node_order(s, g, Seq::empty()),
        None => Seq::empty(),
    }
}

/// Whether `value` holds the lowered query, ASCII case ignored.
fn field_has(lowered_query: &Vec<char>, value: Option<&str>) -> (b: bool)
    ensures
        b == (value matches Some(t) && contains(lower(t@), lowered_query@)),
{
    match value {
        Some(t) => {
            let c = to_chars(t);
            let l = chars_lower(&c);
            chars_contains(&l, lowered_query)
        },
        None => false,
    }
}

/// The metadata stored for a node name.
fn meta_lookup<'a>(table: &'a Vec<(String, ProxyNodeMeta)>, name: &str) -> (r: Option<&'a ProxyNodeMeta>)
    ensures
        r matches Some(m) ==> meta_for(table@, name@) == Some(*m),
        r is None ==> meta_for(table@, name@) is None,
{
    let ghost p = |i: int| table@[i].0@ == name@;
    let mut j: usize = 0;
    while j < table.len()
        invariant
            j <= table.len(),
            p == (|i: int| table@[i].0@ == name@),
            first_where(table@.len() as int, p) == first_from(table@.len() as int, p, j as int),
        decreases table.len() - j,
    {
        if str_eq(table[j].0.as_str(), name) {
            return Some(&table[j].1);
        }
        j += 1;
    }
    None
}

impl TuiApp {
    /// Whether group `g` passes the group filter, given the lowered query.
    fn group_passes(g: &ProxyGroupRow, q: &Vec<char>, lq: &Vec<char>) -> (b: bool)
        requires
            lq@ == lower(q@),
        ensures
            b == group_keep(*g, q@),
    {
        if q.len() == 0 {
            return true;
        }
        if field_has(lq, Some(g.name.as_str())) || field_has(lq, Some(g.now.as_str())) {
            return true;
        }
        let mut k: usize = 0;
        while k < g.nodes.len()
            invariant
                k <= g.nodes.len(),
                lq@ == lower(q@),
                forall|j: int| 0 <= j < k ==> !field_match(q@, Some(#[trigger] g.nodes@[j]@)),
            decreases g.nodes.len() - k,
        {
            if field_has(lq, Some(g.nodes[k].as_str())) {
                return true;
            }
            k += 1;
        }
        false
    }

    /// The groups the proxy page lists, by index.
    pub fn filtered_proxy_group_indices(&self) -> (r: Vec<usize>)
        ensures
            r@ == group_indices(*self),
    {
        let q: Vec<char> = if self.proxy_pane == ProxyPane::Groups {
            str_trim(self.proxy_query.as_str())
        } else {
            Vec::new()
        };
        assert(q@ == group_query(*self));
        let lq = chars_lower(&q);
        let ghost p = |i: int| group_keep(self.proxy_groups@[i], group_query(*self));
        let mut r: Vec<usize> = Vec::new();
        let mut i: usize = 0;
        while i < self.proxy_groups.len()
            invariant
                i <= self.proxy_groups.len(),
                q@ == group_query(*self),
                lq@ == lower(q@),
                p == (|i: int| group_keep(self.proxy_groups@[i], group_query(*self))),
                r@ == indices_where(i as int, p),
            decreases self.proxy_groups.len() - i,
        {
            if Self::group_passes(&self.proxy_groups[i], &q, &lq) {
                r.push(i);
            }
            i += 1;
        }
        r
    }

    /// The groups the dashboard lists, by index.
    pub fn filtered_dashboard_proxy_group_indices(&self) -> (r: Vec<usize>)
        ensures
            r@ == dashboard_group_indices(*self),
    {
        let ghost p = |i: int| true;
        let mut r: Vec<usize> = Vec::new();
        let mut i: usize = 0;
        while i < self.proxy_groups.len()
            invariant
                i <= self.proxy_groups.len(),
                p == (|i: int| true),
                r@ == indices_where(i as int, p),
            decreases self.proxy_groups.len() - i,
        {
            r.push(i);
            i += 1;
        }
        r
    }

    /// Whether a node passes the node filter, given the lowered query.
    fn node_passes(&self, node: &str, q: &Vec<char>, lq: &Vec<char>) -> (b: bool)
        requires
            lq@ == lower(q@),
        ensures
            b == node_keep(meta_for(self.proxy_node_meta@, node@), node@, q@),
    {
        if q.len() == 0 {
            return true;
        }
        let meta = meta_lookup(&self.proxy_node_meta, node);
        if field_has(lq, Some(node)) {
            return true;
        }
        match meta {
            Some(m) => {
                if field_has(lq, Some(m.proxy_type.as_str())) {
                    return true;
                }
                let d = format_proxy_delay(m.delay_ms);
                if field_has(lq, Some(d.as_str())) {
                    return true;
                }
                match m.alive {
                    Some(a) => field_has(lq, Some(alive_label(a))),
                    None => false,
                }
            },
            None => {
                let d = format_proxy_delay(None);
                field_has(lq, Some(d.as_str()))
            },
        }
    }

    /// The nodes of `g` that pass the filter `q`, in the chosen order.
    fn ordered_nodes(&self, g: &ProxyGroupRow, q: &Vec<char>) -> (r: Vec<usize>)
        ensures
            r@ == node_order(*self, *g, q@),
    {
        let lq = chars_lower(q);
        let ghost p = |i: int| node_keep(meta_for(self.proxy_node_meta@, g.nodes@[i]@), g.nodes@[i]@, q@);
        let mut f: Vec<usize> = Vec::new();
        let mut i: usize = 0;
        while i < g.nodes.len()
            invariant
                i <= g.nodes.len(),
                lq@ == lower(q@),
                p == (|i: int| node_keep(meta_for(self.proxy_node_meta@, g.nodes@[i]@), g.nodes@[i]@, q@)),
                f@ == indices_where(i as int, p),
            decreases g.nodes.len() - i,
        {
            if self.node_passes(g.nodes[i].as_str(), q, &lq) {
                f.push(i);
            }
            i += 1;
        }
        if self.proxy_node_sort == ProxyNodeSort::Subscription {
            return f;
        }
        let ghost lt = |a: usize, b: usize| node_before(self.proxy_node_meta@, *g, self.proxy_node_sort, a, b);
        let mut r: Vec<usize> = Vec::new();
        let mut k: usize = 0;
        while k < f.len()
            invariant
                k <= f.len(),
                lt == (|a: usize, b: usize| node_before(self.proxy_node_meta@, *g, self.proxy_node_sort, a, b)),
                r@ == sort_by(f@.take(k as int), lt),
            decreases f.len() - k,
        {
            let x = f[k];
            let j = self.insert_position_of(g, &r, x);
            proof {
                assert(f@.take(k as int + 1).drop_last() =~= f@.take(k as int));
                assert(f@.take(k as int + 1).last() == x);
            }
            r.insert(j, x);
            k += 1;
        }
        proof {
            assert(f@.take(f@.len() as int) =~= f@);
        }
        r
    }

    /// Where node `x` goes in the ordered list `t`.
    fn insert_position_of(&self, g: &ProxyGroupRow, t: &Vec<usize>, x: usize) -> (j: usize)
        ensures
            j <= t.len(),
            j as int == insert_position(
                t@,
                x,
                |a: usize, b: usize| node_before(self.proxy_node_meta@, *g, self.proxy_node_sort, a, b),
            ),
    {
        let ghost lt = |a: usize, b: usize| node_before(self.proxy_node_meta@, *g, self.proxy_node_sort, a, b);
        let ghost pl = |j: int| lt(x, t@[j]);
        let mut j: usize = 0;
        while j < t.len()
            invariant
                j <= t.len(),
                lt == (|a: usize, b: usize| node_before(self.proxy_node_meta@, *g, self.proxy_node_sort, a, b)),
                pl == (|j: int| lt(x, t@[j])),
                first_where(t@.len() as int, pl) == first_from(t@.len() as int, pl, j as int),
            decreases t.len() - j,
        {
            if self.node_comes_before(g, x, t[j]) {
                assert(pl(j as int));
                return j;
            }
            assert(!pl(j as int));
            j += 1;
        }
        j
    }

    /// Whether node `a` of `g` comes before node `b` in the chosen order.
    fn node_comes_before(&self, g: &ProxyGroupRow, a: usize, b: usize) -> (r: bool)
        ensures
            r == node_before(self.proxy_node_meta@, *g, self.proxy_node_sort, a, b),
    {
        let ma = if a < g.nodes.len() {
            meta_lookup(&self.proxy_node_meta, g.nodes[a].as_str())
        } else {
            None
        };
        let mb = if b < g.nodes.len() {
            meta_lookup(&self.proxy_node_meta, g.nodes[b].as_str())
        } else {
            None
        };
        let (da, aa) = Self::weights(ma);
        let (db, ab) = Self::weights(mb);
        match self.proxy_node_sort {
            ProxyNodeSort::Subscription => false,
            ProxyNodeSort::Latency => da < db || (da == db && (aa < ab || (aa == ab && a < b))),
            ProxyNodeSort::Alive => aa < ab || (aa == ab && (da < db || (da == db && a < b))),
        }
    }

    fn weights(m: Option<&ProxyNodeMeta>) -> (r: (i64, u8))
        ensures
            r.0 as int == delay_weight(
                match m {
                    Some(x) => Some(*x),
                    None => None,
                },
            ),
            r.1 as int == alive_weight(
                match m {
                    Some(x) => Some(*x),
                    None => None,
                },
            ),
    {
        match m {
            Some(x) => {
                let d = match x.delay_ms {
                    Some(d) => if d >= 0 {
                        d
                    } else {
                        i64::MAX
                    },
                    None => i64::MAX,
                };
                let a: u8 = match x.alive {
                    Some(true) => 0,
                    None => 1,
                    Some(false) => 2,
                };
                (d, a)
            },
            None => (i64::MAX, 1),
        }
    }

    /// The nodes the proxy page lists for its group, by index.
    pub fn filtered_proxy_node_indices(&self) -> (r: Vec<usize>)
        ensures
            r@ == node_indices(*self),
    {
        if self.proxy_group_index >= self.proxy_groups.len() {
            return Vec::new();
        }
        let q: Vec<char> = if self.proxy_pane == ProxyPane::Nodes {
            str_trim(self.proxy_query.as_str())
        } else {
            Vec::new()
        };
        self.ordered_nodes(&self.proxy_groups[self.proxy_group_index], &q)
    }

    /// The nodes the dashboard lists for its group, by index.
    pub fn filtered_dashboard_proxy_node_indices(&self) -> (r: Vec<usize>)
        ensures
            r@ == dashboard_node_indices(*self),
    {
        if self.dashboard_proxy_group_index >= self.proxy_groups.len() {
            return Vec::new();
        }
        let q: Vec<char> = Vec::new();
        assert(q@ =~= Seq::<char>::empty());
        self.ordered_nodes(&self.proxy_groups[self.dashboard_proxy_group_index], &q)
    }
}


/// The cursor kept on one of `ix`: the first one when it is not among them.
pub open spec fn clamped(sel: usize, ix: Seq<usize>) -> usize {
    if ix.len() == 0 {
        0
    } else if !ix.contains(sel) {
        ix[0]
    } else {
        sel
    }
}

/// Remembers the proxy page's group by name.
pub open spec fn remember_group(s: TuiApp) -> TuiApp {
    match selected_group(s) {
        Some(g) => TuiApp { proxy_group_selection_key: Some(g.name), ..s },
        None => s,
    }
}

/// Remembers the dashboard's group by name.
pub open spec fn remember_dashboard_group(s: TuiApp) -> TuiApp {
    match dashboard_group(s) {
        Some(g) => TuiApp { dashboard_proxy_group_selection_key: Some(g.name), ..s },
        None => s,
    }
}

/// The node the proxy page's cursor is on: the listed node at the cursor,
/// else the remembered node of the group.
pub open spec fn selected_node_name(s: TuiApp) -> Option<String> {
    match selected_group(s) {
        None => None,
        Some(g) => if s.proxy_node_index < g.nodes@.len() && node_indices(s).contains(s.proxy_node_index) {
            Some(g.nodes@[s.proxy_node_index as int])
        } else {
            match s.proxy_node_selection_key {
                None => None,
                Some(k) => match node_named(g.nodes@, k@) {
                    Some(i) => Some(g.nodes@[i]),
                    None => None,
                },
            }
        },
    }
}

/// The node the dashboard's cursor is on, likewise.
pub open spec fn selected_dashboard_node_name(s: TuiApp) -> Option<String> {
    match dashboard_group(s) {
        None => None,
        Some(g) => if s.dashboard_proxy_node_index < g.nodes@.len() && dashboard_node_indices(s).contains(
            s.dashboard_proxy_node_index,
        ) {
            Some(g.nodes@[s.dashboard_proxy_node_index as int])
        } else {
            match s.dashboard_proxy_node_selection_key {
                None => None,
                Some(k) => match node_named(g.nodes@, k@) {
                    Some(i) => Some(g.nodes@[i]),
                    None => None,
                },
            }
        },
    }
}

/// Remembers the proxy page's group and node by name.
pub open spec fn remember_node(s: TuiApp) -> TuiApp {
    match selected_group(s) {
        None => s,
        Some(g) => match selected_node_name(s) {
            Some(n) => TuiApp {
                proxy_group_selection_key: Some(g.name),
                proxy_node_selection_key: Some(n),
                ..s
            },
            None => s,
        },
    }
}

/// Remembers the dashboard's group and node by name.
pub open spec fn remember_dashboard_node(s: TuiApp) -> TuiApp {
    match dashboard_group(s) {
        None => s,
        Some(g) => match selected_dashboard_node_name(s) {
            Some(n) => TuiApp {
                dashboard_proxy_group_selection_key: Some(g.name),
                dashboard_proxy_node_selection_key: Some(n),
                ..s
            },
            None => s,
        },
    }
}

/// Moves the proxy page's group cursor to the remembered group.
pub open spec fn restore_group(s: TuiApp) -> TuiApp {
    match s.proxy_group_selection_key {
        Some(k) => match group_named(s.proxy_groups@, k@) {
            Some(i) => TuiApp { proxy_group_index: i as usize, ..s },
            None => s,
        },
        None => s,
    }
}

/// Moves the dashboard's group cursor to the remembered group.
pub open spec fn restore_dashboard_group(s: TuiApp) -> TuiApp {
    match s.dashboard_proxy_group_selection_key {
        Some(k) => match group_named(s.proxy_groups@, k@) {
            Some(i) => TuiApp { dashboard_proxy_group_index: i as usize, ..s },
            None => s,
        },
        None => s,
    }
}

/// Moves the proxy page's node cursor to the remembered node.
pub open spec fn restore_node(s: TuiApp) -> TuiApp {
    match s.proxy_node_selection_key {
        Some(k) => match selected_group(s) {
            Some(g) => match node_named(g.nodes@, k@) {
                Some(i) => TuiApp { proxy_node_index: i as usize, ..s },
                None => s,
            },
            None => s,
        },
        None => s,
    }
}

/// Moves the dashboard's node cursor to the remembered node.
pub open spec fn restore_dashboard_node(s: TuiApp) -> TuiApp {
    match s.dashboard_proxy_node_selection_key {
        Some(k) => match dashboard_group(s) {
            Some(g) => match node_named(g.nodes@, k@) {
                Some(i) => TuiApp { dashboard_proxy_node_index: i as usize, ..s },
                None => s,
            },
            None => s,
        },
        None => s,
    }
}

/// Restores the node cursor and keeps it on a listed node.
pub open spec fn clamp_node(s: TuiApp) -> TuiApp {
    let s1 = restore_node(s);
    TuiApp { proxy_node_index: clamped(s1.proxy_node_index, node_indices(s1)), ..s1 }
}

/// Restores the dashboard's group cursor and keeps it on a group.
pub open spec fn clamp_dashboard_group(s: TuiApp) -> TuiApp {
    let s1 = restore_dashboard_group(s);
    TuiApp {
        dashboard_proxy_group_index: clamped(s1.dashboard_proxy_group_index, dashboard_group_indices(s1)),
        ..s1
    }
}

/// Restores the dashboard's node cursor and keeps it on a node.
pub open spec fn clamp_dashboard_node(s: TuiApp) -> TuiApp {
    let s1 = restore_dashboard_node(s);
    TuiApp {
        dashboard_proxy_node_index: clamped(s1.dashboard_proxy_node_index, dashboard_node_indices(s1)),
        ..s1
    }
}

/// The index of a group's current node, or 0.
pub open spec fn current_node_position(g: Option<ProxyGroupRow>) -> usize {
    match g {
        Some(g) => match node_equal(g.nodes@, g.now@) {
            Some(i) => i as usize,
            None => 0,
        },
        None => 0,
    }
}

/// The node at index `i` of a group.
pub open spec fn node_at(g: Option<ProxyGroupRow>, i: usize) -> Option<String> {
    match g {
        Some(g) => if i < g.nodes@.len() {
            Some(g.nodes@[i as int])
        } else {
            None
        },
        None => None,
    }
}

/// Points the node cursor at the group's current node.
pub open spec fn point_at_current_node(s: TuiApp) -> TuiApp {
    let i = current_node_position(selected_group(s));
    TuiApp { proxy_node_index: i, proxy_node_selection_key: node_at(selected_group(s), i), ..s }
}

/// A filter that hides every node of the group is dropped.
pub open spec fn select_clears_query(s: TuiApp) -> bool {
    let s1 = point_at_current_node(s);
    trim(s1.proxy_query@).len() != 0 && node_indices(s1).len() == 0
}

/// The filter text after selecting the group's current node.
pub open spec fn select_query_view(s: TuiApp) -> Seq<char> {
    if select_clears_query(s) {
        Seq::empty()
    } else {
        s.proxy_query@
    }
}

/// Selects the group's current node; `q` is the filter text afterwards.
pub open spec fn select_current_node(s: TuiApp, q: String) -> TuiApp {
    remember_node(clamp_node(TuiApp { proxy_query: q, ..point_at_current_node(s) }))
}

/// Selects the dashboard group's current node.
pub open spec fn select_current_dashboard_node(s: TuiApp) -> TuiApp {
    let i = current_node_position(dashboard_group(s));
    remember_dashboard_node(
        clamp_dashboard_node(
            TuiApp {
                dashboard_proxy_node_index: i,
                dashboard_proxy_node_selection_key: node_at(dashboard_group(s), i),
                ..s
            },
        ),
    )
}

/// Focuses the node list on the group's current node.
pub open spec fn focus_nodes_on_current(s: TuiApp, q: String) -> TuiApp {
    remember_node(remember_group(select_current_node(TuiApp { proxy_pane: ProxyPane::Nodes, ..s }, q)))
}

/// The filter text after focusing the node list.
pub open spec fn focus_query_view(s: TuiApp) -> Seq<char> {
    select_query_view(TuiApp { proxy_pane: ProxyPane::Nodes, ..s })
}

/// Focuses the dashboard's node list on its group's current node.
pub open spec fn focus_dashboard_nodes_on_current(s: TuiApp) -> TuiApp {
    remember_dashboard_node(remember_dashboard_group(select_current_dashboard_node(s)))
}

impl TuiApp {
    /// The group the proxy page's cursor is on.
    pub fn selected_proxy_group(&self) -> (r: Option<&ProxyGroupRow>)
        ensures
            r matches Some(g) ==> selected_group(*self) == Some(*g),
            r is None ==> selected_group(*self) is None,
    {
        if self.proxy_group_index < self.proxy_groups.len() {
            Some(&self.proxy_groups[self.proxy_group_index])
        } else {
            None
        }
    }

    /// The group the dashboard's cursor is on.
    pub fn dashboard_proxy_group(&self) -> (r: Option<&ProxyGroupRow>)
        ensures
            r matches Some(g) ==> dashboard_group(*self) == Some(*g),
            r is None ==> dashboard_group(*self) is None,
    {
        if self.dashboard_proxy_group_index < self.proxy_groups.len() {
            Some(&self.proxy_groups[self.dashboard_proxy_group_index])
        } else {
            None
        }
    }

    /// The first group whose name matches `name`.
    pub fn find_proxy_group_index(&self, name: &str) -> (r: Option<usize>)
        ensures
            r matches Some(i) ==> group_named(self.proxy_groups@, name@) == Some(i as int) && i
                < self.proxy_groups@.len(),
            r is None ==> group_named(self.proxy_groups@, name@) is None,
    {
        let ghost p = |i: int| selection_key_match(self.proxy_groups@[i].name@, name@);
        let mut j: usize = 0;
        while j < self.proxy_groups.len()
            invariant
                j <= self.proxy_groups.len(),
                p == (|i: int| selection_key_match(self.proxy_groups@[i].name@, name@)),
                first_where(self.proxy_groups@.len() as int, p) == first_from(
                    self.proxy_groups@.len() as int,
                    p,
                    j as int,
                ),
            decreases self.proxy_groups.len() - j,
        {
            if proxy_selection_key_matches(self.proxy_groups[j].name.as_str(), name) {
                return Some(j);
            }
            j += 1;
        }
        None
    }

    /// The first node of `nodes` whose name matches `name`.
    fn find_node(nodes: &Vec<String>, name: &str) -> (r: Option<usize>)
        ensures
            r matches Some(i) ==> node_named(nodes@, name@) == Some(i as int) && i < nodes@.len(),
            r is None ==> node_named(nodes@, name@) is None,
    {
        let ghost p = |i: int| selection_key_match(nodes@[i]@, name@);
        let mut j: usize = 0;
        while j < nodes.len()
            invariant
                j <= nodes.len(),
                p == (|i: int| selection_key_match(nodes@[i]@, name@)),
                first_where(nodes@.len() as int, p) == first_from(nodes@.len() as int, p, j as int),
            decreases nodes.len() - j,
        {
            if proxy_selection_key_matches(nodes[j].as_str(), name) {
                return Some(j);
            }
            j += 1;
        }
        None
    }

    /// The first node of `nodes` that is exactly `name`.
    fn find_node_equal(nodes: &Vec<String>, name: &str) -> (r: Option<usize>)
        ensures
            r matches Some(i) ==> node_equal(nodes@, name@) == Some(i as int) && i < nodes@.len(),
            r is None ==> node_equal(nodes@, name@) is None,
    {
        let ghost p = |i: int| nodes@[i]@ == name@;
        let mut j: usize = 0;
        while j < nodes.len()
            invariant
                j <= nodes.len(),
                p == (|i: int| nodes@[i]@ == name@),
                first_where(nodes@.len() as int, p) == first_from(nodes@.len() as int, p, j as int),
            decreases nodes.len() - j,
        {
            if str_eq(nodes[j].as_str(), name) {
                return Some(j);
            }
            j += 1;
        }
        None
    }

    /// The first node of the proxy page's group whose name matches `name`.
    pub fn find_proxy_node_index(&self, name: &str) -> (r: Option<usize>)
        ensures
            r matches Some(i) ==> selected_group(*self) matches Some(g) && node_named(g.nodes@, name@) == Some(
                i as int,
            ) && i < g.nodes@.len(),
            r is None ==> !(selected_group(*self) matches Some(g) && node_named(g.nodes@, name@) is Some),
    {
        match self.selected_proxy_group() {
            Some(g) => Self::find_node(&g.nodes, name),
            None => None,
        }
    }

    /// The first node of the dashboard's group whose name matches `name`.
    pub fn find_dashboard_proxy_node_index(&self, name: &str) -> (r: Option<usize>)
        ensures
            r matches Some(i) ==> dashboard_group(*self) matches Some(g) && node_named(g.nodes@, name@) == Some(
                i as int,
            ) && i < g.nodes@.len(),
            r is None ==> !(dashboard_group(*self) matches Some(g) && node_named(g.nodes@, name@) is Some),
    {
        match self.dashboard_proxy_group() {
            Some(g) => Self::find_node(&g.nodes, name),
            None => None,
        }
    }

    /// Remembers the proxy page's group by name.
    pub fn remember_proxy_group_selection(&mut self)
        ensures
            *final(self) == remember_group(*old(self)),
    {
        if self.proxy_group_index < self.proxy_groups.len() {
            let name = self.proxy_groups[self.proxy_group_index].name.clone();
            self.proxy_group_selection_key = Some(name);
        }
    }

    /// Remembers the dashboard's group by name.
    pub fn remember_dashboard_proxy_group_selection(&mut self)
        ensures
            *final(self) == remember_dashboard_group(*old(self)),
    {
        if self.dashboard_proxy_group_index < self.proxy_groups.len() {
            let name = self.proxy_groups[self.dashboard_proxy_group_index].name.clone();
            self.dashboard_proxy_group_selection_key = Some(name);
        }
    }

    /// The node the proxy page's cursor is on.
    pub fn selected_proxy_node_name(&self) -> (r: Option<String>)
        ensures
            r == selected_node_name(*self),
    {
        if self.proxy_group_index >= self.proxy_groups.len() {
            return None;
        }
        let g = &self.proxy_groups[self.proxy_group_index];
        if self.proxy_node_index < g.nodes.len() {
            let indices = self.filtered_proxy_node_indices();
            if crate::selection::index_position(&indices, self.proxy_node_index).is_some() {
                proof {
                    crate::selection::lemma_position_sound(indices@, self.proxy_node_index, 0);
                }
                return Some(g.nodes[self.proxy_node_index].clone());
            }
            proof {
                crate::selection::lemma_position_sound(indices@, self.proxy_node_index, 0);
            }
        }
        match &self.proxy_node_selection_key {
            None => None,
            Some(k) => match Self::find_node(&g.nodes, k.as_str()) {
                Some(i) => Some(g.nodes[i].clone()),
                None => None,
            },
        }
    }

    /// The node the dashboard's cursor is on.
    pub fn selected_dashboard_proxy_node_name(&self) -> (r: Option<String>)
        ensures
            r == selected_dashboard_node_name(*self),
    {
        if self.dashboard_proxy_group_index >= self.proxy_groups.len() {
            return None;
        }
        let g = &self.proxy_groups[self.dashboard_proxy_group_index];
        if self.dashboard_proxy_node_index < g.nodes.len() {
            let indices = self.filtered_dashboard_proxy_node_indices();
            if crate::selection::index_position(&indices, self.dashboard_proxy_node_index).is_some() {
                proof {
                    crate::selection::lemma_position_sound(indices@, self.dashboard_proxy_node_index, 0);
                }
                return Some(g.nodes[self.dashboard_proxy_node_index].clone());
            }
            proof {
                crate::selection::lemma_position_sound(indices@, self.dashboard_proxy_node_index, 0);
            }
        }
        match &self.dashboard_proxy_node_selection_key {
            None => None,
            Some(k) => match Self::find_node(&g.nodes, k.as_str()) {
                Some(i) => Some(g.nodes[i].clone()),
                None => None,
            },
        }
    }
}


impl TuiApp {
    /// Remembers the proxy page's group and node by name.
    pub fn remember_proxy_node_selection(&mut self)
        ensures
            *final(self) == remember_node(*old(self)),
    {
        if self.proxy_group_index >= self.proxy_groups.len() {
            return;
        }
        match self.selected_proxy_node_name() {
            Some(node) => {
                let name = self.proxy_groups[self.proxy_group_index].name.clone();
                self.proxy_group_selection_key = Some(name);
                self.proxy_node_selection_key = Some(node);
            },
            None => {},
        }
    }

    /// Remembers the dashboard's group and node by name.
    pub fn remember_dashboard_proxy_node_selection(&mut self)
        ensures
            *final(self) == remember_dashboard_node(*old(self)),
    {
        if self.dashboard_proxy_group_index >= self.proxy_groups.len() {
            return;
        }
        match self.selected_dashboard_proxy_node_name() {
            Some(node) => {
                let name = self.proxy_groups[self.dashboard_proxy_group_index].name.clone();
                self.dashboard_proxy_group_selection_key = Some(name);
                self.dashboard_proxy_node_selection_key = Some(node);
            },
            None => {},
        }
    }

    /// Moves the proxy page's group cursor to the remembered group.
    pub fn restore_proxy_group_selection_from_key(&mut self)
        ensures
            *final(self) == restore_group(*old(self)),
    {
        let found = match &self.proxy_group_selection_key {
            Some(k) => self.find_proxy_group_index(k.as_str()),
            None => None,
        };
        match found {
            Some(i) => {
                self.proxy_group_index = i;
            },
            None => {},
        }
    }

    /// Moves the dashboard's group cursor to the remembered group.
    pub fn restore_dashboard_proxy_group_selection_from_key(&mut self)
        ensures
            *final(self) == restore_dashboard_group(*old(self)),
    {
        let found = match &self.dashboard_proxy_group_selection_key {
            Some(k) => self.find_proxy_group_index(k.as_str()),
            None => None,
        };
        match found {
            Some(i) => {
                self.dashboard_proxy_group_index = i;
            },
            None => {},
        }
    }

    /// Moves the proxy page's node cursor to the remembered node.
    pub fn restore_proxy_node_selection_from_key(&mut self)
        ensures
            *final(self) == restore_node(*old(self)),
    {
        let found = match &self.proxy_node_selection_key {
            Some(k) => self.find_proxy_node_index(k.as_str()),
            None => None,
        };
        match found {
            Some(i) => {
                self.proxy_node_index = i;
            },
            None => {},
        }
    }

    /// Moves the dashboard's node cursor to the remembered node.
    pub fn restore_dashboard_proxy_node_selection_from_key(&mut self)
        ensures
            *final(self) == restore_dashboard_node(*old(self)),
    {
        let found = match &self.dashboard_proxy_node_selection_key {
            Some(k) => self.find_dashboard_proxy_node_index(k.as_str()),
            None => None,
        };
        match found {
            Some(i) => {
                self.dashboard_proxy_node_index = i;
            },
            None => {},
        }
    }

    /// Restores the node cursor and keeps it on a listed node.
    pub fn clamp_proxy_node_selection(&mut self)
        ensures
            *final(self) == clamp_node(*old(self)),
    {
        self.restore_proxy_node_selection_from_key();
        let indices = self.filtered_proxy_node_indices();
        let mut i = self.proxy_node_index;
        crate::selection::clamp_with_indices(&mut i, &indices);
        self.proxy_node_index = i;
    }

    /// Restores the dashboard's group cursor and keeps it on a group.
    pub fn clamp_dashboard_proxy_group_selection(&mut self)
        ensures
            *final(self) == clamp_dashboard_group(*old(self)),
    {
        self.restore_dashboard_proxy_group_selection_from_key();
        let indices = self.filtered_dashboard_proxy_group_indices();
        let mut i = self.dashboard_proxy_group_index;
        crate::selection::clamp_with_indices(&mut i, &indices);
        self.dashboard_proxy_group_index = i;
    }

    /// Restores the dashboard's node cursor and keeps it on a node.
    pub fn clamp_dashboard_proxy_node_selection(&mut self)
        ensures
            *final(self) == clamp_dashboard_node(*old(self)),
    {
        self.restore_dashboard_proxy_node_selection_from_key();
        let indices = self.filtered_dashboard_proxy_node_indices();
        let mut i = self.dashboard_proxy_node_index;
        crate::selection::clamp_with_indices(&mut i, &indices);
        self.dashboard_proxy_node_index = i;
    }

    /// Selects the current node of the proxy page's group; a filter that
    /// would hide every node is dropped.
    pub fn select_current_node_for_selected_proxy_group(&mut self)
        ensures
            final(self).proxy_query@ == select_query_view(*old(self)),
            *final(self) == select_current_node(*old(self), final(self).proxy_query),
    {
        let ghost s0 = *self;
        let (pos, key) = match self.selected_proxy_group() {
            Some(g) => {
                let i = match Self::find_node_equal(&g.nodes, g.now.as_str()) {
                    Some(i) => i,
                    None => 0,
                };
                let k = if i < g.nodes.len() {
                    Some(g.nodes[i].clone())
                } else {
                    None
                };
                (i, k)
            },
            None => (0, None),
        };
        self.proxy_node_index = pos;
        self.proxy_node_selection_key = key;
        assert(*self == point_at_current_node(s0));
        if !str_blank(self.proxy_query.as_str()) && self.filtered_proxy_node_indices().len() == 0 {
            self.proxy_query = String::new();
        }
        let ghost s1 = *self;
        self.clamp_proxy_node_selection();
        self.remember_proxy_node_selection();
        assert(*self == remember_node(clamp_node(s1)));
    }

    /// Selects the current node of the dashboard's group.
    pub fn select_current_node_for_dashboard_proxy_group(&mut self)
        ensures
            *final(self) == select_current_dashboard_node(*old(self)),
    {
        let (pos, key) = match self.dashboard_proxy_group() {
            Some(g) => {
                let i = match Self::find_node_equal(&g.nodes, g.now.as_str()) {
                    Some(i) => i,
                    None => 0,
                };
                let k = if i < g.nodes.len() {
                    Some(g.nodes[i].clone())
                } else {
                    None
                };
                (i, k)
            },
            None => (0, None),
        };
        self.dashboard_proxy_node_index = pos;
        self.dashboard_proxy_node_selection_key = key;
        self.clamp_dashboard_proxy_node_selection();
        self.remember_dashboard_proxy_node_selection();
    }

    /// Focuses the node list on the current node of the proxy page's group.
    pub fn focus_proxy_nodes_on_current(&mut self)
        ensures
            final(self).proxy_query@ == focus_query_view(*old(self)),
            *final(self) == focus_nodes_on_current(*old(self), final(self).proxy_query),
    {
        self.proxy_pane = ProxyPane::Nodes;
        self.select_current_node_for_selected_proxy_group();
        self.remember_proxy_group_selection();
        self.remember_proxy_node_selection();
    }

    /// Focuses the dashboard's node list on its group's current node.
    pub fn focus_dashboard_proxy_nodes_on_current(&mut self)
        ensures
            *final(self) == focus_dashboard_nodes_on_current(*old(self)),
    {
        self.select_current_node_for_dashboard_proxy_group();
        self.remember_dashboard_proxy_group_selection();
        self.remember_dashboard_proxy_node_selection();
    }
}

} // verus!
