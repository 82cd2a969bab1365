//! Taking in fresh proxy groups, profiles and providers while keeping the
//! cursors on what the user had chosen.
use vstd::prelude::*;
use vstd::view::View as _;
use crate::strs::{trim, str_trim, from_chars, str_eq};
use crate::models::{ProxyGroupRow, ProxyPane};
use crate::layout::selection_key_match;
use crate::state::{TuiApp, ProfileCatalog};
use crate::proxy_select::{
    clamp_dashboard_group, clamp_dashboard_node, clamp_node, clamped, dashboard_group, group_indices,
    group_named, node_at, node_named, remember_dashboard_group, remember_dashboard_node, remember_group,
    remember_node, restore_group, selected_group,
};

verus! {

/// The group whose name matches `name`, if a name is given.
pub open spec fn find_group_opt(s: TuiApp, name: Option<Seq<char>>) -> Option<int> {
    match name {
        Some(n) => group_named(s.proxy_groups@, n),
        None => None,
    }
}

/// The node of group `g` whose name matches `name`, if both are given.
pub open spec fn find_node_opt(g: Option<ProxyGroupRow>, name: Option<Seq<char>>) -> Option<int> {
    match g {
        Some(g) => match name {
            Some(n) => node_named(g.nodes@, n),
            None => None,
        },
        None => None,
    }
}

pub open spec fn or_else(a: Option<int>, b: Option<int>) -> Option<int> {
    match a {
        Some(x) => Some(x),
        None => b,
    }
}

/// The group to select after a refresh: the remembered one when the user
/// chose it by hand, else the one under the cursor, else the remembered one.
pub open spec fn preferred_group(s: TuiApp, current: Option<Seq<char>>, remembered: Option<Seq<char>>) -> Option<
    int,
> {
    if s.proxy_user_selected && find_group_opt(s, remembered) is Some {
        find_group_opt(s, remembered)
    } else {
        or_else(find_group_opt(s, current), find_group_opt(s, remembered))
    }
}

/// The node to select after a refresh, by the same rule.
pub open spec fn preferred_node(s: TuiApp, current: Option<Seq<char>>, remembered: Option<Seq<char>>) -> Option<
    int,
> {
    let g = selected_group(s);
    if s.proxy_user_selected && find_node_opt(g, remembered) is Some {
        find_node_opt(g, remembered)
    } else {
        or_else(find_node_opt(g, current), find_node_opt(g, remembered))
    }
}

pub open spec fn name_of(g: Option<ProxyGroupRow>) -> Option<Seq<char>> {
    match g {
        Some(g) => Some(g.name@),
        None => None,
    }
}

pub open spec fn key_view(k: Option<String>) -> Option<Seq<char>> {
    match k {
        Some(s) => Some(s@),
        None => None,
    }
}

pub open spec fn node_name_view(g: Option<ProxyGroupRow>, i: usize) -> Option<Seq<char>> {
    match node_at(g, i) {
        Some(n) => Some(n@),
        None => None,
    }
}

/// The group cursor at `p`, when there is one.
pub open spec fn with_group_index(s: TuiApp, p: Option<int>) -> TuiApp {
    match p {
        Some(i) => TuiApp { proxy_group_index: i as usize, ..s },
        None => s,
    }
}

pub open spec fn with_node_index(s: TuiApp, p: Option<int>) -> TuiApp {
    match p {
        Some(i) => TuiApp { proxy_node_index: i as usize, ..s },
        None => s,
    }
}

pub open spec fn with_dashboard_group_index(s: TuiApp, p: Option<int>) -> TuiApp {
    match p {
        Some(i) => TuiApp { dashboard_proxy_group_index: i as usize, ..s },
        None => s,
    }
}

pub open spec fn with_dashboard_node_index(s: TuiApp, p: Option<int>) -> TuiApp {
    match p {
        Some(i) => TuiApp { dashboard_proxy_node_index: i as usize, ..s },
        None => s,
    }
}

pub open spec fn sv(o: Option<&str>) -> Option<Seq<char>> {
    match o {
        Some(t) => Some(t@),
        None => None,
    }
}

/// The proxy page's cursors once new groups are in `s1`, given the names
/// under the cursors before (`cg`, `cn`) and the remembered names.
pub open spec fn applied_page_with(
    s1: TuiApp,
    cg: Option<Seq<char>>,
    rg: Option<Seq<char>>,
    cn: Option<Seq<char>>,
    rn: Option<Seq<char>>,
) -> TuiApp {
    let s2 = with_group_index(s1, preferred_group(s1, cg, rg));
    let s3 = remember_group(TuiApp { proxy_group_index: clamped(s2.proxy_group_index, group_indices(s2)), ..s2 });
    remember_node(clamp_node(with_node_index(s3, preferred_node(s3, cn, rn))))
}

/// The dashboard's cursors once new groups are in `s`, likewise; the
/// names under the cursors win over the remembered ones.
pub open spec fn applied_dashboard_with(
    s: TuiApp,
    cdg: Option<Seq<char>>,
    rdg: Option<Seq<char>>,
    cdn: Option<Seq<char>>,
    rdn: Option<Seq<char>>,
) -> TuiApp {
    let s8 = with_dashboard_group_index(s, or_else(find_group_opt(s, cdg), find_group_opt(s, rdg)));
    let s10 = remember_dashboard_group(clamp_dashboard_group(s8));
    let g = dashboard_group(s10);
    let s11 = with_dashboard_node_index(s10, or_else(find_node_opt(g, cdn), find_node_opt(g, rdn)));
    remember_dashboard_node(clamp_dashboard_node(s11))
}

/// The state after new proxy groups arrive.
pub open spec fn applied_groups(s: TuiApp, groups: Vec<ProxyGroupRow>) -> TuiApp {
    let page = applied_page_with(
        TuiApp { proxy_groups: groups, ..s },
        name_of(selected_group(s)),
        key_view(s.proxy_group_selection_key),
        node_name_view(selected_group(s), s.proxy_node_index),
        key_view(s.proxy_node_selection_key),
    );
    applied_dashboard_with(
        page,
        name_of(dashboard_group(s)),
        key_view(s.dashboard_proxy_group_selection_key),
        node_name_view(dashboard_group(s), s.dashboard_proxy_node_index),
        key_view(s.dashboard_proxy_node_selection_key),
    )
}

fn clone_key(o: &Option<String>) -> (r: Option<String>)
    ensures
        r == *o,
{
    match o {
        Some(t) => Some(t.clone()),
        None => None,
    }
}

fn as_opt_str(o: &Option<String>) -> (r: Option<&str>)
    ensures
        sv(r) == key_view(*o),
{
    match o {
        Some(t) => Some(t.as_str()),
        None => None,
    }
}

impl TuiApp {
    /// The group to select after a refresh (see `preferred_group`).
    pub fn preferred_proxy_group_index(&self, current: Option<&str>, remembered: Option<&str>) -> (r: Option<
        usize,
    >)
        ensures
            ({
                let c = match current {
                    Some(t) => Some(t@),
                    None => None,
                };
                let m = match remembered {
                    Some(t) => Some(t@),
                    None => None,
                };
                match r {
                    Some(i) => preferred_group(*self, c, m) == Some(i as int),
                    None => preferred_group(*self, c, m) is None,
                }
            }),
    {
        if self.proxy_user_selected {
            match remembered {
                Some(n) => match self.find_proxy_group_index(n) {
                    Some(i) => {
                        return Some(i);
                    },
                    None => {},
                },
                None => {},
            }
        }
        let by_current = match current {
            Some(n) => self.find_proxy_group_index(n),
            None => None,
        };
        match by_current {
            Some(i) => Some(i),
            None => match remembered {
                Some(n) => self.find_proxy_group_index(n),
                None => None,
            },
        }
    }

    /// The node to select after a refresh (see `preferred_node`).
    pub fn preferred_proxy_node_index(&self, current: Option<&str>, remembered: Option<&str>) -> (r: Option<
        usize,
    >)
        ensures
            ({
                let c = match current {
                    Some(t) => Some(t@),
                    None => None,
                };
                let m = match remembered {
                    Some(t) => Some(t@),
                    None => None,
                };
                match r {
                    Some(i) => preferred_node(*self, c, m) == Some(i as int),
                    None => preferred_node(*self, c, m) is None,
                }
            }),
    {
        if self.proxy_user_selected {
            match remembered {
                Some(n) => match self.find_proxy_node_index(n) {
                    Some(i) => {
                        return Some(i);
                    },
                    None => {},
                },
                None => {},
            }
        }
        let by_current = match current {
            Some(n) => self.find_proxy_node_index(n),
            None => None,
        };
        match by_current {
            Some(i) => Some(i),
            None => match remembered {
                Some(n) => self.find_proxy_node_index(n),
                None => None,
            },
        }
    }

    /// Takes in fresh proxy groups. Each cursor stays on the group and node
    /// it was on, found by name (the remembered name first when the user
    /// chose it by hand), and is kept on a listed row.
    pub fn apply_proxy_groups(&mut self, groups: Vec<ProxyGroupRow>)
        ensures
            *final(self) == applied_groups(*old(self), groups),
    {
        let current_group = match self.selected_proxy_group() {
            Some(g) => Some(g.name.clone()),
            None => None,
        };
        let remembered_group = clone_key(&self.proxy_group_selection_key);
        let current_node = match self.selected_proxy_group() {
            Some(g) => if self.proxy_node_index < g.nodes.len() {
                Some(g.nodes[self.proxy_node_index].clone())
            } else {
                None
            },
            None => None,
        };
        let remembered_node = clone_key(&self.proxy_node_selection_key);
        let current_dash_group = match self.dashboard_proxy_group() {
            Some(g) => Some(g.name.clone()),
            None => None,
        };
        let remembered_dash_group = clone_key(&self.dashboard_proxy_group_selection_key);
        let current_dash_node = match self.dashboard_proxy_group() {
            Some(g) => if self.dashboard_proxy_node_index < g.nodes.len() {
                Some(g.nodes[self.dashboard_proxy_node_index].clone())
            } else {
                None
            },
            None => None,
        };
        let remembered_dash_node = clone_key(&self.dashboard_proxy_node_selection_key);
        self.proxy_groups = groups;
        self.apply_page_cursors(
            as_opt_str(&current_group),
            as_opt_str(&remembered_group),
            as_opt_str(&current_node),
            as_opt_str(&remembered_node),
        );
        self.apply_dashboard_cursors(
            as_opt_str(&current_dash_group),
            as_opt_str(&remembered_dash_group),
            as_opt_str(&current_dash_node),
            as_opt_str(&remembered_dash_node),
        );
    }

    fn apply_page_cursors(&mut self, cg: Option<&str>, rg: Option<&str>, cn: Option<&str>, rn: Option<&str>)
        ensures
            *final(self) == applied_page_with(*old(self), sv(cg), sv(rg), sv(cn), sv(rn)),
    {
        self.pick_group(cg, rg);
        self.clamp_group_cursor();
        self.remember_proxy_group_selection();
        self.pick_node(cn, rn);
        self.clamp_proxy_node_selection();
        self.remember_proxy_node_selection();
    }

    fn pick_group(&mut self, cg: Option<&str>, rg: Option<&str>)
        ensures
            *final(self) == with_group_index(*old(self), preferred_group(*old(self), sv(cg), sv(rg))),
    {
        match self.preferred_proxy_group_index(cg, rg) {
            Some(i) => {
                self.proxy_group_index = i;
            },
            None => {},
        }
    }

    fn pick_node(&mut self, cn: Option<&str>, rn: Option<&str>)
        ensures
            *final(self) == with_node_index(*old(self), preferred_node(*old(self), sv(cn), sv(rn))),
    {
        match self.preferred_proxy_node_index(cn, rn) {
            Some(i) => {
                self.proxy_node_index = i;
            },
            None => {},
        }
    }

    fn clamp_group_cursor(&mut self)
        ensures
            *final(self) == (TuiApp {
                proxy_group_index: clamped(old(self).proxy_group_index, group_indices(*old(self))),
                ..*old(self)
            }),
    {
        let ix = self.filtered_proxy_group_indices();
        let mut i = self.proxy_group_index;
        crate::selection::clamp_with_indices(&mut i, &ix);
        self.proxy_group_index = i;
    }

    fn pick_dashboard_group(&mut self, cdg: Option<&str>, rdg: Option<&str>)
        ensures
            *final(self) == with_dashboard_group_index(
                *old(self),
                or_else(find_group_opt(*old(self), sv(cdg)), find_group_opt(*old(self), sv(rdg))),
            ),
    {
        let by_current = match cdg {
            Some(n) => self.find_proxy_group_index(n),
            None => None,
        };
        let found = match by_current {
            Some(i) => Some(i),
            None => match rdg {
                Some(n) => self.find_proxy_group_index(n),
                None => None,
            },
        };
        match found {
            Some(i) => {
                self.dashboard_proxy_group_index = i;
            },
            None => {},
        }
    }

    fn pick_dashboard_node(&mut self, cdn: Option<&str>, rdn: Option<&str>)
        ensures
            ({
                let g = dashboard_group(*old(self));
                *final(self) == with_dashboard_node_index(
                    *old(self),
                    or_else(find_node_opt(g, sv(cdn)), find_node_opt(g, sv(rdn))),
                )
            }),
    {
        let by_current = match cdn {
            Some(n) => self.find_dashboard_proxy_node_index(n),
            None => None,
        };
        let found = match by_current {
            Some(i) => Some(i),
            None => match rdn {
                Some(n) => self.find_dashboard_proxy_node_index(n),
                None => None,
            },
        };
        match found {
            Some(i) => {
                self.dashboard_proxy_node_index = i;
            },
            None => {},
        }
    }

    fn apply_dashboard_cursors(&mut self, cdg: Option<&str>, rdg: Option<&str>, cdn: Option<&str>, rdn: Option<&str>)
        ensures
            *final(self) == applied_dashboard_with(*old(self), sv(cdg), sv(rdg), sv(cdn), sv(rdn)),
    {
        self.pick_dashboard_group(cdg, rdg);
        self.clamp_dashboard_proxy_group_selection();
        self.remember_dashboard_proxy_group_selection();
        self.pick_dashboard_node(cdn, rdn);
        self.clamp_dashboard_proxy_node_selection();
        self.remember_dashboard_proxy_node_selection();
    }
}


/// The groups after setting the current node of the group named `group`
/// to `proxy`: only that group's `now` changes.
pub open spec fn now_updated(old: Seq<ProxyGroupRow>, group: Seq<char>, proxy: Seq<char>, new: Seq<ProxyGroupRow>) -> bool {
    match group_named(old, group) {
        Some(i) => {
            &&& new.len() == old.len()
            &&& new[i].now@ == proxy
            &&& new[i] == (ProxyGroupRow { now: new[i].now, ..old[i] })
            &&& forall|j: int| 0 <= j < old.len() && j != i ==> new[j] == old[j]
        },
        None => new == old,
    }
}

/// The cursors after a group's current node changed to `proxy`; `s1`
/// holds the updated groups.
pub open spec fn now_set(s1: TuiApp, group: Seq<char>, proxy: Seq<char>) -> TuiApp {
    let s2 = match selected_group(s1) {
        Some(g) => if selection_key_match(g.name@, group) {
            remember_node(remember_group(with_node_index(s1, crate::proxy_select::node_equal(g.nodes@, proxy))))
        } else {
            s1
        },
        None => s1,
    };
    let s3 = match dashboard_group(s2) {
        Some(g) => if selection_key_match(g.name@, group) {
            remember_dashboard_node(
                remember_dashboard_group(
                    with_dashboard_node_index(s2, crate::proxy_select::node_equal(g.nodes@, proxy)),
                ),
            )
        } else {
            s2
        },
        None => s2,
    };
    clamp_dashboard_node(clamp_node(s3))
}

impl TuiApp {
    /// Records that `proxy` is now the current node of the group named
    /// `group_name`, and moves the cursors that are on that group to it.
    pub fn set_selected_proxy_group_now(&mut self, group_name: &str, proxy: &str)
        ensures
            now_updated(old(self).proxy_groups@, group_name@, proxy@, final(self).proxy_groups@),
            *final(self) == now_set(
                TuiApp { proxy_groups: final(self).proxy_groups, ..*old(self) },
                group_name@,
                proxy@,
            ),
    {
        self.update_group_now(group_name, proxy);
        self.move_cursors_to_now(group_name, proxy);
    }

    fn update_group_now(&mut self, group_name: &str, proxy: &str)
        ensures
            now_updated(old(self).proxy_groups@, group_name@, proxy@, final(self).proxy_groups@),
            *final(self) == (TuiApp { proxy_groups: final(self).proxy_groups, ..*old(self) }),
    {
        match self.find_proxy_group_index(group_name) {
            Some(i) => {
                let ghost g0 = self.proxy_groups@;
                let mut row = self.proxy_groups.remove(i);
                row.now = crate::strs::owned(proxy);
                self.proxy_groups.insert(i, row);
                proof {
                    assert forall|j: int| 0 <= j < g0.len() && j != i implies self.proxy_groups@[j] == g0[j] by {
                        if j < i {
                        } else {
                        }
                    }
                }
            },
            None => {},
        }
    }

    #[verifier::rlimit(40)]
    #[verifier::spinoff_prover]
    fn move_cursors_to_now(&mut self, group_name: &str, proxy: &str)
        ensures
            *final(self) == now_set(*old(self), group_name@, proxy@),
    {
        let page = match self.selected_proxy_group() {
            Some(g) => if crate::layout::proxy_selection_key_matches(g.name.as_str(), group_name) {
                Some(Self::find_node_equal_index(&g.nodes, proxy))
            } else {
                None
            },
            None => None,
        };
        match page {
            Some(found) => {
                match found {
                    Some(i) => {
                        self.proxy_node_index = i;
                    },
                    None => {},
                }
                self.remember_proxy_group_selection();
                self.remember_proxy_node_selection();
            },
            None => {},
        }
        let dash = match self.dashboard_proxy_group() {
            Some(g) => if crate::layout::proxy_selection_key_matches(g.name.as_str(), group_name) {
                Some(Self::find_node_equal_index(&g.nodes, proxy))
            } else {
                None
            },
            None => None,
        };
        match dash {
            Some(found) => {
                match found {
                    Some(i) => {
                        self.dashboard_proxy_node_index = i;
                    },
                    None => {},
                }
                self.remember_dashboard_proxy_group_selection();
                self.remember_dashboard_proxy_node_selection();
            },
            None => {},
        }
        self.clamp_proxy_node_selection();
        self.clamp_dashboard_proxy_node_selection();
    }

    fn find_node_equal_index(nodes: &Vec<String>, name: &str) -> (r: Option<usize>)
        ensures
            r matches Some(i) ==> crate::proxy_select::node_equal(nodes@, name@) == Some(i as int),
            r is None ==> crate::proxy_select::node_equal(nodes@, name@) is None,
    {
        let ghost p = |i: int| nodes@[i]@ == name@;
        let mut j: usize = 0;
        while j < nodes.len()
            invariant
                j <= nodes.len(),
                p == (|i: int| nodes@[i]@ == name@),
                crate::proxy_select::first_where(nodes@.len() as int, p) == crate::proxy_select::first_from(
                    nodes@.len() as int,
                    p,
                    j as int,
                ),
            decreases nodes.len() - j,
        {
            if str_eq(nodes[j].as_str(), name) {
                return Some(j);
            }
            j += 1;
        }
        None
    }

    /// Forgets everything that belongs to the profile in use: proxy groups,
    /// node data, providers, rules, connections, the diagnosis, and every
    /// proxy cursor and popup.
    pub fn clear_profile_bound_runtime_state(&mut self)
        ensures
            final(self).proxy_groups@.len() == 0,
            final(self).proxy_node_meta@.len() == 0,
            final(self).proxy_providers@.len() == 0,
            final(self).rule_providers@.len() == 0,
            final(self).provider_operation_feedback@.len() == 0,
            final(self).rules@.len() == 0,
            final(self).connections@.len() == 0,
            *final(self) == cleared_runtime(*old(self), *final(self)),
    {
        self.proxy_groups.clear();
        self.proxy_group_index = 0;
        self.proxy_node_index = 0;
        self.proxy_node_meta.clear();
        self.proxy_providers.clear();
        self.proxy_provider_index = 0;
        self.rule_providers.clear();
        self.rule_provider_index = 0;
        self.provider_dialog = None;
        self.provider_operation_feedback.clear();
        self.proxy_group_selection_key = None;
        self.proxy_node_selection_key = None;
        self.proxy_provider_selection_key = None;
        self.rule_provider_selection_key = None;
        self.proxy_user_selected = false;
        self.proxy_pane = ProxyPane::Groups;
        self.dashboard_proxy_popup = crate::models::DashboardProxyPopup::Closed;
        self.dashboard_proxy_group_index = 0;
        self.dashboard_proxy_node_index = 0;
        self.dashboard_proxy_group_selection_key = None;
        self.dashboard_proxy_node_selection_key = None;
        self.dashboard_proxy_user_selected = false;
        self.rules.clear();
        self.rule_index = 0;
        self.connections.clear();
        self.connection_index = 0;
        self.diagnose_report = None;
    }
}

/// `s` with the profile-bound state reset; the emptied lists are taken
/// from `f`.
pub open spec fn cleared_runtime(s: TuiApp, f: TuiApp) -> TuiApp {
    TuiApp {
        proxy_groups: f.proxy_groups,
        proxy_group_index: 0,
        proxy_node_index: 0,
        proxy_node_meta: f.proxy_node_meta,
        proxy_providers: f.proxy_providers,
        proxy_provider_index: 0,
        rule_providers: f.rule_providers,
        rule_provider_index: 0,
        provider_dialog: None,
        provider_operation_feedback: f.provider_operation_feedback,
        proxy_group_selection_key: None,
        proxy_node_selection_key: None,
        proxy_provider_selection_key: None,
        rule_provider_selection_key: None,
        proxy_user_selected: false,
        proxy_pane: ProxyPane::Groups,
        dashboard_proxy_popup: crate::models::DashboardProxyPopup::Closed,
        dashboard_proxy_group_index: 0,
        dashboard_proxy_node_index: 0,
        dashboard_proxy_group_selection_key: None,
        dashboard_proxy_node_selection_key: None,
        dashboard_proxy_user_selected: false,
        rules: f.rules,
        rule_index: 0,
        connections: f.connections,
        connection_index: 0,
        diagnose_report: None,
        ..s
    }
}


/// The proxy group stored with the profile in use: the last stored choice
/// whose name is not blank, trimmed.
pub open spec fn profile_group_choice(s: TuiApp) -> Option<Seq<char>> {
    match s.profiles_current {
        None => None,
        Some(cur) => match crate::proxy_select::first_where(
            s.profiles@.len() as int,
            |i: int| key_view(s.profiles@[i].uid) == Some(cur@),
        ) {
            None => None,
            Some(pi) => match s.profiles@[pi].selected {
                None => None,
                Some(sel) => {
                    let n = sel@.len() as int;
                    match crate::proxy_select::first_where(
                        n,
                        |j: int| sel@[n - 1 - j].name matches Some(t) && trim(t@).len() != 0,
                    ) {
                        Some(j) => Some(trim(sel@[n - 1 - j].name->0@)),
                        None => None,
                    }
                },
            },
        },
    }
}

/// The cursors after restoring the profile's stored group; `gk` and `dk`
/// are the keys afterwards.
pub open spec fn profile_restored(s: TuiApp, gk: Option<String>, dk: Option<String>) -> TuiApp {
    let s1 = if !s.proxy_user_selected {
        restore_group(TuiApp { proxy_group_selection_key: gk, ..s })
    } else {
        s
    };
    if !s.dashboard_proxy_user_selected {
        crate::proxy_select::restore_dashboard_group(TuiApp { dashboard_proxy_group_selection_key: dk, ..s1 })
    } else {
        s1
    }
}

/// What restoring the profile's stored group does.
pub open spec fn profile_restore_holds(old: TuiApp, f: TuiApp) -> bool {
    match profile_group_choice(old) {
        None => f == old,
        Some(name) => {
            &&& !old.proxy_user_selected ==> key_view(f.proxy_group_selection_key) == Some(name)
            &&& !old.dashboard_proxy_user_selected ==> key_view(f.dashboard_proxy_group_selection_key) == Some(
                name,
            )
            &&& f == profile_restored(old, f.proxy_group_selection_key, f.dashboard_proxy_group_selection_key)
        },
    }
}

impl TuiApp {
    /// The proxy group stored with the profile in use.
    pub fn profile_proxy_group_selection(&self) -> (r: Option<String>)
        ensures
            key_view(r) == profile_group_choice(*self),
    {
        let cur = match &self.profiles_current {
            Some(c) => c,
            None => {
                return None;
            },
        };
        let ghost pp = |i: int| key_view(self.profiles@[i].uid) == Some(cur@);
        let mut i: usize = 0;
        while i < self.profiles.len()
            invariant
                i <= self.profiles.len(),
                self.profiles_current == Some(*cur),
                pp == (|i: int| key_view(self.profiles@[i].uid) == Some(cur@)),
                crate::proxy_select::first_where(self.profiles@.len() as int, pp) == crate::proxy_select::first_from(
                    self.profiles@.len() as int,
                    pp,
                    i as int,
                ),
            decreases self.profiles.len() - i,
        {
            let same = match &self.profiles[i].uid {
                Some(u) => str_eq(u.as_str(), cur.as_str()),
                None => false,
            };
            if same {
                return match &self.profiles[i].selected {
                    None => None,
                    Some(sel) => Self::last_named(sel),
                };
            }
            i += 1;
        }
        None
    }

    fn last_named(sel: &Vec<crate::state::ProfileSelection>) -> (r: Option<String>)
        ensures
            ({
                let n = sel@.len() as int;
                key_view(r) == match crate::proxy_select::first_where(
                    n,
                    |j: int| sel@[n - 1 - j].name matches Some(t) && trim(t@).len() != 0,
                ) {
                    Some(j) => Some(trim(sel@[n - 1 - j].name->0@)),
                    None => None,
                }
            }),
    {
        let ghost n = sel@.len() as int;
        let ghost p = |j: int| sel@[n - 1 - j].name matches Some(t) && trim(t@).len() != 0;
        let mut j: usize = 0;
        while j < sel.len()
            invariant
                j <= sel.len(),
                n == sel@.len(),
                p == (|j: int| sel@[n - 1 - j].name matches Some(t) && trim(t@).len() != 0),
                crate::proxy_select::first_where(n, p) == crate::proxy_select::first_from(n, p, j as int),
            decreases sel.len() - j,
        {
            match &sel[sel.len() - 1 - j].name {
                Some(t) => {
                    let tr = str_trim(t.as_str());
                    if tr.len() != 0 {
                        return Some(from_chars(&tr));
                    }
                },
                None => {},
            }
            j += 1;
        }
        None
    }

    /// Points the cursors at the group stored with the profile in use,
    /// unless the user chose by hand.
    pub fn restore_profile_proxy_group_selection(&mut self)
        ensures
            profile_restore_holds(*old(self), *final(self)),
    {
        let group = match self.profile_proxy_group_selection() {
            Some(g) => g,
            None => {
                return;
            },
        };
        let ghost s0 = *self;
        if !self.proxy_user_selected {
            self.proxy_group_selection_key = Some(group.clone());
            self.restore_proxy_group_selection_from_key();
        }
        let ghost s1 = *self;
        if !self.dashboard_proxy_user_selected {
            self.dashboard_proxy_group_selection_key = Some(group);
            self.restore_dashboard_proxy_group_selection_from_key();
        }
        proof {
            assert(s1 == (if !s0.proxy_user_selected {
                restore_group(TuiApp { proxy_group_selection_key: self.proxy_group_selection_key, ..s0 })
            } else {
                s0
            }));
        }
    }
}


/// The state after the profile list `catalog` arrives; `f` is the state
/// afterwards, from which the new lists are taken. A change of the profile
/// in use resets the profile-bound state when `reset` is set.
pub open spec fn profiles_applied(old: TuiApp, catalog: ProfileCatalog, reset: bool, f: TuiApp) -> bool {
    let changed = reset && key_view(old.profiles_current) != key_view(catalog.current);
    let s1 = TuiApp { profiles_current: catalog.current, profiles: f.profiles, ..old };
    let s2 = if changed {
        cleared_runtime(s1, f)
    } else {
        s1
    };
    let mid = match profile_group_choice(s2) {
        None => s2,
        Some(_) => profile_restored(s2, f.proxy_group_selection_key, f.dashboard_proxy_group_selection_key),
    };
    &&& match catalog.items {
        Some(v) => f.profiles == v,
        None => f.profiles@.len() == 0,
    }
    &&& changed ==> {
        &&& f.proxy_groups@.len() == 0
        &&& f.proxy_node_meta@.len() == 0
        &&& f.proxy_providers@.len() == 0
        &&& f.rule_providers@.len() == 0
        &&& f.provider_operation_feedback@.len() == 0
        &&& f.rules@.len() == 0
        &&& f.connections@.len() == 0
    }
    &&& profile_group_choice(s2) matches Some(name) ==> {
        &&& !s2.proxy_user_selected ==> key_view(f.proxy_group_selection_key) == Some(name)
        &&& !s2.dashboard_proxy_user_selected ==> key_view(f.dashboard_proxy_group_selection_key) == Some(name)
    }
    &&& f == crate::navigation::clamped_all(mid)
}

fn same_key(a: &Option<String>, b: &Option<String>) -> (r: bool)
    ensures
        r == (key_view(*a) == key_view(*b)),
{
    match (a, b) {
        (Some(x), Some(y)) => str_eq(x.as_str(), y.as_str()),
        (None, None) => true,
        _ => false,
    }
}

impl TuiApp {
    /// Takes in the profile list; when the profile in use changed, the
    /// state that belongs to the old profile is dropped. The cursors then
    /// follow the new profile's stored group and stay on listed rows.
    pub fn apply_profiles(&mut self, catalog: ProfileCatalog)
        ensures
            profiles_applied(*old(self), catalog, true, *final(self)),
    {
        self.take_profiles(catalog, true);
    }

    /// Takes in the profile list without dropping any profile-bound state.
    pub fn apply_profiles_without_runtime_reset(&mut self, catalog: ProfileCatalog)
        ensures
            profiles_applied(*old(self), catalog, false, *final(self)),
    {
        self.take_profiles(catalog, false);
    }

    fn take_profiles(&mut self, catalog: ProfileCatalog, reset: bool)
        ensures
            profiles_applied(*old(self), catalog, reset, *final(self)),
    {
        let ghost c = catalog;
        let changed = reset && !same_key(&self.profiles_current, &catalog.current);
        self.profiles_current = catalog.current;
        self.profiles = match catalog.items {
            Some(v) => v,
            None => Vec::new(),
        };
        if changed {
            self.clear_profile_bound_runtime_state();
        }
        let ghost s2 = *self;
        self.restore_profile_proxy_group_selection();
        let ghost mid = *self;
        self.clamp_selections();
        proof {
            assert(mid == match profile_group_choice(s2) {
                None => s2,
                Some(_) => profile_restored(s2, mid.proxy_group_selection_key, mid.dashboard_proxy_group_selection_key),
            });
        }
    }
}


/// The fields the proxy page's lists are computed from.
pub open spec fn page_fields_same(a: TuiApp, b: TuiApp) -> bool {
    &&& a.proxy_groups == b.proxy_groups
    &&& a.proxy_pane == b.proxy_pane
    &&& a.proxy_query == b.proxy_query
    &&& a.proxy_node_meta == b.proxy_node_meta
    &&& a.proxy_node_sort == b.proxy_node_sort
    &&& a.proxy_group_index == b.proxy_group_index
}

proof fn lemma_page_lists_same(a: TuiApp, b: TuiApp)
    requires
        page_fields_same(a, b),
    ensures
        group_indices(a) == group_indices(b),
        crate::proxy_select::node_indices(a) == crate::proxy_select::node_indices(b),
        selected_group(a) == selected_group(b),
{
    assert(group_indices(a) =~= group_indices(b));
}

proof fn lemma_group_list_same(a: TuiApp, b: TuiApp)
    requires
        a.proxy_groups == b.proxy_groups,
        a.proxy_pane == b.proxy_pane,
        a.proxy_query == b.proxy_query,
    ensures
        group_indices(a) == group_indices(b),
{
    assert(group_indices(a) =~= group_indices(b));
}

proof fn lemma_node_steps_keep_group(s3: TuiApp, cn: Option<Seq<char>>, rn: Option<Seq<char>>)
    ensures
        page_fields_same(remember_node(clamp_node(with_node_index(s3, preferred_node(s3, cn, rn)))), s3),
{
}

proof fn lemma_dashboard_steps_keep_page(s: TuiApp, cdg: Option<Seq<char>>, rdg: Option<Seq<char>>, cdn: Option<Seq<char>>, rdn: Option<Seq<char>>)
    ensures
        page_fields_same(applied_dashboard_with(s, cdg, rdg, cdn, rdn), s),
        applied_dashboard_with(s, cdg, rdg, cdn, rdn).proxy_node_index == s.proxy_node_index,
{
}

proof fn lemma_clamped_member(sel: usize, ix: Seq<usize>)
    ensures
        ix.len() > 0 ==> ix.contains(clamped(sel, ix)),
{
    if ix.len() > 0 && ix.contains(sel) {
    } else if ix.len() > 0 {
        assert(ix[0] == clamped(sel, ix));
    }
}

/// After new proxy groups arrive, the proxy page's group cursor is on a
/// listed group and its node cursor on a listed node, whenever anything
/// is listed.
pub proof fn law_refresh_keeps_cursors_listed(s: TuiApp, groups: Vec<ProxyGroupRow>)
    ensures
        group_indices(applied_groups(s, groups)).len() > 0 ==> group_indices(applied_groups(s, groups)).contains(
            applied_groups(s, groups).proxy_group_index,
        ),
        crate::proxy_select::node_indices(applied_groups(s, groups)).len() > 0
            ==> crate::proxy_select::node_indices(applied_groups(s, groups)).contains(
            applied_groups(s, groups).proxy_node_index,
        ),
{
    let s1 = TuiApp { proxy_groups: groups, ..s };
    let cg = name_of(selected_group(s));
    let rg = key_view(s.proxy_group_selection_key);
    let cn = node_name_view(selected_group(s), s.proxy_node_index);
    let rn = key_view(s.proxy_node_selection_key);
    let s2 = with_group_index(s1, preferred_group(s1, cg, rg));
    let s3a = TuiApp { proxy_group_index: clamped(s2.proxy_group_index, group_indices(s2)), ..s2 };
    lemma_group_list_same(s3a, s2);
    lemma_clamped_member(s2.proxy_group_index, group_indices(s2));
    let s3 = remember_group(s3a);
    lemma_page_lists_same(s3, s3a);
    let s4 = with_node_index(s3, preferred_node(s3, cn, rn));
    lemma_page_lists_same(s4, s3);
    let s5r = crate::proxy_select::restore_node(s4);
    lemma_page_lists_same(s5r, s4);
    let s5 = clamp_node(s4);
    assert(s5 == TuiApp {
        proxy_node_index: clamped(s5r.proxy_node_index, crate::proxy_select::node_indices(s5r)),
        ..s5r
    });
    lemma_page_lists_same(s5, s5r);
    lemma_clamped_member(s5r.proxy_node_index, crate::proxy_select::node_indices(s5r));
    let page = remember_node(s5);
    lemma_page_lists_same(page, s5);
    assert(page.proxy_node_index == s5.proxy_node_index);
    let f = applied_groups(s, groups);
    lemma_dashboard_steps_keep_page(
        page,
        name_of(dashboard_group(s)),
        key_view(s.dashboard_proxy_group_selection_key),
        node_name_view(dashboard_group(s), s.dashboard_proxy_node_index),
        key_view(s.dashboard_proxy_node_selection_key),
    );
    lemma_page_lists_same(f, page);
}

/// A refresh keeps a group the user chose by hand: when the remembered
/// group is among the new groups and listed, the cursor lands on it.
pub proof fn law_sticky_choice_survives_refresh(s: TuiApp, groups: Vec<ProxyGroupRow>, i: int)
    requires
        s.proxy_user_selected,
        s.proxy_group_selection_key is Some,
        0 <= i < groups@.len(),
        group_named(groups@, s.proxy_group_selection_key->0@) == Some(i),
        group_indices(TuiApp { proxy_groups: groups, ..s }).contains(i as usize),
    ensures
        applied_groups(s, groups).proxy_group_index == i as usize,
{
    crate::proxy_select::lemma_first_from_found(
        groups@.len() as int,
        |j: int| selection_key_match(groups@[j].name@, s.proxy_group_selection_key->0@),
        0,
    );
    let s1 = TuiApp { proxy_groups: groups, ..s };
    let rg = key_view(s.proxy_group_selection_key);
    let cn = node_name_view(selected_group(s), s.proxy_node_index);
    let rn = key_view(s.proxy_node_selection_key);
    assert(find_group_opt(s1, rg) == Some(i));
    let s2 = with_group_index(s1, preferred_group(s1, name_of(selected_group(s)), rg));
    assert(s2.proxy_group_index == i as usize);
    lemma_group_list_same(s2, s1);
    let s3a = TuiApp { proxy_group_index: clamped(s2.proxy_group_index, group_indices(s2)), ..s2 };
    assert(s3a.proxy_group_index == i as usize);
    let s3 = remember_group(s3a);
    assert(s3.proxy_group_index == i as usize);
    lemma_node_steps_keep_group(s3, cn, rn);
    let page = applied_page_with(s1, name_of(selected_group(s)), rg, cn, rn);
    assert(page.proxy_group_index == i as usize);
    lemma_dashboard_steps_keep_page(
        page,
        name_of(dashboard_group(s)),
        key_view(s.dashboard_proxy_group_selection_key),
        node_name_view(dashboard_group(s), s.dashboard_proxy_node_index),
        key_view(s.dashboard_proxy_node_selection_key),
    );
    assert(applied_groups(s, groups) == applied_dashboard_with(
        page,
        name_of(dashboard_group(s)),
        key_view(s.dashboard_proxy_group_selection_key),
        node_name_view(dashboard_group(s), s.dashboard_proxy_node_index),
        key_view(s.dashboard_proxy_node_selection_key),
    ));
    assert(applied_groups(s, groups).proxy_group_index == i as usize);
}

} // verus!
