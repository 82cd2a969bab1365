//! Which proxy providers to refresh when the proxy groups stay empty after
//! an import.
use vstd::prelude::*;
use vstd::string::*;
use crate::controller::{visible_vehicle, opt_text, is_visible_proxy_provider, ProxyProviderEntry, ProxyProvidersResponse};
use crate::models::RuntimeProxySummary;
use crate::order::{lemma_insert_at, stable_sort, text_less, text_lt};
use crate::strs::{blank, copy_string, owned, str_blank, str_eq, views};

verus! {

/// Whether `names` holds `x`.
pub fn names_contain(names: &Vec<String>, x: &str) -> (b: bool)
    ensures
        b == views(names@).contains(x@),
{
    let mut i: usize = 0;
    while i < names.len()
        invariant
            i <= names.len(),
            forall|k: int| 0 <= k < i ==> names@[k]@ != x@,
        decreases names.len() - i,
    {
        if str_eq(names[i].as_str(), x) {
            proof {
                assert(views(names@)[i as int] == x@);
            }
            return true;
        }
        i += 1;
    }
    proof {
        if views(names@).contains(x@) {
            let k = choose|k: int| 0 <= k < views(names@).len() && views(names@)[k] == x@;
            assert(names@[k]@ == x@);
        }
    }
    false
}

/// A provider is named in `names` under its key or under its own name.
pub open spec fn matches_names(key: Seq<char>, e: ProxyProviderEntry, names: Seq<Seq<char>>) -> bool {
    names.contains(key) || (e.name is Some && names.contains(e.name->0@))
}

/// Whether a provider is named in `names` (by key or by its own name).
pub fn provider_matches_names(name: &str, provider: &ProxyProviderEntry, provider_names: &Vec<String>) -> (b:
    bool)
    ensures
        b == matches_names(name@, *provider, views(provider_names@)),
{
    if names_contain(provider_names, name) {
        return true;
    }
    match &provider.name {
        Some(n) => names_contain(provider_names, n.as_str()),
        None => false,
    }
}

/// Providers used by proxy groups come first (0), then the other providers
/// of the runtime (1), then the rest (2).
pub open spec fn priority(
    key: Seq<char>,
    e: ProxyProviderEntry,
    group: Seq<Seq<char>>,
    runtime: Seq<Seq<char>>,
) -> nat {
    if matches_names(key, e, group) {
        0
    } else if matches_names(key, e, runtime) {
        1
    } else {
        2
    }
}

/// The refresh priority of a provider.
pub fn provider_auto_refresh_priority(
    name: &str,
    provider: &ProxyProviderEntry,
    group_provider_names: &Vec<String>,
    runtime_provider_names: &Vec<String>,
) -> (r: usize)
    ensures
        r == priority(name@, *provider, views(group_provider_names@), views(runtime_provider_names@)),
{
    if provider_matches_names(name, provider, group_provider_names) {
        0
    } else if provider_matches_names(name, provider, runtime_provider_names) {
        1
    } else {
        2
    }
}

/// `x` added at the end unless it is blank or already there.
pub open spec fn push_unique(names: Seq<Seq<char>>, x: Seq<char>) -> Seq<Seq<char>> {
    if !blank(x) && !names.contains(x) {
        names.push(x)
    } else {
        names
    }
}

/// Adds a provider name unless it is blank or already listed.
pub fn push_unique_provider_name(names: &mut Vec<String>, name: &str)
    ensures
        views(final(names)@) == push_unique(views(old(names)@), name@),
{
    if !str_blank(name) && !names_contain(names, name) {
        let ghost before = names@;
        names.push(owned(name));
        proof {
            assert(views(names@) =~= views(before).push(name@));
        }
    }
}

/// Each of `xs` pushed in turn.
pub open spec fn push_all(names: Seq<Seq<char>>, xs: Seq<Seq<char>>) -> Seq<Seq<char>>
    decreases xs.len(),
{
    if xs.len() == 0 {
        names
    } else {
        push_unique(push_all(names, xs.drop_last()), xs.last())
    }
}

pub open spec fn runtime_names(runtime: Option<RuntimeProxySummary>) -> Seq<Seq<char>> {
    match runtime {
        Some(r) => views(r.provider_names@),
        None => Seq::empty(),
    }
}

pub open spec fn group_names(runtime: Option<RuntimeProxySummary>) -> Seq<Seq<char>> {
    match runtime {
        Some(r) => views(r.group_provider_names@),
        None => Seq::empty(),
    }
}

/// The positions of the shown providers among the first `n` entries.
pub open spec fn visible_positions(entries: Seq<(String, ProxyProviderEntry)>, n: int) -> Seq<usize>
    decreases n,
{
    if n <= 0 {
        Seq::empty()
    } else if visible_vehicle(opt_text(entries[n - 1].1.vehicle_type)) {
        visible_positions(entries, n - 1).push((n - 1) as usize)
    } else {
        visible_positions(entries, n - 1)
    }
}

/// Provider `i` is refreshed before provider `j`: lower priority number,
/// then fewer proxies (empty providers first), then key order.
pub open spec fn refresh_before(
    entries: Seq<(String, ProxyProviderEntry)>,
    group: Seq<Seq<char>>,
    runtime: Seq<Seq<char>>,
) -> spec_fn(usize, usize) -> bool {
    |i: usize, j: usize|
        {
            let pi = priority(entries[i as int].0@, entries[i as int].1, group, runtime);
            let pj = priority(entries[j as int].0@, entries[j as int].1, group, runtime);
            let li = entries[i as int].1.proxies@.len();
            let lj = entries[j as int].1.proxies@.len();
            pi < pj || (pi == pj && (li < lj || (li == lj && text_lt(
                entries[i as int].0@,
                entries[j as int].0@,
            ))))
        }
}

/// The keys of the sorted providers that `names` mentions, each pushed in
/// turn.
pub open spec fn push_matching(
    acc: Seq<Seq<char>>,
    entries: Seq<(String, ProxyProviderEntry)>,
    order: Seq<usize>,
    names: Seq<Seq<char>>,
) -> Seq<Seq<char>>
    decreases order.len(),
{
    if order.len() == 0 {
        acc
    } else {
        let prev = push_matching(acc, entries, order.drop_last(), names);
        let i = order.last() as int;
        if matches_names(entries[i].0@, entries[i].1, names) {
            push_unique(prev, entries[i].0@)
        } else {
            prev
        }
    }
}

pub open spec fn keys_of(entries: Seq<(String, ProxyProviderEntry)>, order: Seq<usize>) -> Seq<
    Seq<char>,
> {
    order.map_values(|i: usize| entries[i as int].0@)
}

/// The providers to refresh. With a controller list: its shown providers
/// in refresh order, first those the proxy groups use, then the other
/// runtime providers; all of them when the runtime names none. When that
/// gives nothing, the runtime's own names (group providers first).
pub open spec fn auto_refresh_names(
    runtime: Option<RuntimeProxySummary>,
    controller: Option<ProxyProvidersResponse>,
) -> Seq<Seq<char>> {
    let g = group_names(runtime);
    let r = runtime_names(runtime);
    let from_controller = match controller {
        None => Seq::empty(),
        Some(c) => {
            let entries = c.providers@;
            let order = stable_sort(
                visible_positions(entries, entries.len() as int),
                refresh_before(entries, g, r),
            );
            let a = if g.len() > 0 {
                push_matching(Seq::empty(), entries, order, g)
            } else {
                Seq::empty()
            };
            let b = if r.len() > 0 {
                push_matching(a, entries, order, r)
            } else {
                a
            };
            if b.len() == 0 && g.len() == 0 && r.len() == 0 {
                push_all(b, keys_of(entries, order))
            } else {
                b
            }
        },
    };
    if from_controller.len() == 0 && runtime is Some {
        push_all(push_all(from_controller, g), r)
    } else {
        from_controller
    }
}

fn refresh_less(
    entries: &Vec<(String, ProxyProviderEntry)>,
    group: &Vec<String>,
    runtime: &Vec<String>,
    i: usize,
    j: usize,
) -> (b: bool)
    requires
        i < entries.len(),
        j < entries.len(),
    ensures
        b == (refresh_before(entries@, views(group@), views(runtime@)))(i, j),
{
    let pi = provider_auto_refresh_priority(entries[i].0.as_str(), &entries[i].1, group, runtime);
    let pj = provider_auto_refresh_priority(entries[j].0.as_str(), &entries[j].1, group, runtime);
    let li = entries[i].1.proxies.len();
    let lj = entries[j].1.proxies.len();
    pi < pj || (pi == pj && (li < lj || (li == lj && text_less(
        entries[i].0.as_str(),
        entries[j].0.as_str(),
    ))))
}

fn sorted_positions(
    entries: &Vec<(String, ProxyProviderEntry)>,
    group: &Vec<String>,
    runtime: &Vec<String>,
) -> (r: Vec<usize>)
    ensures
        r@ == stable_sort(
            visible_positions(entries@, entries@.len() as int),
            refresh_before(entries@, views(group@), views(runtime@)),
        ),
        forall|k: int| 0 <= k < r@.len() ==> r@[k] < entries@.len(),
{
    let ghost before = refresh_before(entries@, views(group@), views(runtime@));
    let mut out: Vec<usize> = Vec::new();
    let mut i: usize = 0;
    while i < entries.len()
        invariant
            i <= entries.len(),
            before == refresh_before(entries@, views(group@), views(runtime@)),
            out@ == stable_sort(visible_positions(entries@, i as int), before),
            forall|k: int| 0 <= k < out@.len() ==> out@[k] < i,
        decreases entries.len() - i,
    {
        let vehicle: Option<&str> = match &entries[i].1.vehicle_type {
            Some(v) => Some(v.as_str()),
            None => None,
        };
        if is_visible_proxy_provider(vehicle) {
            let mut j: usize = 0;
            while j < out.len() && !refresh_less(entries, group, runtime, i, out[j])
                invariant
                    i < entries.len(),
                    j <= out.len(),
                    forall|k: int| 0 <= k < out@.len() ==> out@[k] < i,
                    before == refresh_before(entries@, views(group@), views(runtime@)),
                    forall|k: int| 0 <= k < j ==> !before(i, #[trigger] out@[k]),
                decreases out.len() - j,
            {
                j += 1;
            }
            proof {
                lemma_insert_at(out@, i, before, j as int);
            }
            out.insert(j, i);
            proof {
                assert(visible_positions(entries@, i + 1) =~= visible_positions(entries@, i as int).push(i));
                assert(visible_positions(entries@, i + 1).drop_last() =~= visible_positions(entries@, i as int));
            }
        } else {
            proof {
                assert(visible_positions(entries@, i + 1) =~= visible_positions(entries@, i as int));
            }
        }
        i += 1;
    }
    out
}

fn push_matching_exec(
    names: &mut Vec<String>,
    entries: &Vec<(String, ProxyProviderEntry)>,
    order: &Vec<usize>,
    wanted: &Vec<String>,
)
    requires
        forall|k: int| 0 <= k < order@.len() ==> order@[k] < entries@.len(),
    ensures
        views(final(names)@) == push_matching(views(old(names)@), entries@, order@, views(wanted@)),
{
    let ghost start = views(names@);
    let mut k: usize = 0;
    while k < order.len()
        invariant
            k <= order.len(),
            forall|m: int| 0 <= m < order@.len() ==> order@[m] < entries@.len(),
            start == views(old(names)@),
            views(names@) == push_matching(start, entries@, order@.take(k as int), views(wanted@)),
        decreases order.len() - k,
    {
        let idx = order[k];
        proof {
            assert(order@.take(k + 1).drop_last() =~= order@.take(k as int));
            assert(order@.take(k + 1).last() == idx);
        }
        if provider_matches_names(entries[idx].0.as_str(), &entries[idx].1, wanted) {
            push_unique_provider_name(names, entries[idx].0.as_str());
        }
        k += 1;
    }
    proof {
        assert(order@.take(order.len() as int) =~= order@);
    }
}

fn push_all_exec(names: &mut Vec<String>, xs: &Vec<String>)
    ensures
        views(final(names)@) == push_all(views(old(names)@), views(xs@)),
{
    let ghost start = views(names@);
    let mut k: usize = 0;
    while k < xs.len()
        invariant
            k <= xs.len(),
            start == views(old(names)@),
            views(names@) == push_all(start, views(xs@).take(k as int)),
        decreases xs.len() - k,
    {
        proof {
            assert(views(xs@).take(k + 1).drop_last() =~= views(xs@).take(k as int));
            assert(views(xs@).take(k + 1).last() == xs@[k as int]@);
        }
        push_unique_provider_name(names, xs[k].as_str());
        k += 1;
    }
    proof {
        assert(views(xs@).take(xs.len() as int) =~= views(xs@));
    }
}

fn keys_in_order(entries: &Vec<(String, ProxyProviderEntry)>, order: &Vec<usize>) -> (r: Vec<String>)
    requires
        forall|k: int| 0 <= k < order@.len() ==> order@[k] < entries@.len(),
    ensures
        views(r@) == keys_of(entries@, order@),
{
    let mut r: Vec<String> = Vec::new();
    let mut k: usize = 0;
    while k < order.len()
        invariant
            k <= order.len(),
            forall|m: int| 0 <= m < order@.len() ==> order@[m] < entries@.len(),
            views(r@) == keys_of(entries@, order@.take(k as int)),
        decreases order.len() - k,
    {
        let ghost before = r@;
        let c = copy_string(&entries[order[k]].0);
        r.push(c);
        proof {
            assert(views(r@) =~= views(before).push(c@));
            assert(keys_of(entries@, order@.take(k + 1)) =~= keys_of(entries@, order@.take(k as int)).push(
                entries@[order@[k as int] as int].0@,
            ));
        }
        k += 1;
    }
    proof {
        assert(order@.take(order.len() as int) =~= order@);
    }
    r
}

/// The providers to refresh automatically, in the order to refresh them.
pub fn provider_names_for_auto_refresh(
    runtime: Option<&RuntimeProxySummary>,
    controller_providers: Option<&ProxyProvidersResponse>,
) -> (r: Vec<String>)
    ensures
        views(r@) == auto_refresh_names(
            match runtime {
                Some(x) => Some(*x),
                None => None,
            },
            match controller_providers {
                Some(c) => Some(*c),
                None => None,
            },
        ),
{
    let ghost rt_model = match runtime {
        Some(x) => Some(*x),
        None => None,
    };
    let ghost c_model = match controller_providers {
        Some(c) => Some(*c),
        None => None,
    };
    let ghost g = group_names(rt_model);
    let ghost r = runtime_names(rt_model);
    let empty: Vec<String> = Vec::new();
    let (group, rt): (&Vec<String>, &Vec<String>) = match runtime {
        Some(x) => (&x.group_provider_names, &x.provider_names),
        None => (&empty, &empty),
    };
    assert(views(group@) == g && views(rt@) == r) by {
        if runtime.is_none() {
            assert(views(empty@) =~= Seq::<Seq<char>>::empty());
        }
    }
    let mut names: Vec<String> = Vec::new();
    let ghost e: Seq<Seq<char>> = Seq::empty();
    assert(views(names@) =~= e);
    if let Some(c) = controller_providers {
        let order = sorted_positions(&c.providers, group, rt);
        let ghost entries = c.providers@;
        if group.len() > 0 {
            push_matching_exec(&mut names, &c.providers, &order, group);
        }
        let ghost a = views(names@);
        assert(a == (if g.len() > 0 {
            push_matching(e, entries, order@, g)
        } else {
            e
        }));
        if rt.len() > 0 {
            push_matching_exec(&mut names, &c.providers, &order, rt);
        }
        let ghost b = views(names@);
        assert(b == (if r.len() > 0 {
            push_matching(a, entries, order@, r)
        } else {
            a
        }));
        if names.len() == 0 && group.len() == 0 && rt.len() == 0 {
            let keys = keys_in_order(&c.providers, &order);
            push_all_exec(&mut names, &keys);
        }
    }
    if names.len() == 0 && runtime.is_some() {
        push_all_exec(&mut names, group);
        push_all_exec(&mut names, rt);
    }
    names
}

proof fn lemma_push_unique_keeps(names: Seq<Seq<char>>, x: Seq<char>)
    requires
        names.no_duplicates(),
        forall|k: int| 0 <= k < names.len() ==> !blank(#[trigger] names[k]),
    ensures
        push_unique(names, x).no_duplicates(),
        forall|k: int| 0 <= k < push_unique(names, x).len() ==> !blank(#[trigger] push_unique(names, x)[k]),
        forall|y: Seq<char>| names.contains(y) ==> push_unique(names, x).contains(y),
{
    if !blank(x) && !names.contains(x) {
        let p = names.push(x);
        assert forall|i: int, j: int| 0 <= i < p.len() && 0 <= j < p.len() && i != j implies p[i] != p[j] by {
            if i < names.len() && j < names.len() {
            } else if i == names.len() {
                assert(p[j] == names[j]);
            } else {
                assert(p[i] == names[i]);
            }
        }
        assert forall|y: Seq<char>| names.contains(y) implies p.contains(y) by {
            let k = choose|k: int| 0 <= k < names.len() && names[k] == y;
            assert(p[k] == y);
        }
    }
}

proof fn lemma_push_all_keeps(names: Seq<Seq<char>>, xs: Seq<Seq<char>>)
    requires
        names.no_duplicates(),
        forall|k: int| 0 <= k < names.len() ==> !blank(#[trigger] names[k]),
    ensures
        push_all(names, xs).no_duplicates(),
        forall|k: int| 0 <= k < push_all(names, xs).len() ==> !blank(#[trigger] push_all(names, xs)[k]),
    decreases xs.len(),
{
    if xs.len() > 0 {
        lemma_push_all_keeps(names, xs.drop_last());
        lemma_push_unique_keeps(push_all(names, xs.drop_last()), xs.last());
    }
}

proof fn lemma_push_matching_keeps(
    acc: Seq<Seq<char>>,
    entries: Seq<(String, ProxyProviderEntry)>,
    order: Seq<usize>,
    names: Seq<Seq<char>>,
)
    requires
        acc.no_duplicates(),
        forall|k: int| 0 <= k < acc.len() ==> !blank(#[trigger] acc[k]),
    ensures
        push_matching(acc, entries, order, names).no_duplicates(),
        forall|k: int|
            0 <= k < push_matching(acc, entries, order, names).len() ==> !blank(
                #[trigger] push_matching(acc, entries, order, names)[k],
            ),
    decreases order.len(),
{
    if order.len() > 0 {
        lemma_push_matching_keeps(acc, entries, order.drop_last(), names);
        let prev = push_matching(acc, entries, order.drop_last(), names);
        let i = order.last() as int;
        lemma_push_unique_keeps(prev, entries[i].0@);
    }
}

/// The providers chosen for an automatic refresh are never blank and
/// never listed twice.
pub proof fn law_auto_refresh_names_unique(
    runtime: Option<RuntimeProxySummary>,
    controller: Option<ProxyProvidersResponse>,
)
    ensures
        auto_refresh_names(runtime, controller).no_duplicates(),
        forall|k: int|
            0 <= k < auto_refresh_names(runtime, controller).len() ==> !blank(
                #[trigger] auto_refresh_names(runtime, controller)[k],
            ),
{
    let g = group_names(runtime);
    let r = runtime_names(runtime);
    let e: Seq<Seq<char>> = Seq::empty();
    let from_controller: Seq<Seq<char>> = match controller {
        None => e,
        Some(c) => {
            let entries = c.providers@;
            let order = stable_sort(
                visible_positions(entries, entries.len() as int),
                refresh_before(entries, g, r),
            );
            lemma_push_matching_keeps(e, entries, order, g);
            let a = if g.len() > 0 {
                push_matching(e, entries, order, g)
            } else {
                e
            };
            lemma_push_matching_keeps(a, entries, order, r);
            let b = if r.len() > 0 {
                push_matching(a, entries, order, r)
            } else {
                a
            };
            lemma_push_all_keeps(b, keys_of(entries, order));
            if b.len() == 0 && g.len() == 0 && r.len() == 0 {
                push_all(b, keys_of(entries, order))
            } else {
                b
            }
        },
    };
    assert(from_controller == match controller {
        None => e,
        Some(c) => {
            let entries = c.providers@;
            let order = stable_sort(
                visible_positions(entries, entries.len() as int),
                refresh_before(entries, g, r),
            );
            let a = if g.len() > 0 {
                push_matching(e, entries, order, g)
            } else {
                e
            };
            let b = if r.len() > 0 {
                push_matching(a, entries, order, r)
            } else {
                a
            };
            if b.len() == 0 && g.len() == 0 && r.len() == 0 {
                push_all(b, keys_of(entries, order))
            } else {
                b
            }
        },
    });
    lemma_push_all_keeps(from_controller, g);
    lemma_push_all_keeps(push_all(from_controller, g), r);
}

} // verus!
