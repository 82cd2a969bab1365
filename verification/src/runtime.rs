//! Reading the generated runtime configuration: how many proxies,
//! providers, groups and rules it holds, which providers the groups use,
//! and the groups as the client previews them before the core runs.
use vstd::prelude::*;
use vstd::string::*;
use crate::controller::{RuntimeProxyGroupPreview, proxy_group_rows_from_runtime_preview, row_view};
use crate::models::{ProxyGroupRow, RuntimeProxySummary};
use crate::order::{text_less, text_lt};
use crate::strs::{blank, copy_string, from_chars, owned, push_str, str_blank, str_eq, to_chars, views};

verus! {

/// A YAML document: scalars, lists and mappings. A tagged value is read
/// as the value under its tag; a tagged mapping key keeps its tag, since a
/// lookup by a text key only finds untagged text keys.
#[derive(Debug, PartialEq, Eq)]
pub enum YamlNode {
    Null,
    Bool(bool),
    Number(String),
    Text(String),
    List(Vec<YamlNode>),
    Mapping(Vec<(YamlNode, YamlNode)>),
    /// A mapping key written with a tag: the tag and the key under it.
    Tagged(String, Box<YamlNode>),
}

/// The text of a key, looking through its tags (`None` for other keys).
pub open spec fn key_text(k: YamlNode) -> Option<Seq<char>>
    decreases k,
{
    match k {
        YamlNode::Text(s) => Some(s@),
        YamlNode::Tagged(_, b) => key_text(*b),
        _ => None,
    }
}

fn key_str(k: &YamlNode) -> (r: Option<&str>)
    ensures
        match r {
            Some(t) => key_text(*k) == Some(t@),
            None => key_text(*k) is None,
        },
    decreases k,
{
    match k {
        YamlNode::Text(s) => Some(s.as_str()),
        YamlNode::Tagged(_, b) => key_str(b),
        _ => None,
    }
}

/// The value stored under the text key `key` (the first such entry).
pub open spec fn map_get(m: Seq<(YamlNode, YamlNode)>, key: Seq<char>) -> Option<YamlNode>
    decreases m.len(),
{
    if m.len() == 0 {
        None
    } else if m[0].0 matches YamlNode::Text(s) && s@ == key {
        Some(m[0].1)
    } else {
        map_get(m.skip(1), key)
    }
}

/// Looks up a text key in a mapping.
pub fn yaml_get<'a>(m: &'a Vec<(YamlNode, YamlNode)>, key: &str) -> (r: Option<&'a YamlNode>)
    ensures
        match r {
            Some(v) => map_get(m@, key@) == Some(*v),
            None => map_get(m@, key@) is None,
        },
{
    let mut i: usize = 0;
    proof {
        assert(m@.skip(0) =~= m@);
    }
    while i < m.len()
        invariant
            i <= m.len(),
            map_get(m@, key@) == map_get(m@.skip(i as int), key@),
        decreases m.len() - i,
    {
        proof {
            assert(m@.skip(i as int)[0] == m@[i as int]);
            assert(m@.skip(i as int).skip(1) =~= m@.skip(i + 1));
        }
        if let YamlNode::Text(s) = &m[i].0 {
            if str_eq(s.as_str(), key) {
                return Some(&m[i].1);
            }
        }
        i += 1;
    }
    None
}

/// The number of items of the list under `key`, 0 when it is not a list.
pub open spec fn list_len_of(m: Seq<(YamlNode, YamlNode)>, key: Seq<char>) -> nat {
    match map_get(m, key) {
        Some(YamlNode::List(v)) => v@.len(),
        _ => 0,
    }
}

/// The number of entries of the mapping under `key`, 0 when it is not a
/// mapping.
pub open spec fn map_len_of(m: Seq<(YamlNode, YamlNode)>, key: Seq<char>) -> nat {
    match map_get(m, key) {
        Some(YamlNode::Mapping(v)) => v@.len(),
        _ => 0,
    }
}

/// The items of the list under `key`, in order.
pub fn yaml_sequence_len(m: &Vec<(YamlNode, YamlNode)>, key: &str) -> (r: usize)
    ensures
        r == list_len_of(m@, key@),
{
    match yaml_get(m, key) {
        Some(YamlNode::List(v)) => v.len(),
        _ => 0,
    }
}

/// The number of entries of the mapping under `key`.
pub fn yaml_mapping_len(m: &Vec<(YamlNode, YamlNode)>, key: &str) -> (r: usize)
    ensures
        r == map_len_of(m@, key@),
{
    match yaml_get(m, key) {
        Some(YamlNode::Mapping(v)) => v.len(),
        _ => 0,
    }
}

/// The keys of a mapping that are non-blank texts, in order.
pub open spec fn text_keys(entries: Seq<(YamlNode, YamlNode)>) -> Seq<Seq<char>>
    decreases entries.len(),
{
    if entries.len() == 0 {
        Seq::empty()
    } else {
        let rest = text_keys(entries.drop_last());
        match key_text(entries.last().0) {
            Some(s) => if blank(s) {
                rest
            } else {
                rest.push(s)
            },
            None => rest,
        }
    }
}

/// The non-blank text keys of the mapping under `key`.
pub open spec fn string_keys_of(m: Seq<(YamlNode, YamlNode)>, key: Seq<char>) -> Seq<Seq<char>> {
    match map_get(m, key) {
        Some(YamlNode::Mapping(v)) => text_keys(v@),
        _ => Seq::empty(),
    }
}

fn text_keys_exec(entries: &Vec<(YamlNode, YamlNode)>) -> (r: Vec<String>)
    ensures
        views(r@) == text_keys(entries@),
{
    let mut r: Vec<String> = Vec::new();
    let mut i: usize = 0;
    while i < entries.len()
        invariant
            i <= entries.len(),
            views(r@) == text_keys(entries@.take(i as int)),
        decreases entries.len() - i,
    {
        proof {
            assert(entries@.take(i + 1).drop_last() =~= entries@.take(i as int));
            assert(entries@.take(i + 1).last() == entries@[i as int]);
        }
        if let Some(s) = key_str(&entries[i].0) {
            if !str_blank(s) {
                let ghost before = r@;
                let c = owned(s);
                r.push(c);
                proof {
                    assert(views(r@) =~= views(before).push(c@));
                }
            }
        }
        i += 1;
    }
    proof {
        assert(entries@.take(entries.len() as int) =~= entries@);
    }
    r
}

/// The non-blank text keys of the mapping under `key`, in order.
pub fn yaml_mapping_string_keys(m: &Vec<(YamlNode, YamlNode)>, key: &str) -> (r: Vec<String>)
    ensures
        views(r@) == string_keys_of(m@, key@),
{
    match yaml_get(m, key) {
        Some(YamlNode::Mapping(v)) => text_keys_exec(v),
        _ => {
            let r: Vec<String> = Vec::new();
            proof {
                assert(views(r@) =~= Seq::<Seq<char>>::empty());
            }
            r
        },
    }
}

/// `x` added to a text set kept in order (the order of a `BTreeSet`).
pub open spec fn set_insert(t: Seq<Seq<char>>, x: Seq<char>) -> Seq<Seq<char>>
    decreases t.len(),
{
    if t.len() == 0 {
        seq![x]
    } else if t[0] == x {
        t
    } else if text_lt(x, t[0]) {
        seq![x] + t
    } else {
        seq![t[0]] + set_insert(t.skip(1), x)
    }
}

/// The non-blank texts of a list, each added to the set in turn.
pub open spec fn insert_texts(t: Seq<Seq<char>>, items: Seq<YamlNode>) -> Seq<Seq<char>>
    decreases items.len(),
{
    if items.len() == 0 {
        t
    } else {
        let prev = insert_texts(t, items.drop_last());
        match items.last() {
            YamlNode::Text(s) => if blank(s@) {
                prev
            } else {
                set_insert(prev, s@)
            },
            _ => prev,
        }
    }
}

/// The providers the groups use (`use`), as an ordered set.
pub open spec fn used_providers(t: Seq<Seq<char>>, groups: Seq<YamlNode>) -> Seq<Seq<char>>
    decreases groups.len(),
{
    if groups.len() == 0 {
        t
    } else {
        let prev = used_providers(t, groups.drop_last());
        match groups.last() {
            YamlNode::Mapping(g) => match map_get(g@, "use"@) {
                Some(YamlNode::List(items)) => insert_texts(prev, items@),
                _ => prev,
            },
            _ => prev,
        }
    }
}

/// The providers that the proxy groups of the runtime use, in name order.
pub open spec fn group_provider_names_of(m: Seq<(YamlNode, YamlNode)>) -> Seq<Seq<char>> {
    match map_get(m, "proxy-groups"@) {
        Some(YamlNode::List(groups)) => used_providers(Seq::empty(), groups@),
        _ => Seq::empty(),
    }
}

/// Adds a text to a text set kept in order.
pub fn set_insert_exec(t: &mut Vec<String>, x: &str)
    ensures
        views(final(t)@) == set_insert(views(old(t)@), x@),
{
    let ghost t0 = views(t@);
    let mut i: usize = 0;
    proof {
        assert(t0.skip(0) =~= t0);
        assert(t0.take(0) + set_insert(t0.skip(0), x@) =~= set_insert(t0, x@));
    }
    while i < t.len()
        invariant
            i <= t.len(),
            t0 == views(t@),
            t0 == views(old(t)@),
            set_insert(t0, x@) == t0.take(i as int) + set_insert(t0.skip(i as int), x@),
        decreases t.len() - i,
    {
        let ghost rest = t0.skip(i as int);
        proof {
            assert(rest[0] == t@[i as int]@);
            assert(rest.skip(1) =~= t0.skip(i + 1));
        }
        if str_eq(t[i].as_str(), x) {
            proof {
                assert(t0.take(i as int) + rest =~= t0);
            }
            return;
        }
        if text_less(x, t[i].as_str()) {
            let ghost before = t@;
            t.insert(i, owned(x));
            proof {
                assert(views(t@) =~= t0.take(i as int) + (seq![x@] + rest));
            }
            return;
        }
        proof {
            assert(t0.take(i as int) + set_insert(rest, x@) =~= t0.take(i + 1) + set_insert(
                t0.skip(i + 1),
                x@,
            ));
        }
        i += 1;
    }
    let ghost before = t@;
    t.push(owned(x));
    proof {
        assert(t0.take(i as int) =~= t0);
        assert(views(t@) =~= t0 + seq![x@]);
    }
}

fn insert_texts_exec(t: &mut Vec<String>, items: &Vec<YamlNode>)
    ensures
        views(final(t)@) == insert_texts(views(old(t)@), items@),
{
    let ghost t0 = views(t@);
    let mut i: usize = 0;
    while i < items.len()
        invariant
            i <= items.len(),
            t0 == views(old(t)@),
            views(t@) == insert_texts(t0, items@.take(i as int)),
        decreases items.len() - i,
    {
        proof {
            assert(items@.take(i + 1).drop_last() =~= items@.take(i as int));
            assert(items@.take(i + 1).last() == items@[i as int]);
        }
        if let YamlNode::Text(s) = &items[i] {
            if !str_blank(s.as_str()) {
                set_insert_exec(t, s.as_str());
            }
        }
        i += 1;
    }
    proof {
        assert(items@.take(items.len() as int) =~= items@);
    }
}

/// The providers the proxy groups use, as an ordered set.
pub fn yaml_group_provider_names(m: &Vec<(YamlNode, YamlNode)>) -> (r: Vec<String>)
    ensures
        views(r@) == group_provider_names_of(m@),
{
    let mut names: Vec<String> = Vec::new();
    proof {
        assert(views(names@) =~= Seq::<Seq<char>>::empty());
    }
    if let Some(YamlNode::List(groups)) = yaml_get(m, "proxy-groups") {
        let mut i: usize = 0;
        while i < groups.len()
            invariant
                i <= groups.len(),
                views(names@) == used_providers(Seq::empty(), groups@.take(i as int)),
            decreases groups.len() - i,
        {
            proof {
                assert(groups@.take(i + 1).drop_last() =~= groups@.take(i as int));
                assert(groups@.take(i + 1).last() == groups@[i as int]);
            }
            if let YamlNode::Mapping(g) = &groups[i] {
                if let Some(YamlNode::List(items)) = yaml_get(g, "use") {
                    insert_texts_exec(&mut names, items);
                }
            }
            i += 1;
        }
        proof {
            assert(groups@.take(groups.len() as int) =~= groups@);
        }
    }
    names
}

/// The summary of a runtime mapping.
pub open spec fn summary_of(s: RuntimeProxySummary, m: Seq<(YamlNode, YamlNode)>) -> bool {
    &&& s.proxies == list_len_of(m, "proxies"@)
    &&& s.providers == map_len_of(m, "proxy-providers"@)
    &&& views(s.provider_names@) == string_keys_of(m, "proxy-providers"@)
    &&& views(s.group_provider_names@) == group_provider_names_of(m)
    &&& s.groups == list_len_of(m, "proxy-groups"@)
    &&& s.rules == list_len_of(m, "rules"@)
}

/// Summarises a parsed runtime configuration: the number of proxies, providers,
/// groups and rules, the provider names and the providers the groups use.
/// The document must be a mapping.
pub fn runtime_proxy_summary_from_document(root: &YamlNode) -> (r: Result<RuntimeProxySummary, String>)
    ensures
        match r {
            Ok(s) => root matches YamlNode::Mapping(m) && summary_of(s, m@),
            Err(e) => !(root is Mapping) && e@ == "runtime yaml root is not a mapping"@,
        },
{
    match root {
        YamlNode::Mapping(m) => Ok(
            RuntimeProxySummary {
                proxies: yaml_sequence_len(m, "proxies"),
                providers: yaml_mapping_len(m, "proxy-providers"),
                provider_names: yaml_mapping_string_keys(m, "proxy-providers"),
                group_provider_names: yaml_group_provider_names(m),
                groups: yaml_sequence_len(m, "proxy-groups"),
                rules: yaml_sequence_len(m, "rules"),
            },
        ),
        _ => Err(owned("runtime yaml root is not a mapping")),
    }
}

/// The texts of a list, in order.
pub open spec fn list_texts(items: Seq<YamlNode>) -> Seq<Seq<char>>
    decreases items.len(),
{
    if items.len() == 0 {
        Seq::empty()
    } else {
        let rest = list_texts(items.drop_last());
        match items.last() {
            YamlNode::Text(s) => rest.push(s@),
            _ => rest,
        }
    }
}

pub open spec fn texts_under(m: Seq<(YamlNode, YamlNode)>, key: Seq<char>) -> Seq<Seq<char>> {
    match map_get(m, key) {
        Some(YamlNode::List(v)) => list_texts(v@),
        _ => Seq::empty(),
    }
}

/// The names of the listed proxies (mappings with a text `name`).
pub open spec fn proxy_names(items: Seq<YamlNode>) -> Seq<Seq<char>>
    decreases items.len(),
{
    if items.len() == 0 {
        Seq::empty()
    } else {
        let rest = proxy_names(items.drop_last());
        match items.last() {
            YamlNode::Mapping(p) => match map_get(p@, "name"@) {
                Some(YamlNode::Text(n)) => rest.push(n@),
                _ => rest,
            },
            _ => rest,
        }
    }
}

pub open spec fn root_proxy_names(m: Seq<(YamlNode, YamlNode)>) -> Seq<Seq<char>> {
    match map_get(m, "proxies"@) {
        Some(YamlNode::List(v)) => proxy_names(v@),
        _ => Seq::empty(),
    }
}

/// `xs` appended to `s`, skipping those already present.
pub open spec fn append_new(s: Seq<Seq<char>>, xs: Seq<Seq<char>>) -> Seq<Seq<char>>
    decreases xs.len(),
{
    if xs.len() == 0 {
        s
    } else {
        let prev = append_new(s, xs.drop_last());
        if prev.contains(xs.last()) {
            prev
        } else {
            prev.push(xs.last())
        }
    }
}

/// Each provider name as a node entry `Provider: name`.
pub open spec fn provider_entries(names: Seq<Seq<char>>) -> Seq<Seq<char>> {
    names.map_values(|n: Seq<char>| "Provider: "@ + n)
}

/// The members of a group as previewed: its proxies (with every proxy of
/// the runtime when it includes all), then its providers (with every
/// provider of the runtime when it includes all).
pub open spec fn preview_nodes(g: Seq<(YamlNode, YamlNode)>, root: Seq<(YamlNode, YamlNode)>) -> Seq<
    Seq<char>,
> {
    let include_all = map_get(g, "include-all"@) == Some(YamlNode::Bool(true));
    let own = texts_under(g, "proxies"@);
    let proxies = if include_all {
        append_new(own, root_proxy_names(root))
    } else {
        own
    };
    let used = texts_under(g, "use"@);
    let providers = if include_all {
        append_new(used, string_keys_of(root, "proxy-providers"@))
    } else {
        used
    };
    proxies + provider_entries(providers)
}

/// The previewed groups among the listed ones (mappings with a text
/// `name`), in order, each with no current node yet.
pub open spec fn preview_groups(groups: Seq<YamlNode>, root: Seq<(YamlNode, YamlNode)>) -> Seq<
    (Seq<char>, Seq<char>, Seq<Seq<char>>),
>
    decreases groups.len(),
{
    if groups.len() == 0 {
        Seq::empty()
    } else {
        let rest = preview_groups(groups.drop_last(), root);
        match groups.last() {
            YamlNode::Mapping(g) => match map_get(g@, "name"@) {
                Some(YamlNode::Text(n)) => rest.push((n@, "未预选"@, preview_nodes(g@, root))),
                _ => rest,
            },
            _ => rest,
        }
    }
}

/// Some group in `groups` has the given name.
pub open spec fn names_group(groups: Seq<(Seq<char>, Seq<char>, Seq<Seq<char>>)>, name: Seq<char>) -> bool {
    exists|i: int| 0 <= i < groups.len() && #[trigger] groups[i].0 == name
}

/// The groups of a runtime as the client previews them: its own groups,
/// then `GLOBAL` with every proxy unless the runtime defines it.
pub open spec fn runtime_preview(root: Seq<(YamlNode, YamlNode)>) -> Seq<
    (Seq<char>, Seq<char>, Seq<Seq<char>>),
> {
    let groups = match map_get(root, "proxy-groups"@) {
        Some(YamlNode::List(v)) => preview_groups(v@, root),
        _ => Seq::empty(),
    };
    if names_group(groups, "GLOBAL"@) {
        groups
    } else {
        groups.push(("GLOBAL"@, "未预选"@, root_proxy_names(root)))
    }
}

pub open spec fn preview_view(p: RuntimeProxyGroupPreview) -> (Seq<char>, Seq<char>, Seq<Seq<char>>) {
    (p.name@, p.now@, views(p.nodes@))
}

fn texts_of_list(items: &Vec<YamlNode>) -> (r: Vec<String>)
    ensures
        views(r@) == list_texts(items@),
{
    let mut r: Vec<String> = Vec::new();
    let mut i: usize = 0;
    while i < items.len()
        invariant
            i <= items.len(),
            views(r@) == list_texts(items@.take(i as int)),
        decreases items.len() - i,
    {
        proof {
            assert(items@.take(i + 1).drop_last() =~= items@.take(i as int));
            assert(items@.take(i + 1).last() == items@[i as int]);
        }
        if let YamlNode::Text(s) = &items[i] {
            let ghost before = r@;
            let c = copy_string(s);
            r.push(c);
            proof {
                assert(views(r@) =~= views(before).push(c@));
            }
        }
        i += 1;
    }
    proof {
        assert(items@.take(items.len() as int) =~= items@);
    }
    r
}

fn texts_under_exec(m: &Vec<(YamlNode, YamlNode)>, key: &str) -> (r: Vec<String>)
    ensures
        views(r@) == texts_under(m@, key@),
{
    match yaml_get(m, key) {
        Some(YamlNode::List(v)) => texts_of_list(v),
        _ => {
            let r: Vec<String> = Vec::new();
            proof {
                assert(views(r@) =~= Seq::<Seq<char>>::empty());
            }
            r
        },
    }
}

fn root_proxy_names_exec(m: &Vec<(YamlNode, YamlNode)>) -> (r: Vec<String>)
    ensures
        views(r@) == root_proxy_names(m@),
{
    let mut r: Vec<String> = Vec::new();
    proof {
        assert(views(r@) =~= Seq::<Seq<char>>::empty());
    }
    if let Some(YamlNode::List(items)) = yaml_get(m, "proxies") {
        let mut i: usize = 0;
        while i < items.len()
            invariant
                i <= items.len(),
                views(r@) == proxy_names(items@.take(i as int)),
            decreases items.len() - i,
        {
            proof {
                assert(items@.take(i + 1).drop_last() =~= items@.take(i as int));
                assert(items@.take(i + 1).last() == items@[i as int]);
            }
            if let YamlNode::Mapping(p) = &items[i] {
                if let Some(YamlNode::Text(n)) = yaml_get(p, "name") {
                    let ghost before = r@;
                    let c = copy_string(n);
                    r.push(c);
                    proof {
                        assert(views(r@) =~= views(before).push(c@));
                    }
                }
            }
            i += 1;
        }
        proof {
            assert(items@.take(items.len() as int) =~= items@);
        }
    }
    r
}

fn append_new_exec(s: &mut Vec<String>, xs: &Vec<String>)
    ensures
        views(final(s)@) == append_new(views(old(s)@), views(xs@)),
{
    let ghost s0 = views(s@);
    let mut i: usize = 0;
    while i < xs.len()
        invariant
            i <= xs.len(),
            s0 == views(old(s)@),
            views(s@) == append_new(s0, views(xs@).take(i as int)),
        decreases xs.len() - i,
    {
        proof {
            assert(views(xs@).take(i + 1).drop_last() =~= views(xs@).take(i as int));
            assert(views(xs@).take(i + 1).last() == xs@[i as int]@);
        }
        if !crate::auto_refresh::names_contain(s, xs[i].as_str()) {
            let ghost before = s@;
            let c = copy_string(&xs[i]);
            s.push(c);
            proof {
                assert(views(s@) =~= views(before).push(c@));
            }
        }
        i += 1;
    }
    proof {
        assert(views(xs@).take(xs.len() as int) =~= views(xs@));
    }
}

fn preview_nodes_exec(g: &Vec<(YamlNode, YamlNode)>, root: &Vec<(YamlNode, YamlNode)>) -> (r: Vec<
    String,
>)
    ensures
        views(r@) == preview_nodes(g@, root@),
{
    let include_all = match yaml_get(g, "include-all") {
        Some(YamlNode::Bool(b)) => *b,
        _ => false,
    };
    let mut proxies = texts_under_exec(g, "proxies");
    if include_all {
        let all = root_proxy_names_exec(root);
        append_new_exec(&mut proxies, &all);
    }
    let mut providers = texts_under_exec(g, "use");
    if include_all {
        let all = yaml_mapping_string_keys(root, "proxy-providers");
        append_new_exec(&mut providers, &all);
    }
    let ghost p0 = views(proxies@);
    let mut k: usize = 0;
    while k < providers.len()
        invariant
            k <= providers.len(),
            views(proxies@) == p0 + provider_entries(views(providers@).take(k as int)),
        decreases providers.len() - k,
    {
        let mut v = to_chars("Provider: ");
        push_str(&mut v, providers[k].as_str());
        let entry = from_chars(&v);
        let ghost before = proxies@;
        proxies.push(entry);
        proof {
            assert(views(proxies@) =~= views(before).push(entry@));
            assert(provider_entries(views(providers@).take(k + 1)) =~= provider_entries(
                views(providers@).take(k as int),
            ).push("Provider: "@ + providers@[k as int]@));
        }
        k += 1;
    }
    proof {
        assert(views(providers@).take(providers.len() as int) =~= views(providers@));
    }
    proxies
}

/// The groups of a runtime configuration as the client previews them
/// before the core serves them. The document must be a mapping.
pub fn runtime_proxy_group_previews(root: &YamlNode) -> (r: Result<Vec<RuntimeProxyGroupPreview>, String>)
    ensures
        match r {
            Ok(v) => root matches YamlNode::Mapping(m) && v@.map_values(
                |p: RuntimeProxyGroupPreview| preview_view(p),
            ) == runtime_preview(m@),
            Err(e) => !(root is Mapping) && e@ == "runtime yaml root is not a mapping"@,
        },
{
    let m = match root {
        YamlNode::Mapping(m) => m,
        _ => {
            return Err(owned("runtime yaml root is not a mapping"));
        },
    };
    let mut out: Vec<RuntimeProxyGroupPreview> = Vec::new();
    let mut has_global = false;
    let ghost groups_model: Seq<(Seq<char>, Seq<char>, Seq<Seq<char>>)> = match map_get(
        m@,
        "proxy-groups"@,
    ) {
        Some(YamlNode::List(v)) => preview_groups(v@, m@),
        _ => Seq::empty(),
    };
    proof {
        assert(out@.map_values(|p: RuntimeProxyGroupPreview| preview_view(p)) =~= Seq::<
            (Seq<char>, Seq<char>, Seq<Seq<char>>),
        >::empty());
    }
    if let Some(YamlNode::List(groups)) = yaml_get(m, "proxy-groups") {
        let mut i: usize = 0;
        while i < groups.len()
            invariant
                i <= groups.len(),
                out@.map_values(|p: RuntimeProxyGroupPreview| preview_view(p)) == preview_groups(
                    groups@.take(i as int),
                    m@,
                ),
                has_global == exists|k: int|
                    0 <= k < out@.len() && #[trigger] out@[k].name@ == "GLOBAL"@,
            decreases groups.len() - i,
        {
            proof {
                assert(groups@.take(i + 1).drop_last() =~= groups@.take(i as int));
                assert(groups@.take(i + 1).last() == groups@[i as int]);
            }
            if let YamlNode::Mapping(g) = &groups[i] {
                if let Some(YamlNode::Text(n)) = yaml_get(g, "name") {
                    let nodes = preview_nodes_exec(g, m);
                    let is_global = str_eq(n.as_str(), "GLOBAL");
                    let p = RuntimeProxyGroupPreview {
                        name: copy_string(n),
                        now: owned("未预选"),
                        nodes,
                    };
                    let ghost before = out@;
                    out.push(p);
                    proof {
                        assert(out@.map_values(|p: RuntimeProxyGroupPreview| preview_view(p))
                            =~= before.map_values(|p: RuntimeProxyGroupPreview| preview_view(p)).push(
                            preview_view(p),
                        ));
                        if has_global {
                            let k = choose|k: int|
                                0 <= k < before.len() && #[trigger] before[k].name@ == "GLOBAL"@;
                            assert(out@[k] == before[k]);
                        }
                        if is_global {
                            assert(out@[before.len() as int].name@ == "GLOBAL"@);
                        }
                        if exists|k: int| 0 <= k < out@.len() && #[trigger] out@[k].name@ == "GLOBAL"@ {
                            let k = choose|k: int|
                                0 <= k < out@.len() && #[trigger] out@[k].name@ == "GLOBAL"@;
                            if k < before.len() {
                                assert(before[k] == out@[k]);
                            }
                        }
                    }
                    has_global = has_global || is_global;
                }
            }
            i += 1;
        }
        proof {
            assert(groups@.take(groups.len() as int) =~= groups@);
        }
    }
    proof {
        let views_out = out@.map_values(|p: RuntimeProxyGroupPreview| preview_view(p));
        assert(views_out == groups_model);
        if has_global {
            let k = choose|k: int| 0 <= k < out@.len() && #[trigger] out@[k].name@ == "GLOBAL"@;
            assert(groups_model[k].0 == "GLOBAL"@);
        } else {
            assert forall|i: int| 0 <= i < groups_model.len() implies groups_model[i].0 != "GLOBAL"@ by {
                assert(groups_model[i] == preview_view(out@[i]));
            }
        }
    }
    if !has_global {
        let p = RuntimeProxyGroupPreview {
            name: owned("GLOBAL"),
            now: owned("未预选"),
            nodes: root_proxy_names_exec(m),
        };
        let ghost before = out@;
        out.push(p);
        proof {
            assert(out@.map_values(|p: RuntimeProxyGroupPreview| preview_view(p)) =~= before.map_values(
                |p: RuntimeProxyGroupPreview| preview_view(p),
            ).push(preview_view(p)));
            assert(out@.map_values(|p: RuntimeProxyGroupPreview| preview_view(p)) == runtime_preview(m@));
        }
    } else {
        proof {
            let k = choose|k: int| 0 <= k < out@.len() && #[trigger] out@[k].name@ == "GLOBAL"@;
            assert(groups_model[k].0 == "GLOBAL"@);
            assert(names_group(groups_model, "GLOBAL"@));
        }
    }
    Ok(out)
}

/// The rows of a parsed runtime configuration's groups, shown before the
/// core serves them (offline).
pub fn runtime_proxy_groups_from_document(root: &YamlNode) -> (r: Result<Vec<ProxyGroupRow>, String>)
    ensures
        match r {
            Ok(v) => root matches YamlNode::Mapping(m) && v@.len() == runtime_preview(m@).len() && (
            forall|i: int|
                0 <= i < v@.len() ==> row_view(#[trigger] v@[i]) == (
                    runtime_preview(m@)[i].0,
                    runtime_preview(m@)[i].1,
                    runtime_preview(m@)[i].2,
                    true,
                )),
            Err(e) => !(root is Mapping) && e@ == "runtime yaml root is not a mapping"@,
        },
{
    match runtime_proxy_group_previews(root) {
        Ok(groups) => {
            let ghost previews = groups@;
            let rows = proxy_group_rows_from_runtime_preview(groups);
            proof {
                assert forall|i: int| 0 <= i < rows@.len() implies row_view(#[trigger] rows@[i]) == (
                    previews.map_values(|p: RuntimeProxyGroupPreview| preview_view(p))[i].0,
                    previews.map_values(|p: RuntimeProxyGroupPreview| preview_view(p))[i].1,
                    previews.map_values(|p: RuntimeProxyGroupPreview| preview_view(p))[i].2,
                    true,
                ) by {
                    assert(row_view(rows@[i]) == (
                        previews[i].name@,
                        previews[i].now@,
                        views(previews[i].nodes@),
                        true,
                    ));
                }
            }
            Ok(rows)
        },
        Err(e) => Err(e),
    }
}

#[verifier::external_type_specification]
#[verifier::external_body]
pub struct ExYamlValue(serde_yaml_ng::Value);

/// The document `serde_yaml_ng::from_str` reads from a text, as a
/// `YamlNode`, or `None` where the text is no YAML document.
pub uninterp spec fn yaml_document(text: Seq<char>) -> Option<YamlNode>;

/// Turns a `serde_yaml_ng::Value` into a `YamlNode`, variant by variant:
/// numbers as they print, a tagged value as the value under the tag (as
/// the value's accessors read it), a tagged mapping key with its tag.
#[verifier::external_body]
pub(crate) fn yaml_node(v: &serde_yaml_ng::Value) -> YamlNode {
    match v {
        serde_yaml_ng::Value::Null => YamlNode::Null,
        serde_yaml_ng::Value::Bool(b) => YamlNode::Bool(*b),
        serde_yaml_ng::Value::Number(n) => YamlNode::Number(n.to_string()),
        serde_yaml_ng::Value::String(t) => YamlNode::Text(t.clone()),
        serde_yaml_ng::Value::Sequence(items) => YamlNode::List(items.iter().map(yaml_node).collect()),
        serde_yaml_ng::Value::Mapping(m) => YamlNode::Mapping(m.iter().map(|(k, x)| (yaml_key(k), yaml_node(x))).collect()),
        serde_yaml_ng::Value::Tagged(t) => yaml_node(&t.value),
    }
}

/// Turns a mapping key into a `YamlNode`, keeping its tags.
#[verifier::external_body]
fn yaml_key(k: &serde_yaml_ng::Value) -> YamlNode {
    match k {
        serde_yaml_ng::Value::Tagged(t) => YamlNode::Tagged(t.tag.to_string(), Box::new(yaml_key(&t.value))),
        other => yaml_node(other),
    }
}

/// Calls `serde_yaml_ng::from_str::<serde_yaml_ng::Value>` on the text.
/// The contract names the document it reads; how YAML is parsed is left
/// to that name.
#[verifier::external_body]
fn parse_yaml(text: &str) -> (r: Option<YamlNode>)
    ensures
        r == yaml_document(text@),
{
    match serde_yaml_ng::from_str::<serde_yaml_ng::Value>(text) {
        Ok(v) => Some(yaml_node(&v)),
        Err(_) => None,
    }
}

/// Summarises the text of a runtime configuration: it must be a YAML
/// document whose root is a mapping.
pub fn runtime_proxy_summary_from_yaml(content: &str) -> (r: Result<RuntimeProxySummary, String>)
    ensures
        match yaml_document(content@) {
            None => r matches Err(e) && e@ == "failed to parse runtime yaml"@,
            Some(root) => match r {
                Ok(s) => root matches YamlNode::Mapping(m) && summary_of(s, m@),
                Err(e) => !(root is Mapping) && e@ == "runtime yaml root is not a mapping"@,
            },
        },
{
    match parse_yaml(content) {
        None => Err(owned("failed to parse runtime yaml")),
        Some(root) => runtime_proxy_summary_from_document(&root),
    }
}

/// The offline rows of the groups in the text of a runtime configuration:
/// it must be a YAML document whose root is a mapping.
pub fn runtime_proxy_groups_from_yaml(content: &str) -> (r: Result<Vec<ProxyGroupRow>, String>)
    ensures
        match yaml_document(content@) {
            None => r matches Err(e) && e@ == "failed to parse runtime yaml"@,
            Some(root) => match r {
                Ok(v) => root matches YamlNode::Mapping(m) && v@.len() == runtime_preview(m@).len() && (
                forall|i: int|
                    0 <= i < v@.len() ==> row_view(#[trigger] v@[i]) == (
                        runtime_preview(m@)[i].0,
                        runtime_preview(m@)[i].1,
                        runtime_preview(m@)[i].2,
                        true,
                    )),
                Err(e) => !(root is Mapping) && e@ == "runtime yaml root is not a mapping"@,
            },
        },
{
    match parse_yaml(content) {
        None => Err(owned("failed to parse runtime yaml")),
        Some(root) => runtime_proxy_groups_from_document(&root),
    }
}

} // verus!
