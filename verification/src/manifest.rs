//! The package manifest: the document packaging writes, what package
//! verification reads from it, and whether two manifests agree apart from
//! their archive entry.
use vstd::prelude::*;
use vstd::string::*;
use crate::strs::{owned, str_eq, views};
use crate::xtask::{field_of, json_field, json_text, parse_json, text_of, json_document, JsonNode};

verus! {

/// The entry under `key` of an object (`None` for anything else).
pub open spec fn json_get(n: JsonNode, key: Seq<char>) -> Option<JsonNode> {
    match n {
        JsonNode::Object(e) => json_field(e@, key),
        _ => None,
    }
}

/// The text under `inner` of the entry under `outer`.
pub open spec fn json_path_text(n: JsonNode, outer: Seq<char>, inner: Seq<char>) -> Option<Seq<char>> {
    match json_get(n, outer) {
        Some(o) => json_text(o, inner),
        None => None,
    }
}

pub open spec fn text_or(t: Option<Seq<char>>, d: Seq<char>) -> Seq<char> {
    match t {
        Some(x) => x,
        None => d,
    }
}

/// The text items of a list, in order; other items are left out.
pub open spec fn json_strings(l: Seq<JsonNode>) -> Seq<Seq<char>>
    decreases l.len(),
{
    if l.len() == 0 {
        Seq::empty()
    } else {
        let rest = json_strings(l.drop_last());
        match l.last() {
            JsonNode::Text(t) => rest.push(t@),
            _ => rest,
        }
    }
}

/// Reads the text of a manifest file as JSON.
pub fn manifest_document(content: &str) -> (r: Result<JsonNode, String>)
    ensures
        match r {
            Ok(d) => json_document(content.spec_bytes()) == Ok::<JsonNode, Seq<char>>(d),
            Err(e) => json_document(content.spec_bytes()) == Err::<JsonNode, Seq<char>>(e@),
        },
{
    parse_json(content.as_bytes())
}

/// The entry under `key` of the manifest, if it is an object holding one.
pub fn manifest_entry<'a>(n: &'a JsonNode, key: &str) -> (r: Option<&'a JsonNode>)
    ensures
        match r {
            Some(x) => json_get(*n, key@) == Some(*x),
            None => json_get(*n, key@) is None,
        },
{
    match n {
        JsonNode::Object(e) => field_of(e, key),
        _ => None,
    }
}

/// The text under `key` of the manifest, if it holds one there.
pub fn manifest_text(doc: &JsonNode, key: &str) -> (r: Option<String>)
    ensures
        match r {
            Some(t) => json_text(*doc, key@) == Some(t@),
            None => json_text(*doc, key@) is None,
        },
{
    text_of(doc, key)
}

/// Whether the manifest records a clean source tree: `gitDirty` is `false`.
pub fn manifest_source_clean(doc: &JsonNode) -> (r: bool)
    ensures
        r == (json_get(*doc, "gitDirty"@) == Some(JsonNode::Bool(false))),
{
    match manifest_entry(doc, "gitDirty") {
        Some(JsonNode::Bool(b)) => !*b,
        _ => false,
    }
}

/// The text under `inner` of the entry under `outer`, or `default`.
pub fn manifest_path_text(doc: &JsonNode, outer: &str, inner: &str, default: &str) -> (r: String)
    ensures
        r@ == text_or(json_path_text(*doc, outer@, inner@), default@),
{
    match manifest_entry(doc, outer) {
        Some(o) => match text_of(o, inner) {
            Some(t) => t,
            None => owned(default),
        },
        None => owned(default),
    }
}

/// The archive SHA the manifest records for itself: `None` without an
/// `archive` entry, else its `sha256` text (empty when it has none).
pub fn manifest_archive_sha(doc: &JsonNode) -> (r: Option<String>)
    ensures
        match json_get(*doc, "archive"@) {
            None => r is None,
            Some(a) => r matches Some(s) && s@ == text_or(json_text(a, "sha256"@), Seq::empty()),
        },
{
    match manifest_entry(doc, "archive") {
        Some(a) => match text_of(a, "sha256") {
            Some(t) => Some(t),
            None => Some(String::new()),
        },
        None => None,
    }
}

fn strings_of(l: &Vec<JsonNode>) -> (r: Vec<String>)
    ensures
        views(r@) == json_strings(l@),
{
    let mut out: Vec<String> = Vec::new();
    let mut i: usize = 0;
    while i < l.len()
        invariant
            i <= l.len(),
            views(out@) == json_strings(l@.take(i as int)),
        decreases l.len() - i,
    {
        proof {
            assert(l@.take(i + 1).drop_last() =~= l@.take(i as int));
        }
        match &l[i] {
            JsonNode::Text(t) => {
                let ghost before = out@;
                out.push(owned(t.as_str()));
                proof {
                    assert(views(out@) =~= views(before).push(t@));
                }
            },
            _ => {},
        }
        i += 1;
    }
    proof {
        assert(l@.take(l.len() as int) =~= l@);
    }
    out
}

/// The files the manifest lists under `packageFiles` (its text items).
pub fn manifest_package_files(doc: &JsonNode) -> (r: Vec<String>)
    ensures
        views(r@) == (match json_get(*doc, "packageFiles"@) {
            Some(JsonNode::List(l)) => json_strings(l@),
            _ => Seq::empty(),
        }),
{
    match manifest_entry(doc, "packageFiles") {
        Some(JsonNode::List(l)) => strings_of(l),
        _ => {
            let v: Vec<String> = Vec::new();
            proof {
                assert(views(v@) =~= Seq::<Seq<char>>::empty());
            }
            v
        },
    }
}

/// A geo resource of the manifest: its file and SHA texts (empty when
/// missing).
pub open spec fn geo_entry(n: JsonNode) -> (Seq<char>, Seq<char>) {
    (text_or(json_text(n, "file"@), Seq::empty()), text_or(json_text(n, "sha256"@), Seq::empty()))
}

pub open spec fn pair_views(v: Seq<(String, String)>) -> Seq<(Seq<char>, Seq<char>)> {
    v.map_values(|p: (String, String)| (p.0@, p.1@))
}

/// The geo resources the manifest lists under `geoResources`.
pub fn manifest_geo_resources(doc: &JsonNode) -> (r: Vec<(String, String)>)
    ensures
        pair_views(r@) == (match json_get(*doc, "geoResources"@) {
            Some(JsonNode::List(l)) => l@.map_values(|n: JsonNode| geo_entry(n)),
            _ => Seq::empty(),
        }),
{
    let mut out: Vec<(String, String)> = Vec::new();
    match manifest_entry(doc, "geoResources") {
        Some(JsonNode::List(l)) => {
            let ghost target = l@.map_values(|n: JsonNode| geo_entry(n));
            let mut i: usize = 0;
            while i < l.len()
                invariant
                    i <= l.len(),
                    target == l@.map_values(|n: JsonNode| geo_entry(n)),
                    pair_views(out@) == target.take(i as int),
                decreases l.len() - i,
            {
                let file = match text_of(&l[i], "file") {
                    Some(t) => t,
                    None => String::new(),
                };
                let sha = match text_of(&l[i], "sha256") {
                    Some(t) => t,
                    None => String::new(),
                };
                let ghost before = pair_views(out@);
                out.push((file, sha));
                proof {
                    assert(pair_views(out@) =~= before.push(geo_entry(l@[i as int])));
                    assert(target.take(i + 1) =~= target.take(i as int).push(target[i as int]));
                }
                i += 1;
            }
            proof {
                assert(target.take(l.len() as int) =~= target);
            }
            out
        },
        _ => {
            proof {
                assert(pair_views(out@) =~= Seq::<(Seq<char>, Seq<char>)>::empty());
            }
            out
        },
    }
}

/// Two documents are the same: same kinds, same scalars and texts, lists
/// item by item, objects entry by entry (the parser gives an object's
/// entries in key order).
pub open spec fn json_same(a: JsonNode, b: JsonNode) -> bool
    decreases a,
{
    match a {
        JsonNode::Null => b is Null,
        JsonNode::Bool(x) => b matches JsonNode::Bool(y) && x == y,
        JsonNode::Number(x) => b matches JsonNode::Number(y) && x@ == y@,
        JsonNode::Text(x) => b matches JsonNode::Text(y) && x@ == y@,
        JsonNode::List(x) => b matches JsonNode::List(y) && items_same(x@, y@),
        JsonNode::Object(x) => b matches JsonNode::Object(y) && entries_same(x@, y@),
    }
}

/// Two lists hold the same items in the same order.
pub open spec fn items_same(x: Seq<JsonNode>, y: Seq<JsonNode>) -> bool
    decreases x,
{
    x.len() == y.len() && forall|i: int| 0 <= i < x.len() ==> json_same(#[trigger] x[i], y[i])
}

/// Two entries have the same key and the same value.
pub open spec fn entry_same(p: (String, JsonNode), q: (String, JsonNode)) -> bool
    decreases p,
{
    p.0@ == q.0@ && json_same(p.1, q.1)
}

/// Two entry lists name the same keys in the same order with the same
/// values.
pub open spec fn entries_same(x: Seq<(String, JsonNode)>, y: Seq<(String, JsonNode)>) -> bool
    decreases x,
{
    x.len() == y.len() && forall|i: int| 0 <= i < x.len() ==> entry_same(#[trigger] x[i], y[i])
}

fn same_json(a: &JsonNode, b: &JsonNode) -> (r: bool)
    ensures
        r == json_same(*a, *b),
    decreases *a,
{
    match a {
        JsonNode::Null => matches!(b, JsonNode::Null),
        JsonNode::Bool(x) => match b {
            JsonNode::Bool(y) => *x == *y,
            _ => false,
        },
        JsonNode::Number(x) => match b {
            JsonNode::Number(y) => str_eq(x.as_str(), y.as_str()),
            _ => false,
        },
        JsonNode::Text(x) => match b {
            JsonNode::Text(y) => str_eq(x.as_str(), y.as_str()),
            _ => false,
        },
        JsonNode::List(x) => match b {
            JsonNode::List(y) => {
                proof {
                    assert(decreases_to!(*a => x@));
                }
                same_items(x, y)
            },
            _ => false,
        },
        JsonNode::Object(x) => match b {
            JsonNode::Object(y) => {
                proof {
                    assert(decreases_to!(*a => x@));
                }
                same_entries(x, y)
            },
            _ => false,
        },
    }
}

fn same_items(x: &Vec<JsonNode>, y: &Vec<JsonNode>) -> (r: bool)
    ensures
        r == items_same(x@, y@),
    decreases x@,
{
    if x.len() != y.len() {
        return false;
    }
    let mut i: usize = 0;
    while i < x.len()
        invariant
            i <= x.len() == y.len(),
            forall|k: int| 0 <= k < i ==> json_same(#[trigger] x@[k], y@[k]),
        decreases x.len() - i,
    {
        proof {
            assert(decreases_to!(x@ => x@[i as int]));
        }
        if !same_json(&x[i], &y[i]) {
            return false;
        }
        i += 1;
    }
    true
}

fn same_entries(x: &Vec<(String, JsonNode)>, y: &Vec<(String, JsonNode)>) -> (r: bool)
    ensures
        r == entries_same(x@, y@),
    decreases x@,
{
    if x.len() != y.len() {
        return false;
    }
    let mut i: usize = 0;
    while i < x.len()
        invariant
            i <= x.len() == y.len(),
            forall|k: int| 0 <= k < i ==> entry_same(#[trigger] x@[k], y@[k]),
        decreases x.len() - i,
    {
        if !str_eq(x[i].0.as_str(), y[i].0.as_str()) {
            return false;
        }
        proof {
            assert(decreases_to!(x@ => x@[i as int].1));
        }
        let same = same_json(&x[i].1, &y[i].1);
        if !same {
            return false;
        }
        assert(entry_same(x@[i as int], y@[i as int]));
        i += 1;
    }
    true
}

/// The entries other than those under `key`, in order.
pub open spec fn drop_key(e: Seq<(String, JsonNode)>, key: Seq<char>) -> Seq<(String, JsonNode)>
    decreases e.len(),
{
    if e.len() == 0 {
        Seq::empty()
    } else {
        let rest = drop_key(e.drop_last(), key);
        if e.last().0@ == key {
            rest
        } else {
            rest.push(e.last())
        }
    }
}

/// Two manifests agree apart from their `archive` entry: objects are
/// compared without it, anything else as it is.
pub open spec fn same_except_archive(a: JsonNode, b: JsonNode) -> bool {
    match a {
        JsonNode::Object(x) => b matches JsonNode::Object(y) && entries_same(
            drop_key(x@, "archive"@),
            drop_key(y@, "archive"@),
        ),
        _ => json_same(a, b),
    }
}

/// `r` lists, in order, where each item of `d` stands in `x`.
pub open spec fn indexes_of(r: Seq<usize>, d: Seq<(String, JsonNode)>, x: Seq<(String, JsonNode)>) -> bool {
    &&& r.len() == d.len()
    &&& forall|t: int| #![trigger r[t]] 0 <= t < r.len() ==> r[t] < x.len() && d[t] == x[r[t] as int]
}

fn kept_indices(x: &Vec<(String, JsonNode)>, key: &str) -> (r: Vec<usize>)
    ensures
        indexes_of(r@, drop_key(x@, key@), x@),
{
    let mut out: Vec<usize> = Vec::new();
    let mut i: usize = 0;
    proof {
        assert(x@.take(0) =~= Seq::<(String, JsonNode)>::empty());
    }
    while i < x.len()
        invariant
            i <= x.len(),
            indexes_of(out@, drop_key(x@.take(i as int), key@), x@),
            forall|t: int| #![trigger out@[t]] 0 <= t < out@.len() ==> out@[t] < i,
        decreases x.len() - i,
    {
        proof {
            assert(x@.take(i + 1).drop_last() =~= x@.take(i as int));
            assert(x@.take(i + 1).last() == x@[i as int]);
        }
        let ghost before = drop_key(x@.take(i as int), key@);
        let ghost old_out = out@;
        if !str_eq(x[i].0.as_str(), key) {
            out.push(i);
            proof {
                let d = drop_key(x@.take(i + 1), key@);
                assert(d == before.push(x@[i as int]));
                assert forall|t: int| #![trigger out@[t]] 0 <= t < out@.len() implies out@[t] < x@.len()
                    && d[t] == x@[out@[t] as int] && out@[t] < i + 1 by {
                    if t < old_out.len() {
                        assert(old_out[t] == out@[t]);
                        assert(before[t] == x@[old_out[t] as int]);
                    }
                }
            }
        } else {
            proof {
                assert(drop_key(x@.take(i + 1), key@) == before);
            }
        }
        i += 1;
    }
    proof {
        assert(x@.take(x.len() as int) =~= x@);
    }
    out
}

/// Whether a sidecar manifest agrees with the manifest inside the archive
/// apart from their `archive` entries.
pub fn manifests_match_except_archive(a: &JsonNode, b: &JsonNode) -> (r: bool)
    ensures
        r == same_except_archive(*a, *b),
{
    match a {
        JsonNode::Object(x) => match b {
            JsonNode::Object(y) => {
                let ix = kept_indices(x, "archive");
                let iy = kept_indices(y, "archive");
                let ghost dx = drop_key(x@, "archive"@);
                let ghost dy = drop_key(y@, "archive"@);
                if ix.len() != iy.len() {
                    return false;
                }
                let mut t: usize = 0;
                while t < ix.len()
                    invariant
                        t <= ix.len() == iy.len(),
                        *a == JsonNode::Object(*x),
                        *b == JsonNode::Object(*y),
                        dx == drop_key(x@, "archive"@),
                        dy == drop_key(y@, "archive"@),
                        indexes_of(ix@, dx, x@),
                        indexes_of(iy@, dy, y@),
                        forall|k: int| 0 <= k < t ==> entry_same(#[trigger] dx[k], dy[k]),
                    decreases ix.len() - t,
                {
                    let pi = ix[t];
                    let qi = iy[t];
                    let p = &x[pi];
                    let q = &y[qi];
                    proof {
                        assert(dx[t as int] == *p);
                        assert(dy[t as int] == *q);
                    }
                    if !str_eq(p.0.as_str(), q.0.as_str()) {
                        proof {
                            assert(!entry_same(dx[t as int], dy[t as int]));
                            assert(!entries_same(dx, dy));
                        }
                        return false;
                    }
                    if !same_json(&p.1, &q.1) {
                        proof {
                            assert(!entry_same(dx[t as int], dy[t as int]));
                            assert(!entries_same(dx, dy));
                        }
                        return false;
                    }
                    proof {
                        assert(entry_same(dx[t as int], dy[t as int]));
                    }
                    t += 1;
                }
                true
            },
            _ => false,
        },
        _ => same_json(a, b),
    }
}

/// The bundled core as the manifest records it.
#[derive(Debug, Clone, PartialEq, Eq)]
pub struct MihomoEntry {
    pub source: String,
    pub version: String,
    pub download_url: Option<String>,
    pub archive_sha256: Option<String>,
    pub sha256: String,
}

/// A bundled geo resource as the manifest records it.
#[derive(Debug, Clone, PartialEq, Eq)]
pub struct GeoEntry {
    pub file: String,
    pub source: String,
    pub download_url: Option<String>,
    pub sha256: String,
}

/// What a package manifest records.
#[derive(Debug, Clone, PartialEq, Eq)]
pub struct ManifestInputs {
    pub package_name: String,
    pub created_at: String,
    pub git_commit: String,
    pub git_dirty: bool,
    pub target: String,
    pub docker_platform: String,
    pub app_version: String,
    pub binary_sha256: String,
    pub mihomo: MihomoEntry,
    pub geo: Vec<GeoEntry>,
}

/// The node is the text `v`.
pub open spec fn text_node(n: JsonNode, v: Seq<char>) -> bool {
    n matches JsonNode::Text(t) && t@ == v
}

/// The node is the text `v`, or null when there is none.
pub open spec fn opt_text_node(n: JsonNode, v: Option<String>) -> bool {
    match v {
        Some(t) => text_node(n, t@),
        None => n is Null,
    }
}

/// The entry is named `key` and holds the text `v`.
pub open spec fn text_entry(p: (String, JsonNode), key: Seq<char>, v: Seq<char>) -> bool {
    p.0@ == key && text_node(p.1, v)
}

/// The node records a geo resource: its file, source, download URL and
/// SHA, in that order.
pub open spec fn geo_node(n: JsonNode, g: GeoEntry) -> bool {
    n matches JsonNode::Object(e) && e@.len() == 4 && text_entry(e@[0], "file"@, g.file@) && text_entry(
        e@[1],
        "source"@,
        g.source@,
    ) && e@[2].0@ == "downloadUrl"@ && opt_text_node(e@[2].1, g.download_url) && text_entry(
        e@[3],
        "sha256"@,
        g.sha256@,
    )
}

/// The node records the bundled core.
pub open spec fn mihomo_node(n: JsonNode, m: MihomoEntry) -> bool {
    n matches JsonNode::Object(e) && e@.len() == 6 && text_entry(e@[0], "binary"@, "resources/mihomo"@)
        && text_entry(e@[1], "source"@, m.source@) && text_entry(e@[2], "version"@, m.version@) && e@[3].0@
        == "downloadUrl"@ && opt_text_node(e@[3].1, m.download_url) && e@[4].0@ == "archiveSha256"@
        && opt_text_node(e@[4].1, m.archive_sha256) && text_entry(e@[5], "sha256"@, m.sha256@)
}

/// The files every package lists.
pub open spec fn listed_package_files() -> Seq<Seq<char>> {
    seq![
        "README.md"@,
        "env.example"@,
        "install.sh"@,
        "tools/clash-tui-system-proxy-gnome-acceptance.sh"@,
        "tools/clash-tui-system-proxy-gnome-smoke.py"@,
        "tools/clash-tui-tun-linux-smoke.py"@,
        "systemd/clash-tui.service"@,
    ]
}

/// The entries of an object (none for anything else).
pub open spec fn entries_of(n: JsonNode) -> Seq<(String, JsonNode)> {
    match n {
        JsonNode::Object(e) => e@,
        _ => Seq::empty(),
    }
}

/// The items of a list (none for anything else).
pub open spec fn items_of(n: JsonNode) -> Seq<JsonNode> {
    match n {
        JsonNode::List(l) => l@,
        _ => Seq::empty(),
    }
}

/// The node is the number written `v`.
pub open spec fn number_node(n: JsonNode, v: Seq<char>) -> bool {
    n matches JsonNode::Number(x) && x@ == v
}

/// The node is the package manifest of `i`: schema version 1, the package
/// name, creation time, commit, whether the tree was dirty, target, Docker
/// platform, versions, the client binary, the core, the geo resources, the
/// install entry and the listed files, in that order.
pub open spec fn manifest_node(n: JsonNode, i: ManifestInputs) -> bool {
    let e = entries_of(n);
    let versions = entries_of(e[7].1);
    let client = entries_of(e[8].1);
    let geo = items_of(e[10].1);
    let install = entries_of(e[11].1);
    let files = items_of(e[12].1);
    &&& n is Object
    &&& e.len() == 13
    &&& e[0].0@ == "schemaVersion"@ && number_node(e[0].1, "1"@)
    &&& text_entry(e[1], "packageName"@, i.package_name@)
    &&& text_entry(e[2], "createdAt"@, i.created_at@)
    &&& text_entry(e[3], "gitCommit"@, i.git_commit@)
    &&& e[4].0@ == "gitDirty"@ && e[4].1 == JsonNode::Bool(i.git_dirty)
    &&& text_entry(e[5], "target"@, i.target@)
    &&& text_entry(e[6], "dockerPlatform"@, i.docker_platform@)
    &&& e[7].0@ == "versions"@ && e[7].1 is Object && versions.len() == 1
    &&& text_entry(versions[0], "app"@, i.app_version@)
    &&& e[8].0@ == "clashTui"@ && e[8].1 is Object && client.len() == 2
    &&& text_entry(client[0], "binary"@, "clash-tui"@) && text_entry(client[1], "sha256"@, i.binary_sha256@)
    &&& e[9].0@ == "mihomo"@ && mihomo_node(e[9].1, i.mihomo)
    &&& e[10].0@ == "geoResources"@ && e[10].1 is List && geo.len() == i.geo@.len()
    &&& forall|k: int| 0 <= k < geo.len() ==> geo_node(#[trigger] geo[k], i.geo@[k])
    &&& e[11].0@ == "installEntry"@ && e[11].1 is Object && install.len() == 3
    &&& text_entry(install[0], "pathDefault"@, "/usr/local/bin/clash-tui"@)
    &&& text_entry(install[1], "type"@, "symlink"@)
    &&& text_entry(install[2], "layoutFile"@, "install-layout.env"@)
    &&& e[12].0@ == "packageFiles"@ && e[12].1 is List && files.len() == 7
    &&& forall|k: int| 0 <= k < 7 ==> text_node(#[trigger] files[k], listed_package_files()[k])
}

fn text(v: &str) -> (r: JsonNode)
    ensures
        text_node(r, v@),
{
    JsonNode::Text(owned(v))
}

fn opt_text(v: &Option<String>) -> (r: JsonNode)
    ensures
        opt_text_node(r, *v),
{
    match v {
        Some(t) => JsonNode::Text(owned(t.as_str())),
        None => JsonNode::Null,
    }
}

fn entry(key: &str, value: JsonNode) -> (r: (String, JsonNode))
    ensures
        r.0@ == key@,
        r.1 == value,
{
    (owned(key), value)
}

fn geo_list(geo: &Vec<GeoEntry>) -> (r: Vec<JsonNode>)
    ensures
        r@.len() == geo@.len(),
        forall|k: int| 0 <= k < r@.len() ==> geo_node(#[trigger] r@[k], geo@[k]),
{
    let mut out: Vec<JsonNode> = Vec::new();
    let mut i: usize = 0;
    while i < geo.len()
        invariant
            i <= geo.len(),
            out@.len() == i,
            forall|k: int| 0 <= k < i ==> geo_node(#[trigger] out@[k], geo@[k]),
        decreases geo.len() - i,
    {
        let g = &geo[i];
        let e = vec![
            entry("file", text(g.file.as_str())),
            entry("source", text(g.source.as_str())),
            entry("downloadUrl", opt_text(&g.download_url)),
            entry("sha256", text(g.sha256.as_str())),
        ];
        let node = JsonNode::Object(e);
        assert(geo_node(node, geo@[i as int]));
        out.push(node);
        i += 1;
    }
    out
}

/// The package manifest that packaging writes for `inputs`.
pub fn package_manifest(inputs: &ManifestInputs) -> (r: JsonNode)
    ensures
        manifest_node(r, *inputs),
{
    let m = &inputs.mihomo;
    let mihomo = JsonNode::Object(
        vec![
            entry("binary", text("resources/mihomo")),
            entry("source", text(m.source.as_str())),
            entry("version", text(m.version.as_str())),
            entry("downloadUrl", opt_text(&m.download_url)),
            entry("archiveSha256", opt_text(&m.archive_sha256)),
            entry("sha256", text(m.sha256.as_str())),
        ],
    );
    assert(mihomo_node(mihomo, inputs.mihomo));
    let files = vec![
        text("README.md"),
        text("env.example"),
        text("install.sh"),
        text("tools/clash-tui-system-proxy-gnome-acceptance.sh"),
        text("tools/clash-tui-system-proxy-gnome-smoke.py"),
        text("tools/clash-tui-tun-linux-smoke.py"),
        text("systemd/clash-tui.service"),
    ];
    proof {
        assert forall|k: int| 0 <= k < 7 implies text_node(#[trigger] files@[k], listed_package_files()[k]) by {}
    }
    let geo = geo_list(&inputs.geo);
    let e = vec![
        entry("schemaVersion", JsonNode::Number(owned("1"))),
        entry("packageName", text(inputs.package_name.as_str())),
        entry("createdAt", text(inputs.created_at.as_str())),
        entry("gitCommit", text(inputs.git_commit.as_str())),
        entry("gitDirty", JsonNode::Bool(inputs.git_dirty)),
        entry("target", text(inputs.target.as_str())),
        entry("dockerPlatform", text(inputs.docker_platform.as_str())),
        entry("versions", JsonNode::Object(vec![entry("app", text(inputs.app_version.as_str()))])),
        entry(
            "clashTui",
            JsonNode::Object(vec![entry("binary", text("clash-tui")), entry("sha256", text(inputs.binary_sha256.as_str()))]),
        ),
        entry("mihomo", mihomo),
        entry("geoResources", JsonNode::List(geo)),
        entry(
            "installEntry",
            JsonNode::Object(
                vec![
                    entry("pathDefault", text("/usr/local/bin/clash-tui")),
                    entry("type", text("symlink")),
                    entry("layoutFile", text("install-layout.env")),
                ],
            ),
        ),
        entry("packageFiles", JsonNode::List(files)),
    ];
    JsonNode::Object(e)
}

/// The manifest with its `archive` entry set to the archive's file name
/// and SHA; an earlier `archive` entry is replaced.
pub fn manifest_with_archive(doc: JsonNode, file: &str, sha256: &str) -> (r: JsonNode)
    requires
        doc is Object,
    ensures
        r is Object,
        entries_of(r).len() == drop_key(entries_of(doc), "archive"@).len() + 1,
        entries_of(r).drop_last() == drop_key(entries_of(doc), "archive"@),
        entries_of(r).last().0@ == "archive"@,
        entries_of(r).last().1 is Object,
        entries_of(entries_of(r).last().1).len() == 2,
        text_entry(entries_of(entries_of(r).last().1)[0], "file"@, file@),
        text_entry(entries_of(entries_of(r).last().1)[1], "sha256"@, sha256@),
{
    let mut e = match doc {
        JsonNode::Object(e) => e,
        _ => Vec::new(),
    };
    let ghost orig = e@;
    let ghost mut taken: Seq<(String, JsonNode)> = Seq::empty();
    let mut kept: Vec<(String, JsonNode)> = Vec::new();
    proof {
        assert(orig =~= taken + e@);
    }
    while e.len() > 0
        invariant
            orig == taken + e@,
            kept@ == drop_key(taken, "archive"@),
        decreases e.len(),
    {
        let x = e.remove(0);
        proof {
            assert(taken.push(x).drop_last() =~= taken);
            taken = taken.push(x);
            assert(orig =~= taken + e@);
        }
        if !str_eq(x.0.as_str(), "archive") {
            kept.push(x);
        }
    }
    proof {
        assert(taken =~= orig);
    }
    let archive = JsonNode::Object(vec![entry("file", text(file)), entry("sha256", text(sha256))]);
    let ghost before = kept@;
    kept.push(entry("archive", archive));
    proof {
        assert(kept@.drop_last() =~= before);
    }
    JsonNode::Object(kept)
}

} // verus!
