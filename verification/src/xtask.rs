//! The build tasks: which task a command names, what each runs, and the
//! license check over the dependency metadata.
use vstd::prelude::*;
use crate::strs::{from_chars, join, join_strings, owned, push_str, push_usize, str_eq, to_chars, views, dec};
use crate::licenses::{license_atoms, license_atoms_of};
use crate::package::{help_text, xtask_usage};

verus! {

/// A build task.
#[derive(Debug, Clone, Copy, PartialEq, Eq, Structural)]
pub enum XtaskCommand {
    Help,
    Format,
    FormatCheck,
    ClashTuiCheck,
    ClashTuiTest,
    WorkspaceCheck,
    WorkspaceTest,
    Clippy,
    PolicyCheck,
    ScriptsCheck,
    ScriptsTest,
    Ci,
    Package,
    VerifyPackage,
    RemoteSmoke,
}

/// The task a command word names.
pub open spec fn command_named(name: Seq<char>) -> Option<XtaskCommand> {
    if name == "help"@ || name == "-h"@ || name == "--help"@ {
        Some(XtaskCommand::Help)
    } else if name == "format"@ {
        Some(XtaskCommand::Format)
    } else if name == "format-check"@ {
        Some(XtaskCommand::FormatCheck)
    } else if name == "clash-tui-check"@ {
        Some(XtaskCommand::ClashTuiCheck)
    } else if name == "clash-tui-test"@ {
        Some(XtaskCommand::ClashTuiTest)
    } else if name == "workspace-check"@ {
        Some(XtaskCommand::WorkspaceCheck)
    } else if name == "workspace-test"@ {
        Some(XtaskCommand::WorkspaceTest)
    } else if name == "clippy"@ {
        Some(XtaskCommand::Clippy)
    } else if name == "policy-check"@ {
        Some(XtaskCommand::PolicyCheck)
    } else if name == "scripts-check"@ {
        Some(XtaskCommand::ScriptsCheck)
    } else if name == "scripts-test"@ {
        Some(XtaskCommand::ScriptsTest)
    } else if name == "ci"@ {
        Some(XtaskCommand::Ci)
    } else if name == "package"@ || name == "clash-tui-package"@ {
        Some(XtaskCommand::Package)
    } else if name == "verify-package"@ || name == "clash-tui-verify-package"@ {
        Some(XtaskCommand::VerifyPackage)
    } else if name == "tui-remote-smoke"@ || name == "clash-tui-remote-smoke"@ {
        Some(XtaskCommand::RemoteSmoke)
    } else {
        None
    }
}

/// The task named by a command word, or the error that lists the tasks.
pub fn parse_command(name: &str) -> (r: Result<XtaskCommand, String>)
    ensures
        match command_named(name@) {
            Some(c) => r == Ok::<XtaskCommand, String>(c),
            None => r matches Err(e) && e@ == "unknown xtask command: "@ + name@ + "\n\n"@ + xtask_usage(),
        },
{
    if str_eq(name, "help") || str_eq(name, "-h") || str_eq(name, "--help") {
        Ok(XtaskCommand::Help)
    } else if str_eq(name, "format") {
        Ok(XtaskCommand::Format)
    } else if str_eq(name, "format-check") {
        Ok(XtaskCommand::FormatCheck)
    } else if str_eq(name, "clash-tui-check") {
        Ok(XtaskCommand::ClashTuiCheck)
    } else if str_eq(name, "clash-tui-test") {
        Ok(XtaskCommand::ClashTuiTest)
    } else if str_eq(name, "workspace-check") {
        Ok(XtaskCommand::WorkspaceCheck)
    } else if str_eq(name, "workspace-test") {
        Ok(XtaskCommand::WorkspaceTest)
    } else if str_eq(name, "clippy") {
        Ok(XtaskCommand::Clippy)
    } else if str_eq(name, "policy-check") {
        Ok(XtaskCommand::PolicyCheck)
    } else if str_eq(name, "scripts-check") {
        Ok(XtaskCommand::ScriptsCheck)
    } else if str_eq(name, "scripts-test") {
        Ok(XtaskCommand::ScriptsTest)
    } else if str_eq(name, "ci") {
        Ok(XtaskCommand::Ci)
    } else if str_eq(name, "package") || str_eq(name, "clash-tui-package") {
        Ok(XtaskCommand::Package)
    } else if str_eq(name, "verify-package") || str_eq(name, "clash-tui-verify-package") {
        Ok(XtaskCommand::VerifyPackage)
    } else if str_eq(name, "tui-remote-smoke") || str_eq(name, "clash-tui-remote-smoke") {
        Ok(XtaskCommand::RemoteSmoke)
    } else {
        let mut v = to_chars("unknown xtask command: ");
        push_str(&mut v, name);
        push_str(&mut v, "\n\n");
        push_str(&mut v, help_text());
        Err(from_chars(&v))
    }
}

/// The arguments of `cargo` for the tasks that are one cargo run.
pub open spec fn cargo_args_of(c: XtaskCommand) -> Option<Seq<Seq<char>>> {
    match c {
        XtaskCommand::Format => Some(seq!["fmt"@, "--all"@]),
        XtaskCommand::FormatCheck => Some(seq!["fmt"@, "--all"@, "--check"@]),
        XtaskCommand::ClashTuiCheck => Some(seq!["check"@, "-p"@, "clash-tui"@]),
        XtaskCommand::ClashTuiTest => Some(seq!["test"@, "-p"@, "clash-tui"@]),
        XtaskCommand::WorkspaceCheck => Some(seq!["check"@, "--workspace"@, "--all-targets"@]),
        XtaskCommand::WorkspaceTest => Some(seq!["test"@, "--workspace"@]),
        XtaskCommand::Clippy => Some(seq!["clippy"@, "--workspace"@, "--all-targets"@, "--all-features"@]),
        _ => None,
    }
}

/// The texts of a sequence of string slices.
pub open spec fn str_views(items: Seq<&str>) -> Seq<Seq<char>> {
    items.map_values(|s: &str| s@)
}

fn strings(items: &[&str]) -> (r: Vec<String>)
    ensures
        views(r@) == str_views(items@),
{
    let mut r: Vec<String> = Vec::new();
    let mut i: usize = 0;
    while i < items.len()
        invariant
            i <= items.len(),
            views(r@) == str_views(items@.take(i as int)),
        decreases items.len() - i,
    {
        let x = owned(items[i]);
        let ghost before = views(r@);
        r.push(x);
        proof {
            assert(views(r@) =~= before.push(x@));
            assert(str_views(items@.take(i + 1)) =~= str_views(items@.take(i as int)).push(items@[i as int]@));
        }
        i += 1;
    }
    proof {
        assert(items@.take(items.len() as int) =~= items@);
    }
    r
}

/// The `cargo` arguments of a task that is one cargo run, else `None`.
pub fn cargo_args(c: XtaskCommand) -> (r: Option<Vec<String>>)
    ensures
        match cargo_args_of(c) {
            Some(a) => r matches Some(v) && views(v@) == a,
            None => r is None,
        },
{
    let items: Option<Vec<&str>> = match c {
        XtaskCommand::Format => Some(vec!["fmt", "--all"]),
        XtaskCommand::FormatCheck => Some(vec!["fmt", "--all", "--check"]),
        XtaskCommand::ClashTuiCheck => Some(vec!["check", "-p", "clash-tui"]),
        XtaskCommand::ClashTuiTest => Some(vec!["test", "-p", "clash-tui"]),
        XtaskCommand::WorkspaceCheck => Some(vec!["check", "--workspace", "--all-targets"]),
        XtaskCommand::WorkspaceTest => Some(vec!["test", "--workspace"]),
        XtaskCommand::Clippy => Some(vec!["clippy", "--workspace", "--all-targets", "--all-features"]),
        _ => None,
    };
    match items {
        Some(v) => {
            let r = strings(v.as_slice());
            proof {
                assert(views(r@) =~= cargo_args_of(c).unwrap());
            }
            Some(r)
        },
        None => None,
    }
}

/// The steps of the full local gate, in order.
pub open spec fn ci_steps_of() -> Seq<XtaskCommand> {
    seq![
        XtaskCommand::FormatCheck,
        XtaskCommand::WorkspaceCheck,
        XtaskCommand::PolicyCheck,
        XtaskCommand::Clippy,
        XtaskCommand::ScriptsCheck,
        XtaskCommand::ScriptsTest,
        XtaskCommand::WorkspaceTest,
    ]
}

/// The steps of the full local gate: format check, workspace check,
/// policy check, clippy, script checks and tests, then the workspace tests.
pub fn ci_steps() -> (r: Vec<XtaskCommand>)
    ensures
        r@ == ci_steps_of(),
{
    let r = vec![
        XtaskCommand::FormatCheck,
        XtaskCommand::WorkspaceCheck,
        XtaskCommand::PolicyCheck,
        XtaskCommand::Clippy,
        XtaskCommand::ScriptsCheck,
        XtaskCommand::ScriptsTest,
        XtaskCommand::WorkspaceTest,
    ];
    proof {
        assert(r@ =~= ci_steps_of());
    }
    r
}

/// A command line as shown before it runs: the program and its
/// arguments, separated by spaces.
pub fn display_command(program: &str, args: &[String]) -> (r: String)
    ensures
        r@ == join(seq![program@] + views(args@), " "@),
{
    let mut parts: Vec<String> = Vec::new();
    parts.push(owned(program));
    let mut i: usize = 0;
    while i < args.len()
        invariant
            i <= args.len(),
            views(parts@) == seq![program@] + views(args@.take(i as int)),
        decreases args.len() - i,
    {
        let x = owned(args[i].as_str());
        let ghost before = views(parts@);
        parts.push(x);
        proof {
            assert(views(parts@) =~= before.push(x@));
            assert(views(args@.take(i + 1)) =~= views(args@.take(i as int)).push(args@[i as int]@));
            assert(views(parts@) =~= seq![program@] + views(args@.take(i + 1)));
        }
        i += 1;
    }
    proof {
        assert(args@.take(args.len() as int) =~= args@);
    }
    join_strings(&parts, " ")
}

/// `name@version` of a package, each part `<unknown>` where absent.
pub fn package_id(name: Option<&str>, version: Option<&str>) -> (r: String)
    ensures
        r@ == (match name {
            Some(n) => n@,
            None => "<unknown>"@,
        }) + "@"@ + (match version {
            Some(v) => v@,
            None => "<unknown>"@,
        }),
{
    let mut v = match name {
        Some(n) => to_chars(n),
        None => to_chars("<unknown>"),
    };
    push_str(&mut v, "@");
    match version {
        Some(x) => push_str(&mut v, x),
        None => push_str(&mut v, "<unknown>"),
    }
    from_chars(&v)
}

/// A dependency as the license check sees it: its id and its license
/// expression, if it has one.
#[derive(Debug, Clone, PartialEq, Eq)]
pub struct PackageLicense {
    pub id: String,
    pub license: Option<String>,
}

pub open spec fn package_views(ps: Seq<PackageLicense>) -> Seq<(Seq<char>, Option<Seq<char>>)> {
    ps.map_values(
        |p: PackageLicense|
            (
                p.id@,
                match p.license {
                    Some(l) => Some(l@),
                    None => None,
                },
            ),
    )
}

/// The complaints about the atoms of one expression that are not allowed:
/// `atom: id` for each, in order.
pub open spec fn disallowed_entries(atoms: Seq<Seq<char>>, allowed: Seq<Seq<char>>, id: Seq<char>) -> Seq<Seq<char>>
    decreases atoms.len(),
{
    if atoms.len() == 0 {
        Seq::empty()
    } else {
        let prev = disallowed_entries(atoms.drop_last(), allowed, id);
        if allowed.contains(atoms.last()) {
            prev
        } else {
            prev.push(atoms.last() + ": "@ + id)
        }
    }
}

/// Walking the packages in order: the ids without a license, the
/// complaints about disallowed atoms, and the distinct expressions.
pub open spec fn license_scan(ps: Seq<(Seq<char>, Option<Seq<char>>)>, allowed: Seq<Seq<char>>) -> (
    Seq<Seq<char>>,
    Seq<Seq<char>>,
    Seq<Seq<char>>,
)
    decreases ps.len(),
{
    if ps.len() == 0 {
        (Seq::empty(), Seq::empty(), Seq::empty())
    } else {
        let (missing, bad, exprs) = license_scan(ps.drop_last(), allowed);
        let (id, license) = ps.last();
        match license {
            None => (missing.push(id), bad, exprs),
            Some(l) => (
                missing,
                bad + disallowed_entries(license_atoms_of(l, allowed), allowed, id),
                if exprs.contains(l) { exprs } else { exprs.push(l) },
            ),
        }
    }
}

/// The verdict of the license check: every package has a license and all
/// its atoms are allowed; the success line counts the packages and the
/// distinct expressions.
pub open spec fn license_verdict(ps: Seq<(Seq<char>, Option<Seq<char>>)>, allowed: Seq<Seq<char>>) -> Result<
    Seq<char>,
    Seq<char>,
> {
    let (missing, bad, exprs) = license_scan(ps, allowed);
    if missing.len() > 0 {
        Err("packages missing license metadata:\n"@ + join(missing, "\n"@))
    } else if bad.len() > 0 {
        Err("license atoms not allowed by deny.toml:\n"@ + join(bad, "\n"@))
    } else {
        Ok("supply-chain check: metadata licenses ok ("@ + dec(ps.len()) + " packages, "@ + dec(exprs.len())
            + " expressions)"@)
    }
}

fn contains_text(v: &Vec<String>, s: &str) -> (b: bool)
    ensures
        b == views(v@).contains(s@),
{
    let mut i: usize = 0;
    while i < v.len()
        invariant
            i <= v.len(),
            forall|k: int| 0 <= k < i ==> v@[k]@ != s@,
        decreases v.len() - i,
    {
        if str_eq(v[i].as_str(), s) {
            proof {
                assert(views(v@)[i as int] == s@);
            }
            return true;
        }
        i += 1;
    }
    proof {
        if views(v@).contains(s@) {
            let k = choose|k: int| 0 <= k < views(v@).len() && views(v@)[k] == s@;
            assert(v@[k]@ == s@);
        }
    }
    false
}

/// Checks the license of every package against the allowed licenses.
/// Every allowed license must be non-empty.
pub fn check_package_licenses(packages: &Vec<PackageLicense>, allowed: &Vec<String>) -> (r: Result<String, String>)
    requires
        forall|k: int| 0 <= k < allowed@.len() ==> (#[trigger] allowed@[k])@.len() > 0,
    ensures
        match license_verdict(package_views(packages@), views(allowed@)) {
            Ok(m) => r matches Ok(x) && x@ == m,
            Err(e) => r matches Err(x) && x@ == e,
        },
{
    let ghost ps = package_views(packages@);
    let ghost al = views(allowed@);
    let mut missing: Vec<String> = Vec::new();
    let mut bad: Vec<String> = Vec::new();
    let mut exprs: Vec<String> = Vec::new();
    let mut i: usize = 0;
    while i < packages.len()
        invariant
            i <= packages.len(),
            ps == package_views(packages@),
            al == views(allowed@),
            forall|k: int| 0 <= k < allowed@.len() ==> (#[trigger] allowed@[k])@.len() > 0,
            license_scan(ps.take(i as int), al) == (views(missing@), views(bad@), views(exprs@)),
        decreases packages.len() - i,
    {
        proof {
            assert(ps.take(i + 1).drop_last() =~= ps.take(i as int));
            assert(ps.take(i + 1).last() == ps[i as int]);
        }
        let p = &packages[i];
        match &p.license {
            None => {
                missing.push(owned(p.id.as_str()));
                proof {
                    assert(views(missing@) =~= license_scan(ps.take(i as int), al).0.push(p.id@));
                }
            },
            Some(l) => {
                let atoms = license_atoms(l.as_str(), allowed);
                let ghost av = views(atoms@);
                let ghost bad0 = views(bad@);
                let mut j: usize = 0;
                while j < atoms.len()
                    invariant
                        j <= atoms.len(),
                        av == views(atoms@),
                        al == views(allowed@),
                        views(bad@) == bad0 + disallowed_entries(av.take(j as int), al, p.id@),
                    decreases atoms.len() - j,
                {
                    proof {
                        assert(av.take(j + 1).drop_last() =~= av.take(j as int));
                        assert(av.take(j + 1).last() == atoms@[j as int]@);
                    }
                    if !contains_text(allowed, atoms[j].as_str()) {
                        let mut e = to_chars(atoms[j].as_str());
                        push_str(&mut e, ": ");
                        push_str(&mut e, p.id.as_str());
                        let entry = from_chars(&e);
                        let ghost before = views(bad@);
                        bad.push(entry);
                        proof {
                            let prev = disallowed_entries(av.take(j as int), al, p.id@);
                            assert(entry@ == av[j as int] + ": "@ + p.id@);
                            assert(disallowed_entries(av.take(j + 1), al, p.id@) == prev.push(entry@));
                            assert(views(bad@) =~= before.push(entry@));
                            assert(views(bad@) =~= bad0 + prev.push(entry@));
                        }
                    } else {
                        proof {
                            assert(views(bad@) =~= bad0 + disallowed_entries(av.take(j + 1), al, p.id@));
                        }
                    }
                    j += 1;
                }
                proof {
                    assert(av.take(atoms.len() as int) =~= av);
                }
                let ghost ex0 = views(exprs@);
                if !contains_text(&exprs, l.as_str()) {
                    exprs.push(owned(l.as_str()));
                    proof {
                        assert(views(exprs@) =~= ex0.push(l@));
                    }
                }
            },
        }
        i += 1;
    }
    proof {
        assert(ps.take(packages.len() as int) =~= ps);
    }
    if missing.len() > 0 {
        let mut v = to_chars("packages missing license metadata:\n");
        let joined = join_strings(&missing, "\n");
        push_str(&mut v, joined.as_str());
        return Err(from_chars(&v));
    }
    if bad.len() > 0 {
        let mut v = to_chars("license atoms not allowed by deny.toml:\n");
        let joined = join_strings(&bad, "\n");
        push_str(&mut v, joined.as_str());
        return Err(from_chars(&v));
    }
    let mut v = to_chars("supply-chain check: metadata licenses ok (");
    push_usize(&mut v, packages.len());
    push_str(&mut v, " packages, ");
    push_usize(&mut v, exprs.len());
    push_str(&mut v, " expressions)");
    Ok(from_chars(&v))
}

/// What to do when `cargo deny` cannot be run: with
/// `CLASH_TUI_REQUIRE_CARGO_DENY=1` (`require`) the error, else the warning
/// to print before skipping the check.
pub fn missing_cargo_deny(require: bool, detail: &str) -> (r: Result<String, String>)
    ensures
        ({
            let message = if detail@.len() == 0 {
                "supply-chain check: cargo-deny is not installed"@
            } else {
                "supply-chain check: cargo-deny is not installed"@ + " ("@ + detail@ + ")"@
            };
            if require {
                r matches Err(e) && e@ == message + "; install cargo-deny or unset CLASH_TUI_REQUIRE_CARGO_DENY"@
            } else {
                r matches Ok(w) && w@ == message + "; skipping cargo deny check"@
            }
        }),
{
    let mut v = to_chars("supply-chain check: cargo-deny is not installed");
    if detail.unicode_len() > 0 {
        push_str(&mut v, " (");
        push_str(&mut v, detail);
        push_str(&mut v, ")");
    }
    if require {
        push_str(&mut v, "; install cargo-deny or unset CLASH_TUI_REQUIRE_CARGO_DENY");
        Err(from_chars(&v))
    } else {
        push_str(&mut v, "; skipping cargo deny check");
        Ok(from_chars(&v))
    }
}

/// A JSON document: scalars, arrays and objects (entries in the parser's
/// order).
#[derive(Debug, PartialEq, Eq)]
pub enum JsonNode {
    Null,
    Bool(bool),
    Number(String),
    Text(String),
    List(Vec<JsonNode>),
    Object(Vec<(String, JsonNode)>),
}

#[verifier::external_type_specification]
#[verifier::external_body]
pub struct ExJsonValue(serde_json::Value);

/// What `serde_json::from_slice` reads from bytes, as a `JsonNode`, or the
/// text of its error.
pub uninterp spec fn json_document(bytes: Seq<u8>) -> Result<JsonNode, Seq<char>>;

/// Turns a `serde_json::Value` into a `JsonNode`, variant by variant:
/// numbers as they print.
#[verifier::external_body]
fn json_node(v: &serde_json::Value) -> JsonNode {
    match v {
        serde_json::Value::Null => JsonNode::Null,
        serde_json::Value::Bool(b) => JsonNode::Bool(*b),
        serde_json::Value::Number(n) => JsonNode::Number(n.to_string()),
        serde_json::Value::String(t) => JsonNode::Text(t.clone()),
        serde_json::Value::Array(items) => JsonNode::List(items.iter().map(json_node).collect()),
        serde_json::Value::Object(m) => JsonNode::Object(m.iter().map(|(k, x)| (k.clone(), json_node(x))).collect()),
    }
}

/// Calls `serde_json::from_slice::<serde_json::Value>` on the bytes. The
/// contract names the document or the error text; how JSON is parsed is
/// left to that name.
#[verifier::external_body]
pub(crate) fn parse_json(bytes: &[u8]) -> (r: Result<JsonNode, String>)
    ensures
        match r {
            Ok(d) => json_document(bytes@) == Ok::<JsonNode, Seq<char>>(d),
            Err(e) => json_document(bytes@) == Err::<JsonNode, Seq<char>>(e@),
        },
{
    match serde_json::from_slice::<serde_json::Value>(bytes) {
        Ok(v) => Ok(json_node(&v)),
        Err(e) => Err(e.to_string()),
    }
}

/// The value of the first entry named `key`.
pub open spec fn json_field(entries: Seq<(String, JsonNode)>, key: Seq<char>) -> Option<JsonNode>
    decreases entries.len(),
{
    if entries.len() == 0 {
        None
    } else if entries[0].0@ == key {
        Some(entries[0].1)
    } else {
        json_field(entries.skip(1), key)
    }
}

/// The text under `key` of an object (`None` for anything else).
pub open spec fn json_text(n: JsonNode, key: Seq<char>) -> Option<Seq<char>> {
    match n {
        JsonNode::Object(e) => match json_field(e@, key) {
            Some(JsonNode::Text(t)) => Some(t@),
            _ => None,
        },
        _ => None,
    }
}

pub open spec fn or_unknown_text(t: Option<Seq<char>>) -> Seq<char> {
    match t {
        Some(x) => x,
        None => "<unknown>"@,
    }
}

/// A package of the metadata: `name@version` and its license expression.
pub open spec fn package_entry(n: JsonNode) -> (Seq<char>, Option<Seq<char>>) {
    (
        or_unknown_text(json_text(n, "name"@)) + "@"@ + or_unknown_text(json_text(n, "version"@)),
        json_text(n, "license"@),
    )
}

/// The packages of a metadata document: the array under `packages`.
pub open spec fn metadata_packages_of(doc: JsonNode) -> Option<Seq<(Seq<char>, Option<Seq<char>>)>> {
    match doc {
        JsonNode::Object(e) => match json_field(e@, "packages"@) {
            Some(JsonNode::List(l)) => Some(l@.map_values(|n: JsonNode| package_entry(n))),
            _ => None,
        },
        _ => None,
    }
}

pub(crate) fn field_of<'a>(entries: &'a Vec<(String, JsonNode)>, key: &str) -> (r: Option<&'a JsonNode>)
    ensures
        match r {
            Some(x) => json_field(entries@, key@) == Some(*x),
            None => json_field(entries@, key@) is None,
        },
{
    let mut i: usize = 0;
    proof {
        assert(entries@.skip(0) =~= entries@);
    }
    while i < entries.len()
        invariant
            i <= entries.len(),
            json_field(entries@, key@) == json_field(entries@.skip(i as int), key@),
        decreases entries.len() - i,
    {
        proof {
            assert(entries@.skip(i as int).skip(1) =~= entries@.skip(i + 1));
        }
        if str_eq(entries[i].0.as_str(), key) {
            return Some(&entries[i].1);
        }
        i += 1;
    }
    None
}

pub(crate) fn text_of(n: &JsonNode, key: &str) -> (r: Option<String>)
    ensures
        match r {
            Some(t) => json_text(*n, key@) == Some(t@),
            None => json_text(*n, key@) is None,
        },
{
    match n {
        JsonNode::Object(e) => match field_of(e, key) {
            Some(JsonNode::Text(t)) => Some(owned(t.as_str())),
            _ => None,
        },
        _ => None,
    }
}

/// The packages of a `cargo metadata` document, each with its id and
/// license, or the error when it has no `packages` array.
pub fn metadata_packages(doc: &JsonNode) -> (r: Result<Vec<PackageLicense>, String>)
    ensures
        match metadata_packages_of(*doc) {
            Some(ps) => r matches Ok(v) && package_views(v@) == ps,
            None => r matches Err(e) && e@ == "cargo metadata JSON is missing packages array"@,
        },
{
    let list = match doc {
        JsonNode::Object(e) => match field_of(e, "packages") {
            Some(JsonNode::List(l)) => l,
            _ => {
                return Err(owned("cargo metadata JSON is missing packages array"));
            },
        },
        _ => {
            return Err(owned("cargo metadata JSON is missing packages array"));
        },
    };
    let ghost target = list@.map_values(|n: JsonNode| package_entry(n));
    let mut out: Vec<PackageLicense> = Vec::new();
    let mut i: usize = 0;
    while i < list.len()
        invariant
            i <= list.len(),
            target == list@.map_values(|n: JsonNode| package_entry(n)),
            package_views(out@) == target.take(i as int),
        decreases list.len() - i,
    {
        let n = &list[i];
        let name = text_of(n, "name");
        let version = text_of(n, "version");
        let name_ref: Option<&str> = match &name {
            Some(t) => Some(t.as_str()),
            None => None,
        };
        let version_ref: Option<&str> = match &version {
            Some(t) => Some(t.as_str()),
            None => None,
        };
        let id = package_id(name_ref, version_ref);
        let license = text_of(n, "license");
        let p = PackageLicense { id, license };
        let ghost before = package_views(out@);
        out.push(p);
        proof {
            assert(package_views(out@) =~= before.push(package_entry(list@[i as int])));
            assert(target.take(i + 1) =~= target.take(i as int).push(target[i as int]));
        }
        i += 1;
    }
    proof {
        assert(target.take(list.len() as int) =~= target);
    }
    Ok(out)
}

/// The packages of the bytes `cargo metadata` printed: they must be JSON
/// with a `packages` array.
pub fn cargo_metadata_packages(bytes: &[u8]) -> (r: Result<Vec<PackageLicense>, String>)
    ensures
        match json_document(bytes@) {
            Err(e) => r matches Err(x) && x@ == "failed to parse cargo metadata JSON: "@ + e,
            Ok(doc) => match metadata_packages_of(doc) {
                Some(ps) => r matches Ok(v) && package_views(v@) == ps,
                None => r matches Err(x) && x@ == "cargo metadata JSON is missing packages array"@,
            },
        },
{
    match parse_json(bytes) {
        Ok(doc) => metadata_packages(&doc),
        Err(e) => {
            let mut v = to_chars("failed to parse cargo metadata JSON: ");
            push_str(&mut v, e.as_str());
            Err(from_chars(&v))
        },
    }
}

} // verus!
