//! The package verification task: its help and the checks it reports
//! from what it found in the archive.
use vstd::prelude::*;
use vstd::string::*;
use crate::strs::{from_chars, push_str, str_eq, to_chars, views};
use crate::xtask::str_views;

verus! {

/// The help of the package verification task.
pub fn usage() -> (r: &'static str)
    ensures
        r@ == "usage: cargo xtask verify-package --archive <tar.gz> [options]

Options:
  --archive <file>       Package tar.gz to verify.
  --manifest <file>      Separate manifest JSON. Defaults to the package manifest JSON when present.
  --bootstrap <file>     Online install bootstrap. Defaults to install.sh next to the archive.
  --expect-commit <sha>  Require manifest gitCommit to match.
  --require-clean-source Require manifest gitDirty=false.
  --json                 Print machine-readable report.
  -h, --help             Show this help.
"@,
{
    "usage: cargo xtask verify-package --archive <tar.gz> [options]

Options:
  --archive <file>       Package tar.gz to verify.
  --manifest <file>      Separate manifest JSON. Defaults to the package manifest JSON when present.
  --bootstrap <file>     Online install bootstrap. Defaults to install.sh next to the archive.
  --expect-commit <sha>  Require manifest gitCommit to match.
  --require-clean-source Require manifest gitDirty=false.
  --json                 Print machine-readable report.
  -h, --help             Show this help.
"
}

/// One line of the verification report: whether it passed, its code and
/// its message.
#[derive(Debug, Clone, PartialEq, Eq)]
pub struct Check {
    pub ok: bool,
    pub code: String,
    pub message: String,
}

pub type CheckModel = (bool, Seq<char>, Seq<char>);

impl Check {
    pub open spec fn model(&self) -> CheckModel {
        (self.ok, self.code@, self.message@)
    }
}

pub open spec fn checks_model(cs: Seq<Check>) -> Seq<CheckModel> {
    cs.map_values(|c: Check| c.model())
}

fn check(ok: bool, code: Vec<char>, message: Vec<char>) -> (r: Check)
    ensures
        r.model() == (ok, code@, message@),
{
    Check { ok, code: from_chars(&code), message: from_chars(&message) }
}

fn text2(a: &str, b: &str) -> (r: Vec<char>)
    ensures
        r@ == a@ + b@,
{
    let mut v = to_chars(a);
    push_str(&mut v, b);
    v
}

fn push_check(out: &mut Vec<Check>, c: Check)
    ensures
        checks_model(final(out)@) == checks_model(old(out)@).push(c.model()),
{
    let ghost before = checks_model(out@);
    out.push(c);
    proof {
        assert(checks_model(out@) =~= before.push(c.model()));
    }
}

/// The files every package lists and holds.
pub open spec fn required_package_files_of() -> Seq<Seq<char>> {
    seq![
        "README.md"@,
        "env.example"@,
        "install.sh"@,
        "tools/clash-tui-system-proxy-gnome-acceptance.sh"@,
        "tools/clash-tui-system-proxy-gnome-smoke.py"@,
        "tools/clash-tui-tun-linux-smoke.py"@,
        "systemd/clash-tui.service"@,
    ]
}

/// The files of a package that must be executable.
pub open spec fn required_executable_files_of() -> Seq<Seq<char>> {
    seq![
        "clash-tui"@,
        "resources/mihomo"@,
        "install.sh"@,
        "tools/clash-tui-system-proxy-gnome-acceptance.sh"@,
        "tools/clash-tui-system-proxy-gnome-smoke.py"@,
        "tools/clash-tui-tun-linux-smoke.py"@,
    ]
}

/// The texts the online bootstrap installer must contain.
pub open spec fn required_bootstrap_markers_of() -> Seq<Seq<char>> {
    seq!["CLASH_TUI_INSTALL_BASE_URL"@, "--base-url"@, "verify_archive"@, "delegating to package installer"@]
}

/// The texts the package's tools must contain, as (file, text) pairs.
pub open spec fn required_text_markers_of() -> Seq<(Seq<char>, Seq<char>)> {
    let a = "tools/clash-tui-system-proxy-gnome-acceptance.sh"@;
    let s = "tools/clash-tui-system-proxy-gnome-smoke.py"@;
    let t = "tools/clash-tui-tun-linux-smoke.py"@;
    seq![
        (a, "--verify-acceptance-dir"@),
        (a, "gnome-acceptance-verified.json"@),
        (a, "--archive"@),
        (a, "gnome-acceptance-SHA256SUMS.txt"@),
        (a, "CLASH_TUI_SYSTEM_PROXY_SMOKE=1"@),
        (s, "--preflight"@),
        (s, "--output"@),
        (s, "--verify-report"@),
        (s, "--verify-acceptance-dir"@),
        (s, "schemaVersion"@),
        (s, "desktopSession"@),
        (s, "reportHashes"@),
        (s, "resolvedPath"@),
        (t, "--preflight"@),
        (t, "--output"@),
        (t, "CLASH_TUI_TUN_SMOKE"@),
    ]
}

/// The files every package lists and holds.
pub fn required_package_files() -> (r: Vec<&'static str>)
    ensures
        str_views(r@) == required_package_files_of(),
{
    let r = vec![
        "README.md",
        "env.example",
        "install.sh",
        "tools/clash-tui-system-proxy-gnome-acceptance.sh",
        "tools/clash-tui-system-proxy-gnome-smoke.py",
        "tools/clash-tui-tun-linux-smoke.py",
        "systemd/clash-tui.service",
    ];
    proof {
        assert(str_views(r@) =~= required_package_files_of());
    }
    r
}

/// The files of a package that must be executable.
pub fn required_executable_files() -> (r: Vec<&'static str>)
    ensures
        str_views(r@) == required_executable_files_of(),
{
    let r = vec![
        "clash-tui",
        "resources/mihomo",
        "install.sh",
        "tools/clash-tui-system-proxy-gnome-acceptance.sh",
        "tools/clash-tui-system-proxy-gnome-smoke.py",
        "tools/clash-tui-tun-linux-smoke.py",
    ];
    proof {
        assert(str_views(r@) =~= required_executable_files_of());
    }
    r
}

/// The texts the online bootstrap installer must contain.
pub fn required_bootstrap_markers() -> (r: Vec<&'static str>)
    ensures
        str_views(r@) == required_bootstrap_markers_of(),
{
    let r = vec!["CLASH_TUI_INSTALL_BASE_URL", "--base-url", "verify_archive", "delegating to package installer"];
    proof {
        assert(str_views(r@) =~= required_bootstrap_markers_of());
    }
    r
}

/// The texts the package's tools must contain, as (file, text) pairs.
pub fn required_text_markers() -> (r: Vec<(&'static str, &'static str)>)
    ensures
        r@.map_values(|p: (&str, &str)| (p.0@, p.1@)) == required_text_markers_of(),
{
    let a = "tools/clash-tui-system-proxy-gnome-acceptance.sh";
    let s = "tools/clash-tui-system-proxy-gnome-smoke.py";
    let t = "tools/clash-tui-tun-linux-smoke.py";
    let r = vec![
        (a, "--verify-acceptance-dir"),
        (a, "gnome-acceptance-verified.json"),
        (a, "--archive"),
        (a, "gnome-acceptance-SHA256SUMS.txt"),
        (a, "CLASH_TUI_SYSTEM_PROXY_SMOKE=1"),
        (s, "--preflight"),
        (s, "--output"),
        (s, "--verify-report"),
        (s, "--verify-acceptance-dir"),
        (s, "schemaVersion"),
        (s, "desktopSession"),
        (s, "reportHashes"),
        (s, "resolvedPath"),
        (t, "--preflight"),
        (t, "--output"),
        (t, "CLASH_TUI_TUN_SMOKE"),
    ];
    proof {
        assert(r@.map_values(|p: (&str, &str)| (p.0@, p.1@)) =~= required_text_markers_of());
    }
    r
}

/// The two checks of required file `f`: the manifest lists it, the
/// archive holds it.
pub open spec fn file_checks(listed: Seq<Seq<char>>, f: Seq<char>, present: bool) -> Seq<CheckModel> {
    seq![
        (listed.contains(f), "package-files:"@ + f, "manifest packageFiles includes "@ + f),
        (present, "file-exists:"@ + f, f + " exists in archive"@),
    ]
}

/// The checks of the required files, two per file in order; `present[k]`
/// tells whether the k-th required file is in the archive.
pub open spec fn package_file_checks_of(listed: Seq<Seq<char>>, present: Seq<bool>, n: int) -> Seq<CheckModel>
    decreases n,
{
    if n <= 0 {
        Seq::empty()
    } else {
        package_file_checks_of(listed, present, n - 1) + file_checks(
            listed,
            required_package_files_of()[n - 1],
            present[n - 1],
        )
    }
}

fn list_contains(v: &Vec<String>, s: &str) -> (b: bool)
    ensures
        b == views(v@).contains(s@),
{
    let mut i: usize = 0;
    while i < v.len()
        invariant
            i <= v.len(),
            forall|k: int| 0 <= k < i ==> v@[k]@ != s@,
        decreases v.len() - i,
    {
        if str_eq(v[i].as_str(), s) {
            proof {
                assert(views(v@)[i as int] == s@);
            }
            return true;
        }
        i += 1;
    }
    proof {
        if views(v@).contains(s@) {
            let k = choose|k: int| 0 <= k < views(v@).len() && views(v@)[k] == s@;
            assert(v@[k]@ == s@);
        }
    }
    false
}

/// The checks of the required files against the manifest's
/// `packageFiles` (`listed`) and the archive (`present`, one per file).
pub fn package_file_checks(listed: &Vec<String>, present: &Vec<bool>) -> (r: Vec<Check>)
    requires
        present@.len() == required_package_files_of().len(),
    ensures
        checks_model(r@) == package_file_checks_of(views(listed@), present@, present@.len() as int),
{
    let files = required_package_files();
    let mut r: Vec<Check> = Vec::new();
    let mut k: usize = 0;
    while k < files.len()
        invariant
            k <= files.len(),
            str_views(files@) == required_package_files_of(),
            present@.len() == files@.len(),
            checks_model(r@) == package_file_checks_of(views(listed@), present@, k as int),
        decreases files.len() - k,
    {
        let f = files[k];
        assert(f@ == required_package_files_of()[k as int]);
        let c1 = check(list_contains(listed, f), text2("package-files:", f), text2("manifest packageFiles includes ", f));
        push_check(&mut r, c1);
        let c2 = check(present[k], text2("file-exists:", f), text2(f, " exists in archive"));
        push_check(&mut r, c2);
        proof {
            assert(checks_model(r@) =~= package_file_checks_of(views(listed@), present@, k + 1));
        }
        k += 1;
    }
    r
}

/// The checks that the required files are executable, one per file;
/// `executable[k]` tells whether the k-th one is.
pub open spec fn executable_checks_of(executable: Seq<bool>) -> Seq<CheckModel> {
    Seq::new(
        executable.len(),
        |k: int|
            (
                executable[k],
                "file-executable:"@ + required_executable_files_of()[k],
                required_executable_files_of()[k] + " is executable"@,
            ),
    )
}

pub fn executable_checks(executable: &Vec<bool>) -> (r: Vec<Check>)
    requires
        executable@.len() == required_executable_files_of().len(),
    ensures
        checks_model(r@) == executable_checks_of(executable@),
{
    let files = required_executable_files();
    let mut r: Vec<Check> = Vec::new();
    let mut k: usize = 0;
    while k < files.len()
        invariant
            k <= files.len(),
            str_views(files@) == required_executable_files_of(),
            executable@.len() == files@.len(),
            checks_model(r@) == executable_checks_of(executable@).take(k as int),
        decreases files.len() - k,
    {
        let f = files[k];
        assert(f@ == required_executable_files_of()[k as int]);
        push_check(&mut r, check(executable[k], text2("file-executable:", f), text2(f, " is executable")));
        proof {
            assert(checks_model(r@) =~= executable_checks_of(executable@).take(k + 1));
        }
        k += 1;
    }
    proof {
        assert(executable_checks_of(executable@).take(files.len() as int) =~= executable_checks_of(executable@));
    }
    r
}

/// The checks that the tools hold their required texts, one per (file,
/// text) pair; `found[k]` tells whether the k-th text was found.
pub open spec fn marker_checks_of(found: Seq<bool>) -> Seq<CheckModel> {
    Seq::new(
        found.len(),
        |k: int|
            {
                let (f, m) = required_text_markers_of()[k];
                (found[k], "file-marker:"@ + f + ":"@ + m, f + " contains required marker "@ + m)
            },
    )
}

pub fn marker_checks(found: &Vec<bool>) -> (r: Vec<Check>)
    requires
        found@.len() == required_text_markers_of().len(),
    ensures
        checks_model(r@) == marker_checks_of(found@),
{
    let markers = required_text_markers();
    let mut r: Vec<Check> = Vec::new();
    let mut k: usize = 0;
    while k < markers.len()
        invariant
            k <= markers.len(),
            markers@.map_values(|p: (&str, &str)| (p.0@, p.1@)) == required_text_markers_of(),
            found@.len() == markers@.len(),
            checks_model(r@) == marker_checks_of(found@).take(k as int),
        decreases markers.len() - k,
    {
        let (f, m) = markers[k];
        assert((f@, m@) == required_text_markers_of()[k as int]);
        let mut code = text2("file-marker:", f);
        push_str(&mut code, ":");
        push_str(&mut code, m);
        let mut message = text2(f, " contains required marker ");
        push_str(&mut message, m);
        push_check(&mut r, check(found[k], code, message));
        proof {
            assert(checks_model(r@) =~= marker_checks_of(found@).take(k + 1));
        }
        k += 1;
    }
    proof {
        assert(marker_checks_of(found@).take(markers.len() as int) =~= marker_checks_of(found@));
    }
    r
}

/// The checks of the online bootstrap installer: it exists; where it
/// does, it is executable and holds each required text (`found[k]`).
pub open spec fn bootstrap_checks_of(exists: bool, executable: bool, found: Seq<bool>) -> Seq<CheckModel> {
    let first = seq![(exists, "bootstrap-installer"@, "online bootstrap install.sh exists next to archive or via --bootstrap"@)];
    if !exists {
        first
    } else {
        first + seq![(executable, "bootstrap-installer-executable"@, "online bootstrap install.sh is executable"@)]
            + Seq::new(
            found.len(),
            |k: int|
                (
                    found[k],
                    "bootstrap-installer-marker:"@ + required_bootstrap_markers_of()[k],
                    "online bootstrap install.sh contains required marker "@ + required_bootstrap_markers_of()[k],
                ),
        )
    }
}

pub fn bootstrap_checks(exists: bool, executable: bool, found: &Vec<bool>) -> (r: Vec<Check>)
    requires
        exists ==> found@.len() == required_bootstrap_markers_of().len(),
    ensures
        checks_model(r@) == bootstrap_checks_of(exists, executable, found@),
{
    let mut r: Vec<Check> = Vec::new();
    push_check(
        &mut r,
        check(
            exists,
            to_chars("bootstrap-installer"),
            to_chars("online bootstrap install.sh exists next to archive or via --bootstrap"),
        ),
    );
    if !exists {
        return r;
    }
    push_check(
        &mut r,
        check(executable, to_chars("bootstrap-installer-executable"), to_chars("online bootstrap install.sh is executable")),
    );
    let markers = required_bootstrap_markers();
    let ghost head = checks_model(r@);
    let ghost tail = Seq::new(
        found@.len(),
        |k: int|
            (
                found@[k],
                "bootstrap-installer-marker:"@ + required_bootstrap_markers_of()[k],
                "online bootstrap install.sh contains required marker "@ + required_bootstrap_markers_of()[k],
            ),
    );
    let mut k: usize = 0;
    while k < markers.len()
        invariant
            k <= markers.len(),
            str_views(markers@) == required_bootstrap_markers_of(),
            found@.len() == markers@.len(),
            checks_model(r@) == head + tail.take(k as int),
            tail.len() == found@.len(),
            forall|j: int| 0 <= j < tail.len() ==> #[trigger] tail[j] == (
                found@[j],
                "bootstrap-installer-marker:"@ + required_bootstrap_markers_of()[j],
                "online bootstrap install.sh contains required marker "@ + required_bootstrap_markers_of()[j],
            ),
        decreases markers.len() - k,
    {
        let m = markers[k];
        assert(m@ == required_bootstrap_markers_of()[k as int]);
        push_check(
            &mut r,
            check(found[k], text2("bootstrap-installer-marker:", m), text2("online bootstrap install.sh contains required marker ", m)),
        );
        proof {
            assert(checks_model(r@) =~= head + tail.take(k + 1));
        }
        k += 1;
    }
    proof {
        assert(tail.take(markers.len() as int) =~= tail);
    }
    r
}

/// The checks of the separate manifest: without one, the single failed
/// check that asks for it; with one, that its archive SHA and file name
/// match the archive, that it equals the archive's own manifest but for
/// the archive entry, and, where the archive's manifest names an archive
/// SHA (`internal_sha`), that this matches too. An empty `sidecar_file`
/// names no file and passes.
pub open spec fn sidecar_checks_of(
    found: bool,
    archive_sha: Seq<char>,
    sidecar_sha: Seq<char>,
    archive_file: Seq<char>,
    sidecar_file: Seq<char>,
    same_manifest: bool,
    internal_sha: Option<Seq<char>>,
) -> Seq<CheckModel> {
    if !found {
        seq![(false, "sidecar-manifest"@, "sidecar manifest is required to verify archive metadata"@)]
    } else {
        let main = seq![
            (sidecar_sha == archive_sha, "sidecar-archive-sha"@, "sidecar manifest archive SHA matches tar.gz"@),
            (
                sidecar_file.len() == 0 || sidecar_file == archive_file,
                "sidecar-archive-file"@,
                "sidecar manifest archive file matches tar.gz basename"@,
            ),
            (
                same_manifest,
                "sidecar-internal-manifest"@,
                "sidecar manifest matches archive manifest except archive metadata"@,
            ),
        ];
        match internal_sha {
            Some(s) => main.push(
                (s == archive_sha, "internal-archive-sha"@, "internal manifest archive SHA matches tar.gz when present"@),
            ),
            None => main,
        }
    }
}

pub fn sidecar_checks(
    found: bool,
    archive_sha: &str,
    sidecar_sha: &str,
    archive_file: &str,
    sidecar_file: &str,
    same_manifest: bool,
    internal_sha: Option<&str>,
) -> (r: Vec<Check>)
    ensures
        checks_model(r@) == sidecar_checks_of(
            found,
            archive_sha@,
            sidecar_sha@,
            archive_file@,
            sidecar_file@,
            same_manifest,
            match internal_sha {
                Some(s) => Some(s@),
                None => None,
            },
        ),
{
    let mut r: Vec<Check> = Vec::new();
    if !found {
        push_check(
            &mut r,
            check(false, to_chars("sidecar-manifest"), to_chars("sidecar manifest is required to verify archive metadata")),
        );
        return r;
    }
    push_check(
        &mut r,
        check(
            str_eq(sidecar_sha, archive_sha),
            to_chars("sidecar-archive-sha"),
            to_chars("sidecar manifest archive SHA matches tar.gz"),
        ),
    );
    let file_ok = sidecar_file.unicode_len() == 0 || str_eq(sidecar_file, archive_file);
    push_check(
        &mut r,
        check(file_ok, to_chars("sidecar-archive-file"), to_chars("sidecar manifest archive file matches tar.gz basename")),
    );
    push_check(
        &mut r,
        check(
            same_manifest,
            to_chars("sidecar-internal-manifest"),
            to_chars("sidecar manifest matches archive manifest except archive metadata"),
        ),
    );
    if let Some(s) = internal_sha {
        push_check(
            &mut r,
            check(
                str_eq(s, archive_sha),
                to_chars("internal-archive-sha"),
                to_chars("internal manifest archive SHA matches tar.gz when present"),
            ),
        );
    }
    r
}

/// The check that the manifest names the expected commit.
pub fn commit_check(expected: &str, actual: &str) -> (r: Check)
    ensures
        r.model() == (actual@ == expected@, "git-commit"@, "manifest gitCommit matches expected commit"@),
{
    check(str_eq(actual, expected), to_chars("git-commit"), to_chars("manifest gitCommit matches expected commit"))
}

/// The check that the manifest records a clean source tree.
pub fn clean_source_check(dirty_is_false: bool) -> (r: Check)
    ensures
        r.model() == (dirty_is_false, "git-clean-source"@, "manifest gitDirty is false"@),
{
    check(dirty_is_false, to_chars("git-clean-source"), to_chars("manifest gitDirty is false"))
}

/// The check that a file's SHA-256 matches the one the manifest records;
/// `code` and `label` name the file in the report.
pub fn hash_check(expected: &str, actual: &str, code: &str, label: &str) -> (r: Check)
    ensures
        r.model() == (expected@ == actual@, code@, label@ + " SHA matches manifest"@),
{
    check(str_eq(expected, actual), to_chars(code), text2(label, " SHA matches manifest"))
}

/// The check of one geo resource's SHA-256.
pub fn geo_hash_check(file: &str, expected: &str, actual: &str) -> (r: Check)
    ensures
        r.model() == (expected@ == actual@, "geo-sha:"@ + file@, file@ + " SHA matches manifest"@),
{
    check(str_eq(expected, actual), text2("geo-sha:", file), text2(file, " SHA matches manifest"))
}

/// A package passes when every check does.
pub fn report_ok(checks: &Vec<Check>) -> (r: bool)
    ensures
        r == (forall|k: int| 0 <= k < checks@.len() ==> #[trigger] checks@[k].ok),
{
    let mut i: usize = 0;
    while i < checks.len()
        invariant
            i <= checks.len(),
            forall|k: int| 0 <= k < i ==> #[trigger] checks@[k].ok,
        decreases checks.len() - i,
    {
        if !checks[i].ok {
            return false;
        }
        i += 1;
    }
    true
}

/// Whether the last check passed (`false` when there is none).
pub fn last_check_ok(checks: &Vec<Check>) -> (r: bool)
    ensures
        r == (checks@.len() > 0 && checks@.last().ok),
{
    if checks.len() == 0 {
        false
    } else {
        checks[checks.len() - 1].ok
    }
}

} // verus!
