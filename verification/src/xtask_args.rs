//! The command lines of the packaging tasks.
use vstd::prelude::*;
use crate::strs::{owned, push_str, from_chars, str_eq, to_chars, views};
use crate::package::{target_info, target_text};

verus! {

/// The options of the package task, paths as given.
#[derive(Debug, Clone, PartialEq, Eq)]
pub struct PackageArgs {
    pub targets: Vec<String>,
    pub docker: bool,
    pub skip_build: bool,
    pub skip_archive: bool,
    pub out_dir: Option<String>,
    pub binary: Option<String>,
    pub mihomo_bin: Option<String>,
    pub geo_dir: Option<String>,
    /// `-h` or `--help` was given: show the usage and stop.
    pub help: bool,
}

/// The options of the package verification task, paths as given.
#[derive(Debug, Clone, PartialEq, Eq)]
pub struct VerifyArgs {
    pub archive: Option<String>,
    pub manifest: Option<String>,
    pub bootstrap: Option<String>,
    pub expect_commit: Option<String>,
    pub require_clean_source: bool,
    pub json: bool,
    /// `-h` or `--help` was given: show the usage and stop.
    pub help: bool,
}

/// The package options as values: (targets, out dir, binary, core
/// binary, geo dir) and (docker, skip build, skip archive, help).
pub type PackageModel = (
    (Seq<Seq<char>>, Option<Seq<char>>, Option<Seq<char>>, Option<Seq<char>>, Option<Seq<char>>),
    (bool, bool, bool, bool),
);

/// The verification options as values: (archive, manifest, bootstrap,
/// expected commit) and (require clean source, json, help).
pub type VerifyModel = (
    (Option<Seq<char>>, Option<Seq<char>>, Option<Seq<char>>, Option<Seq<char>>),
    (bool, bool, bool),
);

pub open spec fn opt_view(o: Option<String>) -> Option<Seq<char>> {
    match o {
        Some(s) => Some(s@),
        None => None,
    }
}

impl PackageArgs {
    pub open spec fn model(&self) -> PackageModel {
        (
            (
                views(self.targets@),
                opt_view(self.out_dir),
                opt_view(self.binary),
                opt_view(self.mihomo_bin),
                opt_view(self.geo_dir),
            ),
            (self.docker, self.skip_build, self.skip_archive, self.help),
        )
    }
}

impl VerifyArgs {
    pub open spec fn model(&self) -> VerifyModel {
        (
            (
                opt_view(self.archive),
                opt_view(self.manifest),
                opt_view(self.bootstrap),
                opt_view(self.expect_commit),
            ),
            (self.require_clean_source, self.json, self.help),
        )
    }
}

pub open spec fn help_flag(a: Seq<char>) -> bool {
    a == "-h"@ || a == "--help"@
}

/// The flags of the package task that take a value.
pub open spec fn package_value_flag(a: Seq<char>) -> bool {
    a == "--target"@ || a == "--out-dir"@ || a == "--binary"@ || a == "--mihomo-bin"@ || a == "--geo-dir"@
}

/// The package options after flag `a` with value `v`.
pub open spec fn package_with_value(m: PackageModel, a: Seq<char>, v: Seq<char>) -> PackageModel {
    let (p, s) = m;
    if a == "--target"@ {
        ((p.0.push(v), p.1, p.2, p.3, p.4), s)
    } else if a == "--out-dir"@ {
        ((p.0, Some(v), p.2, p.3, p.4), s)
    } else if a == "--binary"@ {
        ((p.0, p.1, Some(v), p.3, p.4), s)
    } else if a == "--mihomo-bin"@ {
        ((p.0, p.1, p.2, Some(v), p.4), s)
    } else {
        ((p.0, p.1, p.2, p.3, Some(v)), s)
    }
}

/// The package options after the switch `a`, or `None` for an unknown one.
pub open spec fn package_with_switch(m: PackageModel, a: Seq<char>) -> Option<PackageModel> {
    let (p, s) = m;
    if a == "--docker"@ {
        Some((p, (true, s.1, s.2, s.3)))
    } else if a == "--no-docker"@ {
        Some((p, (false, s.1, s.2, s.3)))
    } else if a == "--skip-build"@ {
        Some((p, (s.0, true, s.2, s.3)))
    } else if a == "--skip-archive"@ {
        Some((p, (s.0, s.1, true, s.3)))
    } else {
        None
    }
}

/// Reading the package arguments from position `i` into `m`: left to
/// right, a help flag ends the reading, a value flag takes the next
/// argument, an unknown argument is an error.
pub open spec fn package_scan(args: Seq<Seq<char>>, i: int, m: PackageModel) -> Result<PackageModel, Seq<char>>
    decreases args.len() - i,
{
    if i >= args.len() || i < 0 {
        Ok(m)
    } else {
        let a = args[i];
        if help_flag(a) {
            Ok((m.0, (m.1.0, m.1.1, m.1.2, true)))
        } else if package_value_flag(a) {
            if i + 1 >= args.len() {
                Err(a + " requires a value"@)
            } else {
                package_scan(args, i + 2, package_with_value(m, a, args[i + 1]))
            }
        } else {
            match package_with_switch(m, a) {
                Some(m2) => package_scan(args, i + 1, m2),
                None => Err("unknown argument: "@ + a),
            }
        }
    }
}

/// The first target from position `k` on that is not supported.
pub open spec fn first_unsupported(ts: Seq<Seq<char>>, k: int) -> Option<Seq<char>>
    decreases ts.len() - k,
{
    if k >= ts.len() || k < 0 {
        None
    } else if target_text(ts[k]) is None {
        Some(ts[k])
    } else {
        first_unsupported(ts, k + 1)
    }
}

/// The package options before any argument: Docker unless already inside it.
pub open spec fn package_start(inside_docker: bool) -> PackageModel {
    ((Seq::empty(), None, None, None, None), (!inside_docker, false, false, false))
}

/// The package options read from `args`: the x86-64 Linux target when
/// none is named, every target supported.
pub open spec fn package_options(args: Seq<Seq<char>>, inside_docker: bool) -> Result<PackageModel, Seq<char>> {
    match package_scan(args, 0, package_start(inside_docker)) {
        Err(e) => Err(e),
        Ok(m) => if m.1.3 {
            Ok(m)
        } else {
            let ts = if m.0.0.len() == 0 { seq!["x86_64-unknown-linux-gnu"@] } else { m.0.0 };
            match first_unsupported(ts, 0) {
                Some(t) => Err("unsupported target: "@ + t),
                None => Ok(((ts, m.0.1, m.0.2, m.0.3, m.0.4), m.1)),
            }
        },
    }
}

/// The flags of the verification task that take a value.
pub open spec fn verify_value_flag(a: Seq<char>) -> bool {
    a == "--archive"@ || a == "--manifest"@ || a == "--bootstrap"@ || a == "--expect-commit"@
}

/// The verification options after flag `a` with value `v`.
pub open spec fn verify_with_value(m: VerifyModel, a: Seq<char>, v: Seq<char>) -> VerifyModel {
    let (p, s) = m;
    if a == "--archive"@ {
        ((Some(v), p.1, p.2, p.3), s)
    } else if a == "--manifest"@ {
        ((p.0, Some(v), p.2, p.3), s)
    } else if a == "--bootstrap"@ {
        ((p.0, p.1, Some(v), p.3), s)
    } else {
        ((p.0, p.1, p.2, Some(v)), s)
    }
}

/// Reading the verification arguments from position `i` into `m`.
pub open spec fn verify_scan(args: Seq<Seq<char>>, i: int, m: VerifyModel) -> Result<VerifyModel, Seq<char>>
    decreases args.len() - i,
{
    if i >= args.len() || i < 0 {
        Ok(m)
    } else {
        let a = args[i];
        if help_flag(a) {
            Ok((m.0, (m.1.0, m.1.1, true)))
        } else if verify_value_flag(a) {
            if i + 1 >= args.len() {
                Err(a + " requires a value"@)
            } else {
                verify_scan(args, i + 2, verify_with_value(m, a, args[i + 1]))
            }
        } else if a == "--require-clean-source"@ {
            verify_scan(args, i + 1, (m.0, (true, m.1.1, m.1.2)))
        } else if a == "--json"@ {
            verify_scan(args, i + 1, (m.0, (m.1.0, true, m.1.2)))
        } else {
            Err("unknown option: "@ + a)
        }
    }
}

/// The verification options before any argument.
pub open spec fn verify_start() -> VerifyModel {
    ((None, None, None, None), (false, false, false))
}

/// The verification options read from `args`; an archive is required.
pub open spec fn verify_options(args: Seq<Seq<char>>) -> Result<VerifyModel, Seq<char>> {
    match verify_scan(args, 0, verify_start()) {
        Err(e) => Err(e),
        Ok(m) => if !m.1.2 && m.0.0 is None {
            Err("--archive is required"@)
        } else {
            Ok(m)
        },
    }
}

fn requires_value(flag: &str) -> (r: String)
    ensures
        r@ == flag@ + " requires a value"@,
{
    let mut v = to_chars(flag);
    push_str(&mut v, " requires a value");
    from_chars(&v)
}

fn prefixed(prefix: &str, a: &str) -> (r: String)
    ensures
        r@ == prefix@ + a@,
{
    let mut v = to_chars(prefix);
    push_str(&mut v, a);
    from_chars(&v)
}

/// Reads the package task's arguments. Without `--docker`/`--no-docker`
/// the task runs in Docker unless it already does (`inside_docker`); with
/// no `--target` it packages `x86_64-unknown-linux-gnu`; every target must
/// be supported.
pub fn parse_package_args(args: &[String], inside_docker: bool) -> (r: Result<PackageArgs, String>)
    ensures
        match package_options(views(args@), inside_docker) {
            Ok(m) => r matches Ok(p) && p.model() == m,
            Err(e) => r matches Err(x) && x@ == e,
        },
{
    let mut p = PackageArgs {
        targets: Vec::new(),
        docker: !inside_docker,
        skip_build: false,
        skip_archive: false,
        out_dir: None,
        binary: None,
        mihomo_bin: None,
        geo_dir: None,
        help: false,
    };
    let ghost argv = views(args@);
    assert(views(p.targets@) =~= Seq::<Seq<char>>::empty());
    assert(p.model() == package_start(inside_docker));
    let mut i: usize = 0;
    while i < args.len()
        invariant
            i <= args.len() + 1,
            argv == views(args@),
            argv.len() == args@.len(),
            package_scan(argv, 0, package_start(inside_docker)) == package_scan(argv, i as int, p.model()),
            !p.help,
        decreases args.len() + 1 - i,
    {
        let a = args[i].as_str();
        assert(argv[i as int] == a@);
        if str_eq(a, "-h") || str_eq(a, "--help") {
            p.help = true;
            return Ok(p);
        }
        let takes_value = str_eq(a, "--target") || str_eq(a, "--out-dir") || str_eq(a, "--binary")
            || str_eq(a, "--mihomo-bin") || str_eq(a, "--geo-dir");
        if takes_value {
            if i + 1 >= args.len() {
                return Err(requires_value(a));
            }
            let v = args[i + 1].clone();
            assert(argv[i + 1] == v@);
            let ghost before = p.model();
            if str_eq(a, "--target") {
                p.targets.push(v);
                assert(views(p.targets@) =~= before.0.0.push(v@));
            } else if str_eq(a, "--out-dir") {
                p.out_dir = Some(v);
            } else if str_eq(a, "--binary") {
                p.binary = Some(v);
            } else if str_eq(a, "--mihomo-bin") {
                p.mihomo_bin = Some(v);
            } else {
                p.geo_dir = Some(v);
            }
            assert(p.model() == package_with_value(before, a@, v@));
            i += 2;
        } else if str_eq(a, "--docker") {
            p.docker = true;
            i += 1;
        } else if str_eq(a, "--no-docker") {
            p.docker = false;
            i += 1;
        } else if str_eq(a, "--skip-build") {
            p.skip_build = true;
            i += 1;
        } else if str_eq(a, "--skip-archive") {
            p.skip_archive = true;
            i += 1;
        } else {
            return Err(prefixed("unknown argument: ", a));
        }
    }
    let ghost scanned = p.model();
    if p.targets.len() == 0 {
        p.targets.push(owned("x86_64-unknown-linux-gnu"));
        assert(views(p.targets@) =~= seq!["x86_64-unknown-linux-gnu"@]);
    }
    let ghost ts = views(p.targets@);
    assert(ts == (if scanned.0.0.len() == 0 { seq!["x86_64-unknown-linux-gnu"@] } else { scanned.0.0 }));
    assert(p.model() == ((ts, scanned.0.1, scanned.0.2, scanned.0.3, scanned.0.4), scanned.1));
    assert(package_options(argv, inside_docker) == (match first_unsupported(ts, 0) {
        Some(t) => Err("unsupported target: "@ + t),
        None => Ok(p.model()),
    }));
    let mut k: usize = 0;
    while k < p.targets.len()
        invariant
            k <= p.targets.len(),
            argv == views(args@),
            package_options(argv, inside_docker) == (match first_unsupported(ts, 0) {
                Some(t) => Err("unsupported target: "@ + t),
                None => Ok(p.model()),
            }),
            ts == views(p.targets@),
            ts.len() == p.targets@.len(),
            first_unsupported(ts, 0) == first_unsupported(ts, k as int),
        decreases p.targets.len() - k,
    {
        assert(ts[k as int] == p.targets@[k as int]@);
        match target_info(p.targets[k].as_str()) {
            Ok(_) => {},
            Err(e) => {
                return Err(e);
            },
        }
        k += 1;
    }
    Ok(p)
}

/// Reads the verification task's arguments; `--archive` is required
/// unless help was asked for.
pub fn parse_verify_args(args: &[String]) -> (r: Result<VerifyArgs, String>)
    ensures
        match verify_options(views(args@)) {
            Ok(m) => r matches Ok(p) && p.model() == m,
            Err(e) => r matches Err(x) && x@ == e,
        },
{
    let mut p = VerifyArgs {
        archive: None,
        manifest: None,
        bootstrap: None,
        expect_commit: None,
        require_clean_source: false,
        json: false,
        help: false,
    };
    let ghost argv = views(args@);
    assert(p.model() == verify_start());
    let mut i: usize = 0;
    while i < args.len()
        invariant
            i <= args.len() + 1,
            argv == views(args@),
            argv.len() == args@.len(),
            verify_scan(argv, 0, verify_start()) == verify_scan(argv, i as int, p.model()),
            !p.help,
        decreases args.len() + 1 - i,
    {
        let a = args[i].as_str();
        assert(argv[i as int] == a@);
        if str_eq(a, "-h") || str_eq(a, "--help") {
            p.help = true;
            return Ok(p);
        }
        let takes_value = str_eq(a, "--archive") || str_eq(a, "--manifest") || str_eq(a, "--bootstrap")
            || str_eq(a, "--expect-commit");
        if takes_value {
            if i + 1 >= args.len() {
                return Err(requires_value(a));
            }
            let v = args[i + 1].clone();
            assert(argv[i + 1] == v@);
            if str_eq(a, "--archive") {
                p.archive = Some(v);
            } else if str_eq(a, "--manifest") {
                p.manifest = Some(v);
            } else if str_eq(a, "--bootstrap") {
                p.bootstrap = Some(v);
            } else {
                p.expect_commit = Some(v);
            }
            i += 2;
        } else if str_eq(a, "--require-clean-source") {
            p.require_clean_source = true;
            i += 1;
        } else if str_eq(a, "--json") {
            p.json = true;
            i += 1;
        } else {
            return Err(prefixed("unknown option: ", a));
        }
    }
    if p.archive.is_none() {
        return Err(owned("--archive is required"));
    }
    Ok(p)
}

} // verus!
