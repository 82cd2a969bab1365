//! Pure parts of the packaging tasks: the command help, the supported
//! targets, the app version in the workspace manifest, and the names of
//! cached downloads.
use vstd::prelude::*;
use vstd::string::*;
use vstd::utf8::encode_utf8;
use crate::details::text_lines;
use crate::strs::{
    chars_find_from, chars_starts_with, chars_sub, chars_trim, find, from_chars, lemma_find_sound,
    owned, push_all, push_str, starts_with, str_eq, str_trim, to_chars, trim,
};
use crate::xtask_args::PackageArgs;
use crate::strs::views;
use crate::xtask::str_views;

verus! {

/// The usage of the build tasks.
pub open spec fn xtask_usage() -> Seq<char> {
    "usage: cargo xtask <command> [args...]

Commands:
  format                 Run cargo fmt --all
  format-check           Run cargo fmt --all --check
  clash-tui-check         Run cargo check -p clash-tui
  clash-tui-test          Run cargo test -p clash-tui
  workspace-check        Run cargo check --workspace --all-targets
  workspace-test         Run cargo test --workspace
  clippy                 Run cargo clippy --workspace --all-targets --all-features
  policy-check           Run metadata license checks and cargo deny check
  scripts-check          Check shell and Python script syntax
  scripts-test           Run script tests
  ci                     Run the full local CI gate
  package                Build clash-tui package
  verify-package         Verify package archive
  tui-remote-smoke       Run remote TUI smoke script; forwards args to scripts/clash-tui-remote-smoke.sh
"@
}

/// The help of the build tasks.
pub fn help_text() -> (r: &'static str)
    ensures
        r@ == xtask_usage(),
{
    "usage: cargo xtask <command> [args...]

Commands:
  format                 Run cargo fmt --all
  format-check           Run cargo fmt --all --check
  clash-tui-check         Run cargo check -p clash-tui
  clash-tui-test          Run cargo test -p clash-tui
  workspace-check        Run cargo check --workspace --all-targets
  workspace-test         Run cargo test --workspace
  clippy                 Run cargo clippy --workspace --all-targets --all-features
  policy-check           Run metadata license checks and cargo deny check
  scripts-check          Check shell and Python script syntax
  scripts-test           Run script tests
  ci                     Run the full local CI gate
  package                Build clash-tui package
  verify-package         Verify package archive
  tui-remote-smoke       Run remote TUI smoke script; forwards args to scripts/clash-tui-remote-smoke.sh
"
}

/// The arguments without a leading `--`.
pub fn strip_separator(args: &[String]) -> (r: &[String])
    ensures
        r@ == (if args@.len() > 0 && args@[0]@ == "--"@ {
            args@.subrange(1, args@.len() as int)
        } else {
            args@
        }),
{
    if args.len() > 0 && str_eq(args[0].as_str(), "--") {
        vstd::slice::slice_subrange(args, 1, args.len())
    } else {
        args
    }
}

/// The help of the package task.
pub fn usage() -> (r: &'static str)
    ensures
        r@ == "usage: cargo xtask package [options]

Options:
  --target <triple>       Rust target triple. Repeatable.
  --out-dir <path>        Output directory. Default: target/clash-tui-dist
  --docker                Run the package job inside Docker. Default when launched on the host.
  --no-docker             Run directly on the current host.
  --skip-build            Reuse an existing binary instead of building.
  --binary <path>         clash-tui binary to package.
  --mihomo-bin <path>     Local mihomo binary to package.
  --geo-dir <path>        Directory containing Country.mmdb, geosite.dat, geoip.dat.
  --skip-archive          Assemble package directory without tar.gz.
  -h, --help              Show this help.
"@,
{
    "usage: cargo xtask package [options]

Options:
  --target <triple>       Rust target triple. Repeatable.
  --out-dir <path>        Output directory. Default: target/clash-tui-dist
  --docker                Run the package job inside Docker. Default when launched on the host.
  --no-docker             Run directly on the current host.
  --skip-build            Reuse an existing binary instead of building.
  --binary <path>         clash-tui binary to package.
  --mihomo-bin <path>     Local mihomo binary to package.
  --geo-dir <path>        Directory containing Country.mmdb, geosite.dat, geoip.dat.
  --skip-archive          Assemble package directory without tar.gz.
  -h, --help              Show this help.
"
}

/// What a package target needs: its architecture name, its Docker
/// platform and the name of its core binary.
#[derive(Debug, Clone, Copy, PartialEq, Eq)]
pub struct TargetInfo {
    pub package_arch: &'static str,
    pub docker_platform: &'static str,
    pub mihomo_name: &'static str,
}

/// The packaging facts of a supported target triple.
pub open spec fn target_text(target: Seq<char>) -> Option<(Seq<char>, Seq<char>, Seq<char>)> {
    if target == "x86_64-unknown-linux-gnu"@ {
        Some(("x86_64"@, "linux/amd64"@, "mihomo-linux-amd64-v2"@))
    } else if target == "aarch64-unknown-linux-gnu"@ {
        Some(("aarch64"@, "linux/arm64"@, "mihomo-linux-arm64"@))
    } else {
        None
    }
}

/// The packaging facts of a target, or an error for an unsupported one.
pub fn target_info(target: &str) -> (r: Result<TargetInfo, String>)
    ensures
        match r {
            Ok(t) => target_text(target@) == Some((t.package_arch@, t.docker_platform@, t.mihomo_name@)),
            Err(e) => target_text(target@) is None && e@ == "unsupported target: "@ + target@,
        },
{
    if str_eq(target, "x86_64-unknown-linux-gnu") {
        Ok(
            TargetInfo {
                package_arch: "x86_64",
                docker_platform: "linux/amd64",
                mihomo_name: "mihomo-linux-amd64-v2",
            },
        )
    } else if str_eq(target, "aarch64-unknown-linux-gnu") {
        Ok(
            TargetInfo {
                package_arch: "aarch64",
                docker_platform: "linux/arm64",
                mihomo_name: "mihomo-linux-arm64",
            },
        )
    } else {
        let mut v = to_chars("unsupported target: ");
        push_str(&mut v, target);
        Err(from_chars(&v))
    }
}

/// The quoted value of a `key = "value"` line: after the first `=`,
/// trimmed, it must start with a quote; the value runs to the next quote.
pub open spec fn toml_string_value(line: Seq<char>) -> Option<Seq<char>> {
    match find(line, "="@) {
        None => None,
        Some(i) => {
            let value = trim(line.skip(i + 1));
            if value.len() > 0 && value[0] == '"' {
                let rest = value.skip(1);
                match find(rest, seq!['"']) {
                    Some(j) => Some(rest.take(j)),
                    None => None,
                }
            } else {
                None
            }
        },
    }
}

/// Reads the quoted value of a `key = "value"` line.
pub fn read_toml_line_string(line: &str) -> (r: Option<String>)
    ensures
        match r {
            Some(v) => toml_string_value(line@) == Some(v@),
            None => toml_string_value(line@) is None,
        },
{
    let c = to_chars(line);
    let eq = vec!['='];
    proof {
        reveal_strlit("=");
        assert(eq@ =~= "="@);
    }
    let i = match chars_find_from(&c, &eq, 0) {
        None => {
            return None;
        },
        Some(i) => i,
    };
    proof {
        lemma_find_sound(c@, eq@, 0);
    }
    let clen = c.len();
    assert(i + 1 <= clen);
    let after = chars_sub(&c, i + 1, clen);
    proof {
        assert(after@ =~= line@.skip(i + 1));
    }
    let value = chars_trim(&after);
    if value.len() == 0 || value[0] != '"' {
        return None;
    }
    let rest = chars_sub(&value, 1, value.len());
    proof {
        assert(rest@ =~= value@.skip(1));
    }
    let quote = vec!['"'];
    proof {
        assert(quote@ =~= seq!['"']);
    }
    match chars_find_from(&rest, &quote, 0) {
        Some(j) => {
            proof {
                lemma_find_sound(rest@, quote@, 0);
            }
            Some(from_chars(&chars_sub(&rest, 0, j)))
        },
        None => None,
    }
}

/// Scanning the lines of the workspace manifest from `lines[0]` on, inside
/// the app metadata section or not: the value of the first `app-version`
/// line of that section.
pub open spec fn app_version_scan(lines: Seq<Seq<char>>, in_section: bool) -> Option<Seq<char>>
    decreases lines.len(),
{
    if lines.len() == 0 {
        None
    } else {
        let t = trim(lines[0]);
        if starts_with(t, "["@) {
            app_version_scan(lines.skip(1), t == "[workspace.metadata.clash-tui]"@)
        } else if in_section && starts_with(t, "app-version"@) {
            toml_string_value(t)
        } else {
            app_version_scan(lines.skip(1), in_section)
        }
    }
}

/// Reads the app version from the workspace manifest.
pub fn read_workspace_app_version(content: &str) -> (r: Option<String>)
    ensures
        match r {
            Some(v) => app_version_scan(text_lines(content@), false) == Some(v@),
            None => app_version_scan(text_lines(content@), false) is None,
        },
{
    let lines = crate::details::split_lines(content);
    let ghost model = crate::strs::views(lines@);
    let mut in_section = false;
    let mut i: usize = 0;
    proof {
        assert(model.skip(0) =~= model);
    }
    while i < lines.len()
        invariant
            i <= lines.len(),
            model == crate::strs::views(lines@),
            model == text_lines(content@),
            app_version_scan(model, false) == app_version_scan(model.skip(i as int), in_section),
        decreases lines.len() - i,
    {
        proof {
            assert(model.skip(i as int)[0] == lines@[i as int]@);
            assert(model.skip(i as int).skip(1) =~= model.skip(i + 1));
        }
        let t = chars_trim(&to_chars(lines[i].as_str()));
        if chars_starts_with(&t, "[") {
            let header = to_chars("[workspace.metadata.clash-tui]");
            in_section = crate::strs::chars_eq(&t, &header);
        } else if in_section && chars_starts_with(&t, "app-version") {
            let text = from_chars(&t);
            return read_toml_line_string(text.as_str());
        }
        i += 1;
    }
    None
}

/// The 64-bit FNV-1a hash of the bytes.
pub open spec fn fnv_hash(bytes: Seq<u8>) -> u64
    decreases bytes.len(),
{
    if bytes.len() == 0 {
        0xcbf2_9ce4_8422_2325u64
    } else {
        (fnv_hash(bytes.drop_last()) ^ (bytes.last() as u64)).wrapping_mul(0x0000_0100_0000_01b3u64)
    }
}

/// Hashes bytes with 64-bit FNV-1a.
pub fn fnv64(bytes: &[u8]) -> (r: u64)
    ensures
        r == fnv_hash(bytes@),
{
    let mut hash: u64 = 0xcbf2_9ce4_8422_2325u64;
    let mut i: usize = 0;
    while i < bytes.len()
        invariant
            i <= bytes.len(),
            hash == fnv_hash(bytes@.take(i as int)),
        decreases bytes.len() - i,
    {
        proof {
            assert(bytes@.take(i + 1).drop_last() =~= bytes@.take(i as int));
        }
        hash = (hash ^ (bytes[i] as u64)).wrapping_mul(0x0000_0100_0000_01b3u64);
        i += 1;
    }
    proof {
        assert(bytes@.take(bytes.len() as int) =~= bytes@);
    }
    hash
}

/// The text without its trailing slashes.
pub open spec fn without_trailing_slashes(s: Seq<char>) -> Seq<char>
    decreases s.len(),
{
    if s.len() > 0 && s.last() == '/' {
        without_trailing_slashes(s.drop_last())
    } else {
        s
    }
}

fn chars_strip_slashes(s: &Vec<char>) -> (r: Vec<char>)
    ensures
        r@ == without_trailing_slashes(s@),
{
    let mut n = s.len();
    proof {
        assert(s@.take(n as int) =~= s@);
    }
    while n > 0 && s[n - 1] == '/'
        invariant
            n <= s.len(),
            without_trailing_slashes(s@) == without_trailing_slashes(s@.take(n as int)),
        decreases n,
    {
        proof {
            assert(s@.take(n as int).drop_last() =~= s@.take(n - 1));
        }
        n -= 1;
    }
    chars_sub(s, 0, n)
}

/// A URL or path without its trailing slashes.
pub fn strip_trailing_slash(value: &str) -> (r: String)
    ensures
        r@ == without_trailing_slashes(value@),
{
    let c = to_chars(value);
    from_chars(&chars_strip_slashes(&c))
}

/// The text after the last `/`.
pub open spec fn last_segment(s: Seq<char>) -> Seq<char>
    decreases s.len(),
{
    if s.len() == 0 || s.last() == '/' {
        Seq::empty()
    } else {
        last_segment(s.drop_last()).push(s.last())
    }
}

/// A character kept in a cache file name; others become `_`.
pub open spec fn safe_name_char(c: char) -> char {
    if ('a' <= c && c <= 'z') || ('A' <= c && c <= 'Z') || ('0' <= c && c <= '9') || c == '.' || c
        == '_' || c == '-' {
        c
    } else {
        '_'
    }
}

pub open spec fn hex_char(d: nat) -> char {
    if d < 10 {
        (d + 48) as char
    } else {
        (d + 87) as char
    }
}

/// The last `n` hexadecimal digits of `v`, most significant first.
pub open spec fn hex_digits(v: nat, n: nat) -> Seq<char>
    decreases n,
{
    if n == 0 {
        Seq::empty()
    } else {
        hex_digits(v / 16, (n - 1) as nat).push(hex_char(v % 16))
    }
}

fn push_hex(out: &mut Vec<char>, v: u64, n: u32)
    ensures
        final(out)@ == old(out)@ + hex_digits(v as nat, n as nat),
    decreases n,
{
    if n == 0 {
        proof {
            assert(old(out)@ + hex_digits(v as nat, 0) =~= old(out)@);
        }
        return;
    }
    push_hex(out, v / 16, n - 1);
    let d = (v % 16) as u32;
    let code = if d < 10 {
        d + 48
    } else {
        d + 87
    };
    let c = match crate::strs::char_from_u32(code) {
        Some(c) => c,
        None => '0',
    };
    out.push(c);
    proof {
        assert(c == hex_char((v % 16) as nat));
        assert(old(out)@ + hex_digits(v as nat, n as nat) =~= old(out)@ + hex_digits(
            (v / 16) as nat,
            (n - 1) as nat,
        ) + seq![c]);
    }
}

/// The name under which a download is cached: the FNV-1a hash of the URL's
/// bytes in 16 hex digits, `-`, and the last path segment of the URL
/// (query and trailing slashes removed; `fallback_name` when empty) with
/// unusual characters replaced by `_`.
pub open spec fn cache_name(url: Seq<char>, fallback_name: Seq<char>) -> Seq<char> {
    let hash = fnv_hash(encode_utf8(url));
    let path_part = without_trailing_slashes(
        match find(url, "?"@) {
            Some(q) => url.take(q),
            None => url,
        },
    );
    let base = if last_segment(path_part).len() > 0 {
        last_segment(path_part)
    } else {
        fallback_name
    };
    hex_digits(hash as nat, 16) + "-"@ + base.map_values(|c: char| safe_name_char(c))
}

/// The name under which a download is cached.
pub fn cache_file_name(url: &str, fallback_name: &str) -> (r: String)
    ensures
        r@ == cache_name(url@, fallback_name@),
{
    let hash = fnv64(url.as_bytes());
    let c = to_chars(url);
    let q = vec!['?'];
    proof {
        reveal_strlit("?");
        assert(q@ =~= "?"@);
    }
    let before_query = match chars_find_from(&c, &q, 0) {
        Some(i) => {
            proof {
                lemma_find_sound(c@, q@, 0);
            }
            chars_sub(&c, 0, i)
        },
        None => c,
    };
    let path_part = chars_strip_slashes(&before_query);
    let mut start = path_part.len();
    proof {
        assert(path_part@.take(start as int) =~= path_part@);
        assert(path_part@.subrange(start as int, start as int) =~= Seq::<char>::empty());
        assert(last_segment(path_part@) + Seq::<char>::empty() =~= last_segment(path_part@));
    }
    while start > 0 && path_part[start - 1] != '/'
        invariant
            start <= path_part.len(),
            last_segment(path_part@) == last_segment(path_part@.take(start as int)) + path_part@.subrange(
                start as int,
                path_part@.len() as int,
            ),
        decreases start,
    {
        proof {
            let t = path_part@.take(start as int);
            assert(t.drop_last() =~= path_part@.take(start - 1));
            assert(path_part@.subrange(start - 1, path_part@.len() as int) =~= seq![t.last()]
                + path_part@.subrange(start as int, path_part@.len() as int));
        }
        start -= 1;
    }
    proof {
        assert(last_segment(path_part@.take(start as int)) =~= Seq::<char>::empty());
    }
    let segment = chars_sub(&path_part, start, path_part.len());
    let base = if segment.len() > 0 {
        segment
    } else {
        to_chars(fallback_name)
    };
    let mut out: Vec<char> = Vec::new();
    push_hex(&mut out, hash, 16);
    out.push('-');
    let ghost head = out@;
    let mut k: usize = 0;
    while k < base.len()
        invariant
            k <= base.len(),
            out@ == head + base@.take(k as int).map_values(|c: char| safe_name_char(c)),
        decreases base.len() - k,
    {
        let ch = base[k];
        let keep = ('a' <= ch && ch <= 'z') || ('A' <= ch && ch <= 'Z') || ('0' <= ch && ch <= '9')
            || ch == '.' || ch == '_' || ch == '-';
        out.push(if keep { ch } else { '_' });
        proof {
            assert(base@.take(k + 1).map_values(|c: char| safe_name_char(c)) =~= base@.take(
                k as int,
            ).map_values(|c: char| safe_name_char(c)).push(safe_name_char(ch)));
        }
        k += 1;
    }
    proof {
        reveal_strlit("-");
        assert(base@.take(base.len() as int) =~= base@);
        assert(out@ =~= cache_name(url@, fallback_name@));
    }
    from_chars(&out)
}

/// The core's release for a target: the version as given but trimmed,
/// the archive `<core name>-<version>.gz` and its URL under `base_url`.
pub fn mihomo_release(target: &str, version: &str, base_url: &str) -> (r: Result<(String, String, String), String>)
    ensures
        match target_text(target@) {
            None => r matches Err(e) && e@ == "unsupported target: "@ + target@,
            Some(t) => if trim(version@).len() == 0 {
                r matches Err(e) && e@ == "failed to resolve mihomo version"@
            } else {
                r matches Ok(x) && x.0@ == trim(version@) && x.1@ == t.2 + "-"@ + trim(version@) + ".gz"@
                    && x.2@ == without_trailing_slashes(base_url@) + "/"@ + trim(version@) + "/"@ + x.1@
            },
        },
{
    let info = match target_info(target) {
        Ok(info) => info,
        Err(e) => {
            return Err(e);
        },
    };
    let v = str_trim(version);
    if v.len() == 0 {
        return Err(owned("failed to resolve mihomo version"));
    }
    let mut archive = to_chars(info.mihomo_name);
    push_str(&mut archive, "-");
    push_all(&mut archive, &v);
    push_str(&mut archive, ".gz");
    let base = to_chars(base_url);
    let mut url = chars_strip_slashes(&base);
    push_str(&mut url, "/");
    push_all(&mut url, &v);
    push_str(&mut url, "/");
    push_all(&mut url, &archive);
    Ok((from_chars(&v), from_chars(&archive), from_chars(&url)))
}

/// The geo resources of a package: the file name in the package, the
/// file name in the release and the variable that can name its URL.
pub open spec fn geo_resources_of() -> Seq<(Seq<char>, Seq<char>, Seq<char>)> {
    seq![
        ("Country.mmdb"@, "country.mmdb"@, "CLASH_TUI_PACKAGE_GEO_COUNTRY_URL"@),
        ("geosite.dat"@, "geosite.dat"@, "CLASH_TUI_PACKAGE_GEO_GEOSITE_URL"@),
        ("geoip.dat"@, "geoip.dat"@, "CLASH_TUI_PACKAGE_GEO_GEOIP_URL"@),
    ]
}

pub fn geo_resources() -> (r: Vec<(&'static str, &'static str, &'static str)>)
    ensures
        r@.map_values(|g: (&str, &str, &str)| (g.0@, g.1@, g.2@)) == geo_resources_of(),
{
    let r = vec![
        ("Country.mmdb", "country.mmdb", "CLASH_TUI_PACKAGE_GEO_COUNTRY_URL"),
        ("geosite.dat", "geosite.dat", "CLASH_TUI_PACKAGE_GEO_GEOSITE_URL"),
        ("geoip.dat", "geoip.dat", "CLASH_TUI_PACKAGE_GEO_GEOIP_URL"),
    ];
    proof {
        assert(r@.map_values(|g: (&str, &str, &str)| (g.0@, g.1@, g.2@)) =~= geo_resources_of());
    }
    r
}

/// Where a geo resource is downloaded from: the URL its variable names,
/// else `<base without trailing slashes>/<release file>`.
pub fn geo_download_url(named_url: Option<&str>, base_url: &str, remote_file: &str) -> (r: String)
    ensures
        r@ == (match named_url {
            Some(u) => u@,
            None => without_trailing_slashes(base_url@) + "/"@ + remote_file@,
        }),
{
    match named_url {
        Some(u) => owned(u),
        None => {
            let base = to_chars(base_url);
            let mut v = chars_strip_slashes(&base);
            push_str(&mut v, "/");
            push_str(&mut v, remote_file);
            from_chars(&v)
        },
    }
}

/// The name of the package of an architecture.
pub fn package_name(arch: &str) -> (r: String)
    ensures
        r@ == "clash-tui-linux-"@ + arch@,
{
    let mut v = to_chars("clash-tui-linux-");
    push_str(&mut v, arch);
    from_chars(&v)
}

/// Packaging in Docker builds everything itself: it refuses the options
/// that bring local inputs.
pub fn docker_override_error(options: &PackageArgs) -> (r: Option<String>)
    ensures
        (options.skip_build || options.binary is Some || options.mihomo_bin is Some || options.geo_dir is Some) ==> (
        r matches Some(e)
            && e@ == "Docker packaging does not support local override inputs; use --no-docker for --skip-build, --binary, --mihomo-bin, or --geo-dir"@),
        !(options.skip_build || options.binary is Some || options.mihomo_bin is Some || options.geo_dir is Some)
            ==> r is None,
{
    if options.skip_build || options.binary.is_some() || options.mihomo_bin.is_some() || options.geo_dir.is_some() {
        Some(
            owned(
                "Docker packaging does not support local override inputs; use --no-docker for --skip-build, --binary, --mihomo-bin, or --geo-dir",
            ),
        )
    } else {
        None
    }
}

/// A dirty source tree is refused when a clean one is required.
pub fn clean_source_verdict(require_clean: bool, source_dirty: bool) -> (r: Result<(), String>)
    ensures
        require_clean && source_dirty ==> (r matches Err(e)
            && e@ == "working tree is dirty; commit/stash changes or unset CLASH_TUI_PACKAGE_REQUIRE_CLEAN"@),
        !(require_clean && source_dirty) ==> r is Ok,
{
    if require_clean && source_dirty {
        Err(owned("working tree is dirty; commit/stash changes or unset CLASH_TUI_PACKAGE_REQUIRE_CLEAN"))
    } else {
        Ok(())
    }
}

/// The environment variables handed on to the packaging container when
/// they are set.
pub open spec fn pass_through_env_text() -> Seq<Seq<char>> {
    seq![
        "HTTP_PROXY"@,
        "HTTPS_PROXY"@,
        "NO_PROXY"@,
        "http_proxy"@,
        "https_proxy"@,
        "no_proxy"@,
        "CARGO_HTTP_TIMEOUT"@,
        "CARGO_HTTP_MULTIPLEXING"@,
        "CARGO_REGISTRIES_CRATES_IO_PROTOCOL"@,
        "CLASH_TUI_PACKAGE_MIHOMO_VERSION"@,
        "CLASH_TUI_PACKAGE_MIHOMO_VERSION_URL"@,
        "CLASH_TUI_PACKAGE_MIHOMO_BASE_URL"@,
        "CLASH_TUI_PACKAGE_GEO_BASE_URL"@,
        "CLASH_TUI_PACKAGE_GEO_COUNTRY_URL"@,
        "CLASH_TUI_PACKAGE_GEO_GEOSITE_URL"@,
        "CLASH_TUI_PACKAGE_GEO_GEOIP_URL"@,
    ]
}

/// See `pass_through_env_text`.
pub fn pass_through_env() -> (r: Vec<&'static str>)
    ensures
        str_views(r@) == pass_through_env_text(),
{
    let r = vec![
        "HTTP_PROXY",
        "HTTPS_PROXY",
        "NO_PROXY",
        "http_proxy",
        "https_proxy",
        "no_proxy",
        "CARGO_HTTP_TIMEOUT",
        "CARGO_HTTP_MULTIPLEXING",
        "CARGO_REGISTRIES_CRATES_IO_PROTOCOL",
        "CLASH_TUI_PACKAGE_MIHOMO_VERSION",
        "CLASH_TUI_PACKAGE_MIHOMO_VERSION_URL",
        "CLASH_TUI_PACKAGE_MIHOMO_BASE_URL",
        "CLASH_TUI_PACKAGE_GEO_BASE_URL",
        "CLASH_TUI_PACKAGE_GEO_COUNTRY_URL",
        "CLASH_TUI_PACKAGE_GEO_GEOSITE_URL",
        "CLASH_TUI_PACKAGE_GEO_GEOIP_URL",
    ];
    proof {
        assert(str_views(r@) =~= pass_through_env_text());
    }
    r
}

/// `--build-arg NAME=value` when the setting is given, nothing else.
pub open spec fn build_arg_pair(name: Seq<char>, value: Option<Seq<char>>) -> Seq<Seq<char>> {
    match value {
        Some(v) => seq!["--build-arg"@, name + "="@ + v],
        None => Seq::empty(),
    }
}

fn push_build_arg(out: &mut Vec<String>, name: &str, value: Option<&str>)
    ensures
        views(final(out)@) == views(old(out)@) + build_arg_pair(
            name@,
            match value {
                Some(v) => Some(v@),
                None => None,
            },
        ),
{
    if let Some(v) = value {
        let mut t = to_chars(name);
        push_str(&mut t, "=");
        push_str(&mut t, v);
        let ghost before = views(out@);
        out.push(owned("--build-arg"));
        out.push(from_chars(&t));
        proof {
            assert(views(out@) =~= before + build_arg_pair(name@, Some(v@)));
        }
    } else {
        proof {
            assert(views(out@) =~= views(out@) + Seq::<Seq<char>>::empty());
        }
    }
}

pub open spec fn opt_view_str(v: Option<&str>) -> Option<Seq<char>> {
    match v {
        Some(t) => Some(t@),
        None => None,
    }
}

/// The mirror arguments of the builder image build: the Debian mirror, the
/// Debian security mirror and the rustup server, each where it is set.
pub fn docker_build_args(debian_mirror: Option<&str>, security_mirror: Option<&str>, rustup_server: Option<&str>) -> (r:
    Vec<String>)
    ensures
        views(r@) == build_arg_pair("DEBIAN_MIRROR"@, opt_view_str(debian_mirror)) + build_arg_pair(
            "DEBIAN_SECURITY_MIRROR"@,
            opt_view_str(security_mirror),
        ) + build_arg_pair("RUSTUP_DIST_SERVER"@, opt_view_str(rustup_server)),
{
    let mut out: Vec<String> = Vec::new();
    proof {
        assert(views(out@) =~= Seq::<Seq<char>>::empty());
    }
    push_build_arg(&mut out, "DEBIAN_MIRROR", debian_mirror);
    push_build_arg(&mut out, "DEBIAN_SECURITY_MIRROR", security_mirror);
    push_build_arg(&mut out, "RUSTUP_DIST_SERVER", rustup_server);
    proof {
        assert(views(out@) =~= build_arg_pair("DEBIAN_MIRROR"@, opt_view_str(debian_mirror)) + build_arg_pair(
            "DEBIAN_SECURITY_MIRROR"@,
            opt_view_str(security_mirror),
        ) + build_arg_pair("RUSTUP_DIST_SERVER"@, opt_view_str(rustup_server)));
    }
    out
}

/// `-e NAME` for each name, in order.
pub open spec fn env_flags(names: Seq<Seq<char>>) -> Seq<Seq<char>>
    decreases names.len(),
{
    if names.len() == 0 {
        Seq::empty()
    } else {
        env_flags(names.drop_last()) + seq!["-e"@, names.last()]
    }
}

/// The script the packaging container runs.
pub open spec fn container_script_text() -> Seq<char> {
    "\nset -e\nmkdir -p /workspace /out\ntar -C /source \\\n  --exclude='./target' \\\n  -cf - . | tar -C /workspace -xf -\ncd /workspace\nif [ -n \"${CLASH_TUI_PACKAGE_SKIP_ARCHIVE:-}\" ]; then\n  cargo xtask package --no-docker --target \"$CLASH_TUI_PACKAGE_TARGET\" --out-dir /out --skip-archive\nelse\n  cargo xtask package --no-docker --target \"$CLASH_TUI_PACKAGE_TARGET\" --out-dir /out\nfi\n"@
}

/// The arguments of `docker run` that packages one target inside the
/// builder image: the container's environment (the commit, whether the tree
/// is dirty, the target, the caches, skipping the archive when asked, and
/// the handed-on variables in `passed`), the mounts of the workspace
/// (`root`), the output directory and the two caches, and the script.
pub open spec fn docker_run_text(
    revision: Seq<char>,
    dirty: bool,
    target: Seq<char>,
    skip_archive: bool,
    passed: Seq<Seq<char>>,
    root: Seq<char>,
    out_dir: Seq<char>,
    cargo_cache: Seq<char>,
    download_cache: Seq<char>,
) -> Seq<Seq<char>> {
    seq!["run"@, "--rm"@, "-e"@, "CLASH_TUI_PACKAGE_INSIDE_DOCKER=1"@, "-e"@, "CLASH_TUI_PACKAGE_GIT_COMMIT="@ + revision, "-e"@,
        "CLASH_TUI_PACKAGE_GIT_DIRTY="@ + (if dirty { "1"@ } else { "0"@ }), "-e"@, "CLASH_TUI_PACKAGE_TARGET="@ + target,
        "-e"@, "CARGO_HOME=/cargo-cache"@, "-e"@, "CLASH_TUI_PACKAGE_DOWNLOAD_CACHE_DIR=/download-cache"@]
        + (if skip_archive { seq!["-e"@, "CLASH_TUI_PACKAGE_SKIP_ARCHIVE=1"@] } else { Seq::empty() })
        + env_flags(passed)
        + seq!["-v"@, root + ":/source:ro"@, "-v"@, out_dir + ":/out"@, "-v"@, cargo_cache + ":/cargo-cache"@, "-v"@,
        download_cache + ":/download-cache"@, "-w"@, "/workspace"@, "clash-tui-package:builder"@, "sh"@, "-c"@,
        container_script_text()]
}

fn joined(a: &str, b: &str) -> (r: String)
    ensures
        r@ == a@ + b@,
{
    let mut t = to_chars(a);
    push_str(&mut t, b);
    from_chars(&t)
}

/// See `docker_run_text`.
pub fn docker_run_args(
    revision: &str,
    dirty: bool,
    target: &str,
    skip_archive: bool,
    passed: &Vec<String>,
    root: &str,
    out_dir: &str,
    cargo_cache: &str,
    download_cache: &str,
) -> (r: Vec<String>)
    ensures
        views(r@) == docker_run_text(
            revision@,
            dirty,
            target@,
            skip_archive,
            views(passed@),
            root@,
            out_dir@,
            cargo_cache@,
            download_cache@,
        ),
{
    let mut out: Vec<String> = vec![
        owned("run"),
        owned("--rm"),
        owned("-e"),
        owned("CLASH_TUI_PACKAGE_INSIDE_DOCKER=1"),
        owned("-e"),
        joined("CLASH_TUI_PACKAGE_GIT_COMMIT=", revision),
        owned("-e"),
        joined("CLASH_TUI_PACKAGE_GIT_DIRTY=", if dirty { "1" } else { "0" }),
        owned("-e"),
        joined("CLASH_TUI_PACKAGE_TARGET=", target),
        owned("-e"),
        owned("CARGO_HOME=/cargo-cache"),
        owned("-e"),
        owned("CLASH_TUI_PACKAGE_DOWNLOAD_CACHE_DIR=/download-cache"),
    ];
    let ghost head = views(out@);
    proof {
        assert(head =~= seq!["run"@, "--rm"@, "-e"@, "CLASH_TUI_PACKAGE_INSIDE_DOCKER=1"@, "-e"@, "CLASH_TUI_PACKAGE_GIT_COMMIT="@ + revision@, "-e"@,
        "CLASH_TUI_PACKAGE_GIT_DIRTY="@ + (if dirty { "1"@ } else { "0"@ }), "-e"@, "CLASH_TUI_PACKAGE_TARGET="@ + target@,
        "-e"@, "CARGO_HOME=/cargo-cache"@, "-e"@, "CLASH_TUI_PACKAGE_DOWNLOAD_CACHE_DIR=/download-cache"@]);
    }
    if skip_archive {
        out.push(owned("-e"));
        out.push(owned("CLASH_TUI_PACKAGE_SKIP_ARCHIVE=1"));
    }
    let ghost with_skip = views(out@);
    proof {
        assert(with_skip =~= head + (if skip_archive { seq!["-e"@, "CLASH_TUI_PACKAGE_SKIP_ARCHIVE=1"@] } else { Seq::empty() }));
    }
    let mut i: usize = 0;
    proof {
        assert(views(passed@).take(0) =~= Seq::<Seq<char>>::empty());
        assert(with_skip + env_flags(Seq::empty()) =~= with_skip);
    }
    while i < passed.len()
        invariant
            i <= passed.len(),
            views(out@) == with_skip + env_flags(views(passed@).take(i as int)),
        decreases passed.len() - i,
    {
        let ghost before = views(out@);
        out.push(owned("-e"));
        out.push(owned(passed[i].as_str()));
        proof {
            assert(views(passed@).take(i + 1).drop_last() =~= views(passed@).take(i as int));
            assert(views(out@) =~= before + seq!["-e"@, passed@[i as int]@]);
            assert(views(out@) =~= with_skip + env_flags(views(passed@).take(i + 1)));
        }
        i += 1;
    }
    proof {
        assert(views(passed@).take(passed.len() as int) =~= views(passed@));
    }
    let ghost mid = views(out@);
    out.push(owned("-v"));
    out.push(joined(root, ":/source:ro"));
    out.push(owned("-v"));
    out.push(joined(out_dir, ":/out"));
    out.push(owned("-v"));
    out.push(joined(cargo_cache, ":/cargo-cache"));
    out.push(owned("-v"));
    out.push(joined(download_cache, ":/download-cache"));
    out.push(owned("-w"));
    out.push(owned("/workspace"));
    out.push(owned("clash-tui-package:builder"));
    out.push(owned("sh"));
    out.push(owned("-c"));
    out.push(owned("\nset -e\nmkdir -p /workspace /out\ntar -C /source \\\n  --exclude='./target' \\\n  -cf - . | tar -C /workspace -xf -\ncd /workspace\nif [ -n \"${CLASH_TUI_PACKAGE_SKIP_ARCHIVE:-}\" ]; then\n  cargo xtask package --no-docker --target \"$CLASH_TUI_PACKAGE_TARGET\" --out-dir /out --skip-archive\nelse\n  cargo xtask package --no-docker --target \"$CLASH_TUI_PACKAGE_TARGET\" --out-dir /out\nfi\n"));
    proof {
        assert(views(out@) =~= mid + seq!["-v"@, root@ + ":/source:ro"@, "-v"@, out_dir@ + ":/out"@, "-v"@, cargo_cache@ + ":/cargo-cache"@, "-v"@,
        download_cache@ + ":/download-cache"@, "-w"@, "/workspace"@, "clash-tui-package:builder"@, "sh"@, "-c"@,
        container_script_text()]);
        assert(views(out@) =~= docker_run_text(
            revision@,
            dirty,
            target@,
            skip_archive,
            views(passed@),
            root@,
            out_dir@,
            cargo_cache@,
            download_cache@,
        ));
    }
    out
}

} // verus!
