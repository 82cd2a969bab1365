use clash_tui::package::{
    clean_source_verdict, docker_override_error, fnv64, geo_download_url, geo_resources, help_text, mihomo_release,
    package_name, target_info,
};
use clash_tui::package_verify::{
    bootstrap_checks, commit_check, executable_checks, geo_hash_check, last_check_ok, marker_checks,
    package_file_checks, report_ok, sidecar_checks, Check,
};
use clash_tui::xtask::{
    cargo_args, cargo_metadata_packages, check_package_licenses, ci_steps, display_command, metadata_packages,
    missing_cargo_deny, package_id, parse_command, JsonNode, PackageLicense, XtaskCommand,
};
use clash_tui::xtask_args::{parse_package_args, parse_verify_args};

fn args(items: &[&str]) -> Vec<String> {
    items.iter().map(|s| s.to_string()).collect()
}

#[test]
fn package_args_default_to_the_x86_target_and_docker_on_the_host() {
    let p = parse_package_args(&args(&[]), false).unwrap();
    assert_eq!(p.targets, vec!["x86_64-unknown-linux-gnu".to_string()]);
    assert!(p.docker);
    assert!(!p.skip_build && !p.skip_archive && !p.help);
    assert_eq!(p.out_dir, None);
    let inside = parse_package_args(&args(&[]), true).unwrap();
    assert!(!inside.docker);
}

#[test]
fn package_args_read_values_and_switches_in_order() {
    let p = parse_package_args(
        &args(&[
            "--target",
            "aarch64-unknown-linux-gnu",
            "--target",
            "x86_64-unknown-linux-gnu",
            "--no-docker",
            "--skip-build",
            "--out-dir",
            "dist",
            "--binary",
            "bin/clash-tui",
            "--mihomo-bin",
            "bin/mihomo",
            "--geo-dir",
            "geo",
            "--skip-archive",
        ]),
        false,
    )
    .unwrap();
    assert_eq!(
        p.targets,
        vec!["aarch64-unknown-linux-gnu".to_string(), "x86_64-unknown-linux-gnu".to_string()]
    );
    assert!(!p.docker && p.skip_build && p.skip_archive && !p.help);
    assert_eq!(p.out_dir.as_deref(), Some("dist"));
    assert_eq!(p.binary.as_deref(), Some("bin/clash-tui"));
    assert_eq!(p.mihomo_bin.as_deref(), Some("bin/mihomo"));
    assert_eq!(p.geo_dir.as_deref(), Some("geo"));
}

#[test]
fn package_args_report_each_error() {
    assert_eq!(parse_package_args(&args(&["--target"]), false).unwrap_err(), "--target requires a value");
    assert_eq!(parse_package_args(&args(&["--bogus"]), false).unwrap_err(), "unknown argument: --bogus");
    assert_eq!(
        parse_package_args(&args(&["--target", "riscv64gc-unknown-linux-gnu"]), false).unwrap_err(),
        "unsupported target: riscv64gc-unknown-linux-gnu"
    );
    let help = parse_package_args(&args(&["--no-docker", "--help", "--bogus"]), false).unwrap();
    assert!(help.help);
}

#[test]
fn verify_args_require_an_archive_unless_help_is_asked() {
    assert_eq!(parse_verify_args(&args(&[])).unwrap_err(), "--archive is required");
    assert_eq!(parse_verify_args(&args(&["--json"])).unwrap_err(), "--archive is required");
    assert!(parse_verify_args(&args(&["-h"])).unwrap().help);
    let v = parse_verify_args(&args(&[
        "--archive",
        "out/pkg.tar.gz",
        "--manifest",
        "out/pkg.json",
        "--bootstrap",
        "out/install.sh",
        "--expect-commit",
        "abc123",
        "--require-clean-source",
        "--json",
    ]))
    .unwrap();
    assert_eq!(v.archive.as_deref(), Some("out/pkg.tar.gz"));
    assert_eq!(v.manifest.as_deref(), Some("out/pkg.json"));
    assert_eq!(v.bootstrap.as_deref(), Some("out/install.sh"));
    assert_eq!(v.expect_commit.as_deref(), Some("abc123"));
    assert!(v.require_clean_source && v.json && !v.help);
    assert_eq!(parse_verify_args(&args(&["--archive"])).unwrap_err(), "--archive requires a value");
    assert_eq!(parse_verify_args(&args(&["--fast"])).unwrap_err(), "unknown option: --fast");
}

#[test]
fn package_targets_name_their_platforms() {
    let t = target_info("aarch64-unknown-linux-gnu").unwrap();
    assert_eq!(t.package_arch, "aarch64");
    assert_eq!(t.docker_platform, "linux/arm64");
    assert_eq!(t.mihomo_name, "mihomo-linux-arm64");
}

#[test]
fn fnv_hash_matches_the_reference_offsets() {
    assert_eq!(fnv64(b""), 0xcbf29ce484222325);
    assert_eq!(fnv64(b"a"), 0xaf63dc4c8601ec8c);
}

#[test]
fn command_words_name_their_tasks() {
    assert_eq!(parse_command("--help").unwrap(), XtaskCommand::Help);
    assert_eq!(parse_command("clash-tui-package").unwrap(), XtaskCommand::Package);
    assert_eq!(parse_command("verify-package").unwrap(), XtaskCommand::VerifyPackage);
    assert_eq!(parse_command("clash-tui-remote-smoke").unwrap(), XtaskCommand::RemoteSmoke);
    let err = parse_command("deploy").unwrap_err();
    assert_eq!(err, format!("unknown xtask command: deploy\n\n{}", help_text()));
}

#[test]
fn cargo_tasks_run_the_documented_cargo_lines() {
    assert_eq!(cargo_args(XtaskCommand::FormatCheck).unwrap(), vec!["fmt", "--all", "--check"]);
    assert_eq!(
        cargo_args(XtaskCommand::Clippy).unwrap(),
        vec!["clippy", "--workspace", "--all-targets", "--all-features"]
    );
    assert_eq!(cargo_args(XtaskCommand::PolicyCheck), None);
    assert_eq!(
        ci_steps(),
        vec![
            XtaskCommand::FormatCheck,
            XtaskCommand::WorkspaceCheck,
            XtaskCommand::PolicyCheck,
            XtaskCommand::Clippy,
            XtaskCommand::ScriptsCheck,
            XtaskCommand::ScriptsTest,
            XtaskCommand::WorkspaceTest,
        ]
    );
}

#[test]
fn command_lines_are_shown_space_separated() {
    assert_eq!(display_command("cargo", &args(&["test", "-p", "xtask"])), "cargo test -p xtask");
    assert_eq!(display_command("bash", &[]), "bash");
    assert_eq!(package_id(Some("serde"), Some("1.0.0")), "serde@1.0.0");
    assert_eq!(package_id(None, None), "<unknown>@<unknown>");
}

fn pkg(id: &str, license: Option<&str>) -> PackageLicense {
    PackageLicense { id: id.to_string(), license: license.map(|l| l.to_string()) }
}

#[test]
fn license_check_counts_packages_and_distinct_expressions() {
    let allowed = args(&["MIT", "Apache-2.0", "Apache-2.0 WITH LLVM-exception"]);
    let packages = vec![
        pkg("a@1", Some("MIT OR Apache-2.0")),
        pkg("b@1", Some("MIT")),
        pkg("c@1", Some("MIT OR Apache-2.0")),
        pkg("d@1", Some("Apache-2.0 WITH LLVM-exception")),
    ];
    assert_eq!(
        check_package_licenses(&packages, &allowed).unwrap(),
        "supply-chain check: metadata licenses ok (4 packages, 3 expressions)"
    );
}

#[test]
fn license_check_reports_missing_then_disallowed() {
    let allowed = args(&["MIT"]);
    let missing = vec![pkg("a@1", None), pkg("b@1", Some("GPL-3.0")), pkg("c@2", None)];
    assert_eq!(
        check_package_licenses(&missing, &allowed).unwrap_err(),
        "packages missing license metadata:\na@1\nc@2"
    );
    let bad = vec![pkg("a@1", Some("MIT")), pkg("b@1", Some("GPL-3.0 OR MIT")), pkg("c@2", Some("Zlib"))];
    assert_eq!(
        check_package_licenses(&bad, &allowed).unwrap_err(),
        "license atoms not allowed by deny.toml:\nGPL-3.0: b@1\nZlib: c@2"
    );
}

#[test]
fn missing_cargo_deny_warns_or_fails_as_required() {
    assert_eq!(
        missing_cargo_deny(false, "").unwrap(),
        "supply-chain check: cargo-deny is not installed; skipping cargo deny check"
    );
    assert_eq!(
        missing_cargo_deny(true, "no such command").unwrap_err(),
        "supply-chain check: cargo-deny is not installed (no such command); install cargo-deny or unset CLASH_TUI_REQUIRE_CARGO_DENY"
    );
}

#[test]
fn core_release_names_its_archive_and_url() {
    let (version, archive, url) =
        mihomo_release("aarch64-unknown-linux-gnu", " v1.19.2\n", "https://example.invalid/releases//").unwrap();
    assert_eq!(version, "v1.19.2");
    assert_eq!(archive, "mihomo-linux-arm64-v1.19.2.gz");
    assert_eq!(url, "https://example.invalid/releases/v1.19.2/mihomo-linux-arm64-v1.19.2.gz");
    assert_eq!(
        mihomo_release("x86_64-unknown-linux-gnu", "  ", "https://example.invalid").unwrap_err(),
        "failed to resolve mihomo version"
    );
    assert_eq!(
        mihomo_release("i686-unknown-linux-gnu", "v1", "https://example.invalid").unwrap_err(),
        "unsupported target: i686-unknown-linux-gnu"
    );
}

#[test]
fn geo_resources_download_from_the_base_unless_named() {
    let resources = geo_resources();
    assert_eq!(resources[0], ("Country.mmdb", "country.mmdb", "CLASH_TUI_PACKAGE_GEO_COUNTRY_URL"));
    assert_eq!(geo_download_url(None, "https://geo.invalid/latest/", "geoip.dat"), "https://geo.invalid/latest/geoip.dat");
    assert_eq!(geo_download_url(Some("https://mirror.invalid/ip"), "https://geo.invalid", "geoip.dat"), "https://mirror.invalid/ip");
    assert_eq!(package_name("x86_64"), "clash-tui-linux-x86_64");
}

#[test]
fn docker_packaging_refuses_local_inputs_and_dirty_trees() {
    let mut p = parse_package_args(&args(&[]), false).unwrap();
    assert_eq!(docker_override_error(&p), None);
    p.geo_dir = Some("geo".to_string());
    assert!(docker_override_error(&p).unwrap().starts_with("Docker packaging does not support local override inputs"));
    assert!(clean_source_verdict(false, true).is_ok());
    assert!(clean_source_verdict(true, false).is_ok());
    assert_eq!(
        clean_source_verdict(true, true).unwrap_err(),
        "working tree is dirty; commit/stash changes or unset CLASH_TUI_PACKAGE_REQUIRE_CLEAN"
    );
}

fn codes(checks: &[Check]) -> Vec<(bool, String)> {
    checks.iter().map(|c| (c.ok, c.code.clone())).collect()
}

#[test]
fn package_file_checks_pair_the_manifest_and_the_archive() {
    let listed = args(&["README.md", "install.sh"]);
    let present = vec![true, false, true, true, true, true, true];
    let checks = package_file_checks(&listed, &present);
    assert_eq!(checks.len(), 14);
    assert_eq!(checks[0].code, "package-files:README.md");
    assert_eq!(checks[0].message, "manifest packageFiles includes README.md");
    assert!(checks[0].ok);
    assert_eq!(checks[2].code, "package-files:env.example");
    assert!(!checks[2].ok);
    assert_eq!(checks[3].code, "file-exists:env.example");
    assert_eq!(checks[3].message, "env.example exists in archive");
    assert!(!checks[3].ok);
    assert!(!report_ok(&checks));
    assert!(last_check_ok(&checks));
}

#[test]
fn executable_marker_and_bootstrap_checks_follow_the_required_lists() {
    let exec = executable_checks(&vec![true; 6]);
    assert_eq!(exec[1].code, "file-executable:resources/mihomo");
    assert_eq!(exec[1].message, "resources/mihomo is executable");
    assert!(report_ok(&exec));
    let mut found = vec![true; 16];
    found[15] = false;
    let markers = marker_checks(&found);
    assert_eq!(markers[15].code, "file-marker:tools/clash-tui-tun-linux-smoke.py:CLASH_TUI_TUN_SMOKE");
    assert_eq!(
        markers[15].message,
        "tools/clash-tui-tun-linux-smoke.py contains required marker CLASH_TUI_TUN_SMOKE"
    );
    assert!(!last_check_ok(&markers));
    let absent = bootstrap_checks(false, false, &vec![]);
    assert_eq!(codes(&absent), vec![(false, "bootstrap-installer".to_string())]);
    let present = bootstrap_checks(true, true, &vec![true, true, false, true]);
    assert_eq!(present.len(), 6);
    assert_eq!(present[4].code, "bootstrap-installer-marker:verify_archive");
    assert!(!present[4].ok);
}

#[test]
fn sidecar_checks_compare_the_archive_metadata() {
    let missing = sidecar_checks(false, "abc", "", "pkg.tar.gz", "", true, None);
    assert_eq!(codes(&missing), vec![(false, "sidecar-manifest".to_string())]);
    let ok = sidecar_checks(true, "abc", "abc", "pkg.tar.gz", "", true, Some("abc"));
    assert_eq!(
        codes(&ok),
        vec![
            (true, "sidecar-archive-sha".to_string()),
            (true, "sidecar-archive-file".to_string()),
            (true, "sidecar-internal-manifest".to_string()),
            (true, "internal-archive-sha".to_string()),
        ]
    );
    let stale = sidecar_checks(true, "abc", "def", "pkg.tar.gz", "old.tar.gz", false, None);
    assert_eq!(
        codes(&stale),
        vec![
            (false, "sidecar-archive-sha".to_string()),
            (false, "sidecar-archive-file".to_string()),
            (false, "sidecar-internal-manifest".to_string()),
        ]
    );
    assert!(!commit_check("abc", "abd").ok);
    let geo = geo_hash_check("geoip.dat", "x", "x");
    assert!(geo.ok);
    assert_eq!(geo.code, "geo-sha:geoip.dat");
    assert_eq!(geo.message, "geoip.dat SHA matches manifest");
}

#[test]
fn cargo_metadata_packages_read_ids_and_licenses() {
    let bytes = br#"{"packages":[{"name":"a","version":"1.0.0","license":"MIT"},{"name":"b"},{"version":2}]}"#;
    let packages = cargo_metadata_packages(bytes).unwrap();
    assert_eq!(
        packages,
        vec![
            PackageLicense { id: "a@1.0.0".to_owned(), license: Some("MIT".to_owned()) },
            PackageLicense { id: "b@<unknown>".to_owned(), license: None },
            PackageLicense { id: "<unknown>@<unknown>".to_owned(), license: None },
        ]
    );
}

#[test]
fn cargo_metadata_without_a_packages_array_is_refused() {
    assert_eq!(
        cargo_metadata_packages(br#"{"packages":{}}"#),
        Err("cargo metadata JSON is missing packages array".to_owned())
    );
    assert_eq!(
        cargo_metadata_packages(b"[]"),
        Err("cargo metadata JSON is missing packages array".to_owned())
    );
}

#[test]
fn cargo_metadata_that_is_not_json_names_the_parse_error() {
    let error = cargo_metadata_packages(b"{not json").unwrap_err();
    assert!(error.starts_with("failed to parse cargo metadata JSON: "), "{error}");
    assert!(error.len() > "failed to parse cargo metadata JSON: ".len());
}

#[test]
fn metadata_packages_read_a_document_tree() {
    let doc = JsonNode::Object(vec![(
        "packages".to_owned(),
        JsonNode::List(vec![JsonNode::Object(vec![
            ("name".to_owned(), JsonNode::Text("x".to_owned())),
            ("version".to_owned(), JsonNode::Text("0.1".to_owned())),
            ("license".to_owned(), JsonNode::Text("Apache-2.0".to_owned())),
        ])]),
    )]);
    assert_eq!(
        metadata_packages(&doc),
        Ok(vec![PackageLicense { id: "x@0.1".to_owned(), license: Some("Apache-2.0".to_owned()) }])
    );
    assert_eq!(
        metadata_packages(&JsonNode::Null),
        Err("cargo metadata JSON is missing packages array".to_owned())
    );
}

use clash_tui::package::{docker_build_args, docker_run_args, pass_through_env};

#[test]
fn docker_arguments_name_the_settings_that_are_given() {
    assert_eq!(docker_build_args(None, None, None), Vec::<String>::new());
    assert_eq!(
        docker_build_args(Some("m1"), None, Some("r")),
        vec!["--build-arg", "DEBIAN_MIRROR=m1", "--build-arg", "RUSTUP_DIST_SERVER=r"]
    );
    assert_eq!(pass_through_env().len(), 16);
    assert_eq!(pass_through_env()[0], "HTTP_PROXY");
    let args = docker_run_args("abc", true, "aarch64-unknown-linux-gnu", true, &vec!["HTTP_PROXY".to_owned()], "/src", "/out", "/cc", "/dc");
    assert_eq!(&args[..4], &["run", "--rm", "-e", "CLASH_TUI_PACKAGE_INSIDE_DOCKER=1"]);
    assert!(args.contains(&"CLASH_TUI_PACKAGE_GIT_COMMIT=abc".to_owned()));
    assert!(args.contains(&"CLASH_TUI_PACKAGE_GIT_DIRTY=1".to_owned()));
    assert!(args.contains(&"CLASH_TUI_PACKAGE_TARGET=aarch64-unknown-linux-gnu".to_owned()));
    assert!(args.contains(&"CLASH_TUI_PACKAGE_SKIP_ARCHIVE=1".to_owned()));
    assert!(args.windows(2).any(|w| w == ["-e", "HTTP_PROXY"]));
    assert!(args.windows(2).any(|w| w == ["-v", "/src:/source:ro"]));
    assert!(args.windows(2).any(|w| w == ["-v", "/dc:/download-cache"]));
    let n = args.len();
    assert_eq!(&args[n - 4..n - 1], &["clash-tui-package:builder", "sh", "-c"]);
    assert!(args[n - 1].contains("cargo xtask package --no-docker --target \"$CLASH_TUI_PACKAGE_TARGET\" --out-dir /out --skip-archive"));
    let plain = docker_run_args("abc", false, "t", false, &Vec::new(), "/src", "/out", "/cc", "/dc");
    assert!(plain.contains(&"CLASH_TUI_PACKAGE_GIT_DIRTY=0".to_owned()));
    assert!(!plain.contains(&"CLASH_TUI_PACKAGE_SKIP_ARCHIVE=1".to_owned()));
    assert_eq!(plain.len(), n - 4);
}
