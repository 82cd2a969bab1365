use clash_tui::manifest::{
    manifest_archive_sha, manifest_document, manifest_entry, manifest_geo_resources, manifest_package_files,
    manifest_path_text, manifest_source_clean, manifest_text, manifests_match_except_archive,
};
use clash_tui::xtask::JsonNode;

const MANIFEST: &str = r#"{
  "packageName": "clash-tui-linux-x86_64",
  "gitCommit": "abc123",
  "gitDirty": false,
  "archive": { "file": "clash-tui.tar.gz", "sha256": "feed" },
  "packageFiles": ["install.sh", 7, "README.md"],
  "clashTui": { "binary": "bin/clash-tui", "sha256": "aa" },
  "mihomo": { "sha256": "bb" },
  "geoResources": [ { "file": "geoip.dat", "sha256": "cc" }, { "file": "geosite.dat" } ]
}"#;

fn doc(text: &str) -> JsonNode {
    manifest_document(text).expect("valid JSON")
}

#[test]
fn manifest_fields_are_read_from_the_document() {
    let m = doc(MANIFEST);
    assert_eq!(manifest_text(&m, "packageName").as_deref(), Some("clash-tui-linux-x86_64"));
    assert_eq!(manifest_text(&m, "gitCommit").as_deref(), Some("abc123"));
    assert_eq!(manifest_text(&m, "target"), None);
    assert_eq!(manifest_text(&m, "gitDirty"), None);
    assert!(manifest_source_clean(&m));
    assert_eq!(manifest_entry(&m, "gitDirty"), Some(&JsonNode::Bool(false)));
    assert_eq!(manifest_archive_sha(&m).as_deref(), Some("feed"));
    assert_eq!(manifest_path_text(&m, "archive", "file", ""), "clash-tui.tar.gz");
    assert_eq!(manifest_package_files(&m), vec!["install.sh".to_owned(), "README.md".to_owned()]);
    assert_eq!(manifest_path_text(&m, "clashTui", "binary", "clash-tui"), "bin/clash-tui");
    assert_eq!(manifest_path_text(&m, "mihomo", "binary", "resources/mihomo"), "resources/mihomo");
    assert_eq!(manifest_path_text(&m, "mihomo", "sha256", ""), "bb");
    assert_eq!(
        manifest_geo_resources(&m),
        vec![("geoip.dat".to_owned(), "cc".to_owned()), ("geosite.dat".to_owned(), String::new())]
    );
}

#[test]
fn manifest_without_fields_gives_defaults() {
    let m = doc(r#"{"gitDirty": "false", "archive": {}}"#);
    assert!(!manifest_source_clean(&m));
    assert_eq!(manifest_archive_sha(&m).as_deref(), Some(""));
    assert!(manifest_package_files(&m).is_empty());
    assert!(manifest_geo_resources(&m).is_empty());
    let empty = doc("{}");
    assert_eq!(manifest_archive_sha(&empty), None);
    assert!(!manifest_source_clean(&empty));
    assert_eq!(manifest_path_text(&empty, "clashTui", "binary", "clash-tui"), "clash-tui");
    let list = doc("[1, 2]");
    assert_eq!(manifest_text(&list, "packageName"), None);
}

#[test]
fn manifest_text_that_is_not_json_is_an_error() {
    assert!(manifest_document("{\"packageName\": ").is_err());
    assert!(!manifest_document("not json").unwrap_err().is_empty());
}

#[test]
fn manifests_compare_without_their_archive_entries() {
    let internal = doc(r#"{"packageName": "p", "gitDirty": false, "files": [1, "a", {"x": null}]}"#);
    let sidecar = doc(
        r#"{"archive": {"sha256": "feed"}, "files": [1, "a", {"x": null}], "gitDirty": false, "packageName": "p"}"#,
    );
    assert!(manifests_match_except_archive(&sidecar, &internal));
    assert!(manifests_match_except_archive(&internal, &sidecar));
    let changed = doc(r#"{"archive": {"sha256": "feed"}, "packageName": "p", "gitDirty": true, "files": [1, "a", {"x": null}]}"#);
    assert!(!manifests_match_except_archive(&changed, &internal));
    let nested = doc(r#"{"packageName": "p", "gitDirty": false, "files": [1, "a", {"x": 0}]}"#);
    assert!(!manifests_match_except_archive(&nested, &internal));
    let shorter = doc(r#"{"packageName": "p", "gitDirty": false, "files": [1, "a"]}"#);
    assert!(!manifests_match_except_archive(&shorter, &internal));
}

#[test]
fn manifests_that_are_not_objects_compare_as_they_are() {
    assert!(manifests_match_except_archive(&doc("[1, 2.5, \"x\"]"), &doc("[1, 2.5, \"x\"]")));
    assert!(!manifests_match_except_archive(&doc("[1]"), &doc("[2]")));
    assert!(!manifests_match_except_archive(&doc("[1]"), &doc("{\"archive\": 1}")));
    assert!(!manifests_match_except_archive(&doc("{\"archive\": 1}"), &doc("null")));
    assert!(manifests_match_except_archive(&doc("{\"archive\": 1}"), &doc("{}")));
}

use clash_tui::manifest::{manifest_with_archive, package_manifest, GeoEntry, ManifestInputs, MihomoEntry};

fn inputs() -> ManifestInputs {
    ManifestInputs {
        package_name: "clash-tui-linux-x86_64".into(),
        created_at: "2026-01-01T00:00:00Z".into(),
        git_commit: "abc123".into(),
        git_dirty: false,
        target: "x86_64-unknown-linux-gnu".into(),
        docker_platform: "linux/amd64".into(),
        app_version: "0.3.0".into(),
        binary_sha256: "aa".into(),
        mihomo: MihomoEntry {
            source: "download".into(),
            version: "v1.19.0".into(),
            download_url: Some("https://example.invalid/mihomo.gz".into()),
            archive_sha256: Some("cc".into()),
            sha256: "bb".into(),
        },
        geo: vec![GeoEntry { file: "geoip.dat".into(), source: "local".into(), download_url: None, sha256: "dd".into() }],
    }
}

#[test]
fn a_written_manifest_reads_back() {
    let m = package_manifest(&inputs());
    assert_eq!(manifest_text(&m, "packageName").as_deref(), Some("clash-tui-linux-x86_64"));
    assert_eq!(manifest_text(&m, "gitCommit").as_deref(), Some("abc123"));
    assert!(manifest_source_clean(&m));
    assert_eq!(manifest_archive_sha(&m), None);
    assert_eq!(manifest_path_text(&m, "clashTui", "binary", ""), "clash-tui");
    assert_eq!(manifest_path_text(&m, "clashTui", "sha256", ""), "aa");
    assert_eq!(manifest_path_text(&m, "mihomo", "binary", ""), "resources/mihomo");
    assert_eq!(manifest_path_text(&m, "mihomo", "archiveSha256", ""), "cc");
    assert_eq!(manifest_path_text(&m, "versions", "app", ""), "0.3.0");
    assert_eq!(manifest_path_text(&m, "installEntry", "pathDefault", ""), "/usr/local/bin/clash-tui");
    assert_eq!(manifest_geo_resources(&m), vec![("geoip.dat".to_owned(), "dd".to_owned())]);
    assert_eq!(manifest_package_files(&m).len(), 7);
    assert_eq!(manifest_package_files(&m)[6], "systemd/clash-tui.service");
    assert_eq!(manifest_entry(&m, "schemaVersion"), Some(&JsonNode::Number("1".into())));
    assert_eq!(manifest_entry(&m, "gitDirty"), Some(&JsonNode::Bool(false)));
}

#[test]
fn the_archive_entry_is_added_once() {
    let plain = package_manifest(&inputs());
    let with = manifest_with_archive(package_manifest(&inputs()), "p.tar.gz", "feed");
    assert_eq!(manifest_archive_sha(&with).as_deref(), Some("feed"));
    assert_eq!(manifest_path_text(&with, "archive", "file", ""), "p.tar.gz");
    assert!(manifests_match_except_archive(&with, &plain));
    let again = manifest_with_archive(with, "q.tar.gz", "beef");
    assert_eq!(manifest_archive_sha(&again).as_deref(), Some("beef"));
    let JsonNode::Object(entries) = &again else { panic!("not an object") };
    assert_eq!(entries.iter().filter(|(k, _)| k == "archive").count(), 1);
}
