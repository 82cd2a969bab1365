use clash_tui::auto_refresh::provider_names_for_auto_refresh;
use clash_tui::controller::{
    proxy_group_load_summary, proxy_groups_empty_message, proxy_node_meta_from_response,
    proxy_providers_from_response, ProxyEntry, ProxyGroups, ProxyHistory, ProxyProviderEntry,
    ProxyProvidersResponse,
};
use clash_tui::input::{tui_input_event_trace_line, tui_input_events_from_bytes, KeyCode, TuiInputEvent};
use clash_tui::labels::{switch_status_message, SwitchStatus};
use clash_tui::layout::{theme_tokens_for, Rgb, TuiTheme};
use clash_tui::models::{ProxyGroupLoadSummary, ProxyNodeMeta};
use clash_tui::runtime::runtime_proxy_summary_from_yaml;
use clash_tui::settings::external_controller_source_label;

fn provider(name: &str, vehicle: Option<&str>, proxies: Vec<&str>) -> ProxyProviderEntry {
    ProxyProviderEntry {
        name: Some(name.into()),
        provider_type: None,
        vehicle_type: vehicle.map(Into::into),
        proxies: proxies.into_iter().map(Into::into).collect(),
        updated_at: None,
        subscription_info: None,
    }
}

fn proxy(name: &str, proxy_type: &str, all: Option<Vec<&str>>) -> ProxyEntry {
    ProxyEntry {
        name: Some(name.into()),
        proxy_type: Some(proxy_type.into()),
        now: None,
        all: all.unwrap_or_default().into_iter().map(Into::into).collect(),
        alive: None,
        history: Vec::new(),
    }
}

fn meta<'a>(table: &'a [(String, ProxyNodeMeta)], name: &str) -> Option<&'a ProxyNodeMeta> {
    table.iter().find(|(key, _)| key == name).map(|(_, value)| value)
}

#[test]
fn raw_tui_input_parser_handles_ssh_tty_keys_and_paste() {
    let mut pending = Vec::new();
    assert_eq!(
        tui_input_events_from_bytes(&mut pending, b"23q"),
        vec![
            TuiInputEvent::Key(KeyCode::Char('2')),
            TuiInputEvent::Key(KeyCode::Char('3')),
            TuiInputEvent::Key(KeyCode::Char('q')),
        ]
    );
    assert!(pending.is_empty());

    assert_eq!(
        tui_input_events_from_bytes(&mut pending, b"\x1b[A\x1b[B\x1b[5~\x03"),
        vec![
            TuiInputEvent::Key(KeyCode::Up),
            TuiInputEvent::Key(KeyCode::Down),
            TuiInputEvent::Key(KeyCode::PageUp),
            TuiInputEvent::Key(KeyCode::Esc),
        ]
    );
    assert!(pending.is_empty());

    let paste = b"\x1b[200~https://example.invalid/sub?token=secret\n\x1b[201~\r";
    assert_eq!(
        tui_input_events_from_bytes(&mut pending, paste),
        vec![
            TuiInputEvent::Paste("https://example.invalid/sub?token=secret\n".into()),
            TuiInputEvent::Key(KeyCode::Enter),
        ]
    );
    assert!(pending.is_empty());
}

#[test]
fn raw_tui_input_parser_keeps_incomplete_utf8_until_complete() {
    let mut pending = Vec::new();
    let first = tui_input_events_from_bytes(&mut pending, &[0xE4, 0xB8]);
    assert!(first.is_empty());
    assert_eq!(
        tui_input_events_from_bytes(&mut pending, &[0xAD]),
        vec![TuiInputEvent::Key(KeyCode::Char('中'))]
    );
    assert!(pending.is_empty());
}

#[test]
fn input_trace_does_not_log_typed_or_pasted_secrets() {
    let key_line = tui_input_event_trace_line(&TuiInputEvent::Key(KeyCode::Char('s')));
    assert!(key_line.contains("code=char"));
    assert!(!key_line.contains("code=s"));

    let paste_line =
        tui_input_event_trace_line(&TuiInputEvent::Paste("https://example.invalid/sub?token=secret".into()));
    assert!(paste_line.starts_with("paste len="));
    assert!(!paste_line.contains("example.invalid"));
    assert!(!paste_line.contains("token"));
}

#[test]
fn proxy_provider_rows_follow_desktop_visible_vehicle_types() {
    let providers = ProxyProvidersResponse {
        providers: vec![
            (
                "compatible-default".into(),
                ProxyProviderEntry {
                    provider_type: Some("Proxy".into()),
                    ..provider("compatible-default", Some("Compatible"), vec!["DIRECT"])
                },
            ),
            (
                "local-file".into(),
                ProxyProviderEntry {
                    provider_type: Some("Proxy".into()),
                    ..provider("local-file", Some("File"), vec![])
                },
            ),
            (
                "missing-vehicle".into(),
                ProxyProviderEntry {
                    provider_type: Some("Proxy".into()),
                    ..provider("missing-vehicle", None, vec![])
                },
            ),
            (
                "remote-http".into(),
                ProxyProviderEntry {
                    provider_type: Some("Proxy".into()),
                    ..provider("remote-http", Some("HTTP"), vec!["HK"])
                },
            ),
        ],
    };

    let rows = proxy_providers_from_response(&providers);
    let names = rows.iter().map(|row| row.name.as_str()).collect::<Vec<_>>();
    assert_eq!(names, vec!["local-file", "remote-http"]);
}

#[test]
fn proxy_node_meta_uses_latest_non_negative_delay() {
    let response = ProxyGroups {
        proxies: vec![
            (
                "HK".into(),
                ProxyEntry {
                    alive: Some(true),
                    history: vec![
                        ProxyHistory { delay: Some(120) },
                        ProxyHistory { delay: Some(-1) },
                        ProxyHistory { delay: Some(88) },
                    ],
                    ..proxy("HK", "Vless", None)
                },
            ),
            (
                "Proxy".into(),
                ProxyEntry {
                    now: Some("HK".into()),
                    ..proxy("Proxy", "Selector", Some(vec!["HK"]))
                },
            ),
        ],
    };

    let meta_table = proxy_node_meta_from_response(&response);
    assert_eq!(meta_table.len(), 2);
    let proxy_meta = meta(&meta_table, "Proxy").expect("Proxy meta");
    assert_eq!(proxy_meta.proxy_type, "Selector");
    assert_eq!(proxy_meta.delay_ms, None);
    assert_eq!(proxy_meta.alive, None);
    let hk = meta(&meta_table, "HK").expect("HK meta");
    assert_eq!(hk.proxy_type, "Vless");
    assert_eq!(hk.delay_ms, Some(88));
    assert_eq!(hk.alive, Some(true));
}

#[test]
fn switch_status_message_explains_partial_apply_and_manual_action() {
    let status = SwitchStatus {
        enabled: true,
        platform: "linux".into(),
        config_saved: true,
        runtime_generated: true,
        runtime_applied: Some(false),
        platform_applied: None,
        requires_core_restart: true,
        core_restarted: false,
        manual_action: Some("确认 mihomo 具备 CAP_NET_ADMIN".into()),
        message: "TUN 配置已保存，runtime 已重新生成；启动 Core 后生效".into(),
    };

    let message = switch_status_message("TUN", &status);

    assert!(message.contains("TUN已开启"));
    assert!(message.contains("配置已保存"));
    assert!(message.contains("runtime 已生成"));
    assert!(message.contains("启动或重启 Core 后生效"));
    assert!(message.contains("处理建议"));
    assert!(message.contains("CAP_NET_ADMIN"));
}

#[test]
fn proxy_group_summary_reports_empty_controller_states() {
    let empty = ProxyGroups { proxies: Vec::new() };
    assert_eq!(proxy_group_load_summary(&empty), ProxyGroupLoadSummary::default());
    assert!(proxy_groups_empty_message(proxy_group_load_summary(&empty)).contains("未返回代理数据"));

    let leaf_only = ProxyGroups {
        proxies: vec![("HK".into(), proxy("HK", "Vless", None))],
    };
    assert_eq!(
        proxy_group_load_summary(&leaf_only),
        ProxyGroupLoadSummary {
            entries: 1,
            groups: 0,
            nodes: 0
        }
    );
    assert!(proxy_groups_empty_message(proxy_group_load_summary(&leaf_only)).contains("没有可选策略组"));

    let ready = ProxyGroups {
        proxies: vec![
            ("HK".into(), proxy("HK", "Vless", None)),
            ("Proxy".into(), proxy("Proxy", "Selector", Some(vec!["HK", "SG"]))),
        ],
    };
    assert_eq!(
        proxy_group_load_summary(&ready),
        ProxyGroupLoadSummary {
            entries: 2,
            groups: 1,
            nodes: 2
        }
    );
    assert!(proxy_group_load_summary(&ready).is_ready());
}

#[test]
fn runtime_proxy_summary_counts_generated_config_sections() {
    let summary = runtime_proxy_summary_from_yaml(
        r"proxies:
  - name: HK
    type: direct
proxy-providers:
  remote:
    type: http
    url: https://example.invalid/provider.yaml
    path: ./provider.yaml
proxy-groups:
  - name: Proxy
    type: select
    use:
      - remote
    proxies:
      - HK
rules:
  - MATCH,Proxy
",
    )
    .expect("runtime summary");

    assert_eq!(summary.proxies, 1);
    assert_eq!(summary.providers, 1);
    assert_eq!(summary.provider_names, vec!["remote"]);
    assert_eq!(summary.group_provider_names, vec!["remote"]);
    assert_eq!(summary.groups, 1);
    assert_eq!(summary.rules, 1);
    assert_eq!(summary.to_message(), "runtime：节点 1，Provider 1，策略组 1，规则 1");
    assert!(summary.uses_providers());
}

const REMOTE_RUNTIME: &str = r"proxy-providers:
  remote:
    type: http
    url: https://example.invalid/provider.yaml
    path: ./provider.yaml
proxy-groups:
  - name: Proxy
    type: select
    use:
      - remote
rules:
  - MATCH,Proxy
";

#[test]
fn provider_auto_refresh_prefers_controller_keys_filtered_by_runtime() {
    let runtime = runtime_proxy_summary_from_yaml(REMOTE_RUNTIME).expect("runtime summary");
    let providers = ProxyProvidersResponse {
        providers: vec![
            ("other".into(), provider("other", Some("HTTP"), vec![])),
            ("remote".into(), provider("Remote Display", Some("HTTP"), vec!["HK"])),
        ],
    };

    let names = provider_names_for_auto_refresh(Some(&runtime), Some(&providers));

    assert_eq!(names, vec!["remote"]);
}

#[test]
fn provider_auto_refresh_ignores_compatible_controller_providers() {
    let runtime = runtime_proxy_summary_from_yaml(REMOTE_RUNTIME).expect("runtime summary");
    let providers = ProxyProvidersResponse {
        providers: vec![
            ("GLOBAL".into(), provider("GLOBAL", Some("Compatible"), vec!["DIRECT"])),
            ("remote".into(), provider("remote", Some("HTTP"), vec!["HK"])),
        ],
    };

    let names = provider_names_for_auto_refresh(Some(&runtime), Some(&providers));

    assert_eq!(names, vec!["remote"]);

    let compatible_only = ProxyProvidersResponse {
        providers: vec![("GLOBAL".into(), provider("GLOBAL", Some("Compatible"), vec!["DIRECT"]))],
    };

    let names = provider_names_for_auto_refresh(None, Some(&compatible_only));

    assert!(names.is_empty());
}

#[test]
fn provider_auto_refresh_prioritizes_group_use_refs_over_other_runtime_providers() {
    let runtime = runtime_proxy_summary_from_yaml(
        r"proxy-providers:
  unused-a:
    type: http
    url: https://example.invalid/a.yaml
    path: ./a.yaml
  used-b:
    type: http
    url: https://example.invalid/b.yaml
    path: ./b.yaml
proxy-groups:
  - name: Proxy
    type: select
    use:
      - used-b
rules:
  - MATCH,Proxy
",
    )
    .expect("runtime summary");
    let providers = ProxyProvidersResponse {
        providers: vec![
            ("unused-a".into(), provider("unused-a", Some("HTTP"), vec![])),
            ("used-b-controller-key".into(), provider("used-b", Some("HTTP"), vec!["HK"])),
        ],
    };

    let names = provider_names_for_auto_refresh(Some(&runtime), Some(&providers));

    assert_eq!(names, vec!["used-b-controller-key", "unused-a"]);
}

#[test]
fn provider_auto_refresh_falls_back_to_runtime_names_before_controller_lists_providers() {
    let runtime = runtime_proxy_summary_from_yaml(
        r"proxy-providers:
  remote-a:
    type: http
    url: https://example.invalid/a.yaml
    path: ./a.yaml
  remote-b:
    type: http
    url: https://example.invalid/b.yaml
    path: ./b.yaml
proxy-groups:
  - name: Proxy
    type: select
    use:
      - remote-a
      - remote-b
rules:
  - MATCH,Proxy
",
    )
    .expect("runtime summary");

    let names = provider_names_for_auto_refresh(Some(&runtime), None);

    assert_eq!(names, vec!["remote-a", "remote-b"]);
}

#[test]
fn provider_auto_refresh_prioritizes_empty_controller_providers() {
    let providers = ProxyProvidersResponse {
        providers: vec![
            ("empty".into(), provider("empty", Some("HTTP"), vec![])),
            ("loaded".into(), provider("loaded", Some("HTTP"), vec!["HK"])),
        ],
    };

    let names = provider_names_for_auto_refresh(None, Some(&providers));

    assert_eq!(names, vec!["empty", "loaded"]);
}

#[test]
fn blue_theme_uses_original_tab_background_as_global_canvas() {
    let tokens = theme_tokens_for(TuiTheme::Blue);
    assert_eq!(tokens.canvas, Rgb(31, 42, 58));
    assert_eq!(tokens.title, Rgb(116, 204, 244));
    assert_eq!(tokens.selection_bg, tokens.accent);
}

#[test]
fn orange_theme_keeps_dark_canvas_with_orange_accent() {
    let tokens = theme_tokens_for(TuiTheme::Orange);
    assert_eq!(tokens.canvas, Rgb(32, 24, 18));
    assert_eq!(tokens.title, Rgb(255, 162, 86));
    assert_eq!(tokens.selection_bg, tokens.accent);
}

#[test]
fn external_controller_source_uses_user_facing_copy() {
    assert_eq!(external_controller_source_label("mihomo"), "运行中");
    assert_eq!(external_controller_source_label("config"), "配置");
}

#[test]
fn runtime_yaml_errors_name_the_problem() {
    assert_eq!(runtime_proxy_summary_from_yaml("proxies: [").unwrap_err(), "failed to parse runtime yaml");
    assert_eq!(runtime_proxy_summary_from_yaml("- a\n- b\n").unwrap_err(), "runtime yaml root is not a mapping");
    let empty = runtime_proxy_summary_from_yaml("rules: []\n").expect("summary");
    assert_eq!((empty.proxies, empty.providers, empty.groups, empty.rules), (0, 0, 0, 0));
}

#[test]
fn runtime_summary_reads_tagged_values_but_not_tagged_keys() {
    let summary = runtime_proxy_summary_from_yaml(
        "!custom proxies:\n  - name: a\nproxy-providers:\n  !kind p1:\n    type: http\n  p2: {}\nrules: !seq\n  - MATCH,DIRECT\n",
    )
    .expect("runtime summary");
    // A tagged key is no `proxies` key; tagged names and values are read
    // through their tags.
    assert_eq!(summary.proxies, 0);
    assert_eq!(summary.providers, 2);
    assert_eq!(summary.provider_names, vec!["p1".to_owned(), "p2".to_owned()]);
    assert_eq!(summary.rules, 1);
}
