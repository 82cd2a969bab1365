use clash_tui::details::{ConnectionMetadata, ConnectionRecord};
use clash_tui::input::KeyCode;
use clash_tui::models::{
    ConfirmAction, DashboardProxyPopup, InputState, InputTarget, ProviderDialogKind, ProxyGroupRow, ProxyNodeMeta,
    ProxyPane, ProxyProviderRow, RuleProviderRow, View, STATUS_HISTORY_LIMIT,
};
use clash_tui::labels::{
    settings_rows, DisplayPreference, ExternalControllerSummary, SettingsSummary, SystemProxyDiagnostics,
    SystemProxyEndpoint, TunDiagnostics,
};
use clash_tui::models::KernelState;
use clash_tui::commands::{setting_applied_status, SettingRequest};
use clash_tui::models::SettingRow;
use clash_tui::state::{ConfirmState, ProfileCatalog, ProfileEntry, ProfileSelection, RuleEntry, TuiApp};

fn group(name: &str, now: &str, nodes: &[&str], offline: bool) -> ProxyGroupRow {
    ProxyGroupRow {
        name: name.into(),
        now: now.into(),
        nodes: nodes.iter().map(|n| n.to_string()).collect(),
        offline,
    }
}

fn sample_connection() -> ConnectionRecord {
    ConnectionRecord {
        id: "conn-secret-url".into(),
        upload: 128,
        download: 4096,
        start: Some("2026-06-18T14:30:00+08:00".into()),
        chains: vec!["香港节点".into(), "自动选择".into()],
        rule: Some("DOMAIN-SUFFIX".into()),
        rule_payload: Some("example.com".into()),
        metadata: Some(ConnectionMetadata {
            network: Some("tcp".into()),
            conn_type: Some("HTTP".into()),
            source_ip: Some("198.18.0.1".into()),
            source_port: Some("51234".into()),
            destination_ip: Some("93.184.216.34".into()),
            destination_port: Some("443".into()),
            host: Some("video.example.com".into()),
            process: Some("curl".into()),
        }),
        extra: Some("{\n  \"downloadUrl\": \"https://example.invalid/sub?token=secret\"\n}".into()),
    }
}

fn profile(uid: &str, selected: &[&str]) -> ProfileEntry {
    ProfileEntry {
        uid: Some(uid.into()),
        selected: Some(
            selected
                .iter()
                .map(|n| ProfileSelection { name: Some(n.to_string()), now: None })
                .collect(),
        ),
        ..ProfileEntry::default()
    }
}

#[test]
fn proxy_group_selection_restores_from_current_profile_selected() {
    let groups = vec![group("GLOBAL", "HK", &["HK"], false), group("日本节点", "JP", &["JP"], false)];
    let mut app = TuiApp::default();

    app.apply_profiles(ProfileCatalog {
        current: Some("R001".into()),
        items: Some(vec![profile("R001", &["GLOBAL", "日本节点"])]),
    });
    app.apply_proxy_groups(groups);

    assert_eq!(app.selected_proxy_group().map(|g| g.name.as_str()), Some("日本节点"));
    assert_eq!(app.proxy_group_selection_key.as_deref(), Some("日本节点"));
}

#[test]
fn proxy_group_selection_restores_from_profile_when_groups_load_first() {
    let groups = vec![group("GLOBAL", "HK", &["HK"], false), group("日本节点", "JP", &["JP"], false)];
    let mut app = TuiApp::default();

    app.apply_proxy_groups(groups.clone());
    assert_eq!(app.selected_proxy_group().map(|g| g.name.as_str()), Some("GLOBAL"));

    app.apply_profiles(ProfileCatalog {
        current: Some("R001".into()),
        items: Some(vec![profile("R001", &["日本节点"])]),
    });

    assert_eq!(app.proxy_group_selection_key.as_deref(), Some("日本节点"));
    assert!(app.selected_proxy_group().is_none());

    app.apply_proxy_groups(groups);

    assert_eq!(app.selected_proxy_group().map(|g| g.name.as_str()), Some("日本节点"));
    assert_eq!(app.proxy_group_selection_key.as_deref(), Some("日本节点"));
}

#[test]
fn dashboard_group_enter_focuses_nodes_without_touching_page_keys() {
    let mut app = TuiApp {
        view: View::Dashboard,
        dashboard_proxy_popup: DashboardProxyPopup::Groups,
        dashboard_proxy_group_index: 1,
        proxy_groups: vec![group("GLOBAL", "HK", &["HK"], false), group("日本节点", "JP", &["JP"], false)],
        ..TuiApp::default()
    };

    let outcome = app.activate_selected();

    assert_eq!(outcome, clash_tui::dispatch::KeyOutcome::Handled);
    assert_eq!(app.dashboard_proxy_group_selection_key.as_deref(), Some("日本节点"));
    assert_eq!(app.dashboard_proxy_node_selection_key.as_deref(), Some("JP"));
    assert_eq!(app.proxy_group_selection_key.as_deref(), None);
    assert_eq!(app.dashboard_proxy_popup, DashboardProxyPopup::Nodes);
    assert_eq!(app.status, "已定位代理组：日本节点，请选择节点");
}

#[test]
fn proxy_group_navigation_does_not_change_dashboard_group_context() {
    let mut app = TuiApp {
        view: View::Dashboard,
        proxy_groups: vec![
            group("GLOBAL", "香港节点", &["香港节点"], false),
            group("日本节点", "JP", &["JP"], false),
            group("美国节点", "US", &["US"], false),
        ],
        dashboard_proxy_group_index: 1,
        dashboard_proxy_group_selection_key: Some("日本节点".into()),
        ..TuiApp::default()
    };
    app.focus_dashboard_proxy_nodes_on_current();

    app.set_view(View::Proxies);
    app.proxy_pane = ProxyPane::Groups;
    app.move_selection(2);

    assert_eq!(app.selected_proxy_group().map(|g| g.name.as_str()), Some("美国节点"));
    assert_eq!(app.dashboard_proxy_group().map(|g| g.name.as_str()), Some("日本节点"));
    assert_eq!(app.dashboard_proxy_group_selection_key.as_deref(), Some("日本节点"));
}

#[test]
fn dashboard_proxy_group_popup_selection_survives_profile_refresh() {
    let mut entry = profile("R001", &[]);
    entry.selected = Some(vec![ProfileSelection { name: Some("订阅策略".into()), now: Some("香港三区".into()) }]);
    let profiles = ProfileCatalog { current: Some("R001".into()), items: Some(vec![entry]) };
    let groups = vec![
        group("GLOBAL", "美国四区", &["美国四区"], false),
        group("订阅策略", "香港三区", &["香港三区"], false),
        group("故障转移", "美国五区", &["美国五区"], false),
        group("自动选择", "香港三区", &["香港三区"], false),
    ];
    let mut app = TuiApp { view: View::Dashboard, ..TuiApp::default() };
    app.apply_profiles(profiles.clone());
    app.apply_proxy_groups(groups.clone());
    app.open_dashboard_proxy_groups();

    assert_eq!(app.dashboard_proxy_group().map(|g| g.name.as_str()), Some("订阅策略"));

    app.move_selection(1);

    assert!(app.dashboard_proxy_user_selection_is_sticky());
    assert_eq!(app.dashboard_proxy_group().map(|g| g.name.as_str()), Some("故障转移"));
    assert_eq!(app.dashboard_proxy_group_selection_key.as_deref(), Some("故障转移"));

    app.apply_profiles(profiles);
    app.apply_proxy_groups(groups);

    assert_eq!(app.dashboard_proxy_popup, DashboardProxyPopup::Groups);
    assert_eq!(app.dashboard_proxy_group().map(|g| g.name.as_str()), Some("故障转移"));
    assert_eq!(app.dashboard_proxy_group_selection_key.as_deref(), Some("故障转移"));
    assert_eq!(app.proxy_group_selection_key.as_deref(), Some("订阅策略"));
}

#[test]
fn dashboard_node_selection_updates_named_group_without_moving_proxy_page_cursor() {
    let mut app = TuiApp {
        view: View::Dashboard,
        proxy_pane: ProxyPane::Groups,
        proxy_group_index: 0,
        proxy_groups: vec![
            group("GLOBAL", "香港节点", &["香港节点", "日本节点"], false),
            group("美国节点", "US-1", &["US-1", "US-2"], false),
        ],
        dashboard_proxy_group_index: 1,
        dashboard_proxy_node_index: 1,
        ..TuiApp::default()
    };

    app.set_selected_proxy_group_now("美国节点", "US-2");

    assert_eq!(app.proxy_group_index, 0);
    assert_eq!(app.proxy_groups[1].now, "US-2");
    assert_eq!(app.dashboard_proxy_node_index, 1);
    assert_eq!(app.proxy_group_selection_key.as_deref(), None);
    assert_eq!(app.dashboard_proxy_group_selection_key.as_deref(), Some("美国节点"));
    assert_eq!(app.dashboard_proxy_node_selection_key.as_deref(), Some("US-2"));
}

#[test]
fn proxy_refresh_keeps_current_selection_when_cached_key_is_stale() {
    let groups = vec![
        group("🚀节点选择", "离线预览", &["HK"], true),
        group("♻自动选择", "离线预览", &["Auto"], true),
        group("🇺🇸美国节点", "离线预览", &["US"], true),
    ];
    let mut app = TuiApp {
        view: View::Proxies,
        proxy_group_index: 2,
        proxy_group_selection_key: Some("🚀节点选择".into()),
        proxy_groups: groups.clone(),
        ..TuiApp::default()
    };

    app.apply_proxy_groups(groups);

    assert_eq!(app.selected_proxy_group().map(|g| g.name.as_str()), Some("🇺🇸美国节点"));
    assert_eq!(app.proxy_group_selection_key.as_deref(), Some("🇺🇸美国节点"));
}

#[test]
fn proxy_refresh_prefers_recent_user_selection_over_stale_index() {
    let groups = vec![
        group("🚀节点选择", "离线预览", &["HK"], true),
        group("♻自动选择", "离线预览", &["Auto"], true),
        group("🇯🇵日本节点", "离线预览", &["JP"], true),
        group("🇺🇸美国节点", "离线预览", &["US"], true),
    ];
    let mut app = TuiApp {
        view: View::Proxies,
        proxy_group_index: 0,
        proxy_group_selection_key: Some("🇺🇸美国节点".into()),
        proxy_user_selected: true,
        proxy_groups: groups.clone(),
        ..TuiApp::default()
    };

    app.apply_proxy_groups(groups);

    assert_eq!(app.selected_proxy_group().map(|g| g.name.as_str()), Some("🇺🇸美国节点"));
    assert_eq!(app.proxy_group_selection_key.as_deref(), Some("🇺🇸美国节点"));
}

#[test]
fn proxy_group_selection_survives_repeated_refresh_after_scrolling() {
    let groups = vec![
        group("🚀节点选择", "离线预览", &["HK"], true),
        group("♻自动选择", "离线预览", &["Auto"], true),
        group("🇯🇵日本节点", "离线预览", &["JP"], true),
        group("🇺🇸美国节点", "离线预览", &["US"], true),
    ];
    let mut app = TuiApp { view: View::Proxies, proxy_groups: groups.clone(), ..TuiApp::default() };

    for _ in 0..3 {
        app.move_selection(1);
    }
    assert_eq!(app.selected_proxy_group().map(|g| g.name.as_str()), Some("🇺🇸美国节点"));
    assert_eq!(app.proxy_group_selection_key.as_deref(), Some("🇺🇸美国节点"));

    for _ in 0..5 {
        app.apply_proxy_groups(groups.clone());
        assert_eq!(app.selected_proxy_group().map(|g| g.name.as_str()), Some("🇺🇸美国节点"));
        assert_eq!(app.proxy_group_selection_key.as_deref(), Some("🇺🇸美国节点"));
    }
}

#[test]
fn proxy_selection_restore_matches_stable_display_name_after_icon_changes() {
    let mut app = TuiApp {
        view: View::Proxies,
        proxy_group_selection_key: Some("🇺🇸美国节点".into()),
        proxy_node_selection_key: Some("🇭🇰香港 01".into()),
        proxy_pane: ProxyPane::Nodes,
        ..TuiApp::default()
    };

    app.apply_proxy_groups(vec![
        group("日本节点", "离线预览", &["日本 01"], true),
        group("美国节点", "香港 01", &["日本 01", "香港 01"], true),
    ]);

    assert_eq!(app.proxy_group_index, 1);
    assert_eq!(app.proxy_node_index, 1);
    assert_eq!(app.proxy_group_selection_key.as_deref(), Some("美国节点"));
    assert_eq!(app.proxy_node_selection_key.as_deref(), Some("香港 01"));
}

#[test]
fn connection_filter_matches_process_and_ip_metadata() {
    let mut app = TuiApp {
        view: View::Connections,
        connections: vec![sample_connection()],
        connection_query: "93.184".into(),
        ..TuiApp::default()
    };

    assert_eq!(app.filtered_connection_indices(), vec![0]);

    app.connection_query = "curl".into();
    assert_eq!(app.filtered_connection_indices(), vec![0]);

    app.connection_query = "not-found".into();
    assert!(app.filtered_connection_indices().is_empty());
}

#[test]
fn provider_selection_keeps_stable_key_after_refresh() {
    let mut app = TuiApp {
        proxy_providers: vec![
            ProxyProviderRow { name: "A".into(), ..ProxyProviderRow::default() },
            ProxyProviderRow { name: "B".into(), ..ProxyProviderRow::default() },
        ],
        proxy_provider_index: 1,
        ..TuiApp::default()
    };
    app.remember_provider_selection(ProviderDialogKind::Proxy);
    app.apply_proxy_providers(vec![
        ProxyProviderRow { name: "C".into(), ..ProxyProviderRow::default() },
        ProxyProviderRow { name: "B".into(), ..ProxyProviderRow::default() },
    ]);

    assert_eq!(app.proxy_provider_index, 1);
    assert_eq!(app.selected_provider_name(ProviderDialogKind::Proxy).as_deref(), Some("B"));
}

#[test]
fn status_history_is_bounded_and_deduplicated() {
    let mut app = TuiApp::default();
    app.set_refresh_status("重复状态", 0);
    app.set_refresh_status("重复状态", 0);
    assert_eq!(app.status_history.len(), 1);

    for index in 0..(STATUS_HISTORY_LIMIT + 5) {
        app.set_refresh_status(&format!("状态 {index}"), 0);
    }
    assert_eq!(app.status_history.len(), STATUS_HISTORY_LIMIT);
    assert!(!app.status_history.iter().any(|message| message == "状态 0"));
    assert_eq!(app.status_history.last().map(String::as_str), Some("状态 24"));
}

#[test]
fn user_visible_status_helpers_record_history() {
    let mut app = TuiApp::default();

    app.start_subscription_import();
    assert_eq!(app.status_history.last().map(String::as_str), Some("请粘贴订阅链接，按 Enter 导入"));

    app.view = View::Dashboard;
    app.start_search();
    assert_eq!(app.status_history.last().map(String::as_str), Some("当前页面不支持过滤"));

    app.view = View::Jobs;
    app.open_selected_job_detail();
    assert_eq!(app.status_history.last().map(String::as_str), Some("未选择任务"));

    app.status = "旧状态".into();
    app.open_status_history();
    assert!(app.status_history.iter().any(|message| message == "旧状态"));
    assert_eq!(app.status_history.last().map(String::as_str), Some("正在查看消息历史"));
}

#[test]
fn apply_profiles_clears_proxy_runtime_state_when_current_changes() {
    let mut app = TuiApp {
        profiles_current: Some("Rold".into()),
        proxy_groups: vec![group("GLOBAL", "OldNode", &["OldNode"], false)],
        proxy_group_index: 3,
        proxy_node_index: 4,
        proxy_node_meta: vec![(
            "OldNode".into(),
            ProxyNodeMeta { proxy_type: "Vless".into(), delay_ms: Some(88), alive: Some(true) },
        )],
        proxy_group_selection_key: Some("GLOBAL".into()),
        proxy_node_selection_key: Some("OldNode".into()),
        proxy_user_selected: true,
        proxy_providers: vec![ProxyProviderRow { name: "OldProvider".into(), ..ProxyProviderRow::default() }],
        proxy_provider_selection_key: Some("OldProvider".into()),
        rule_providers: vec![RuleProviderRow { name: "OldRuleProvider".into(), ..RuleProviderRow::default() }],
        rule_provider_selection_key: Some("OldRuleProvider".into()),
        provider_dialog: Some(ProviderDialogKind::Proxy),
        proxy_pane: ProxyPane::Nodes,
        dashboard_proxy_popup: DashboardProxyPopup::Nodes,
        rules: vec![RuleEntry { rule_type: Some("MATCH".into()), proxy: Some("OldNode".into()), ..RuleEntry::default() }],
        rule_index: 2,
        connections: vec![sample_connection()],
        connection_index: 1,
        ..TuiApp::default()
    };

    app.apply_profiles(ProfileCatalog {
        current: Some("Rnew".into()),
        items: Some(vec![ProfileEntry {
            uid: Some("Rnew".into()),
            itype: Some("remote".into()),
            ..ProfileEntry::default()
        }]),
    });

    assert_eq!(app.profiles_current.as_deref(), Some("Rnew"));
    assert!(app.proxy_groups.is_empty());
    assert!(app.proxy_node_meta.is_empty());
    assert!(app.proxy_providers.is_empty());
    assert!(app.rule_providers.is_empty());
    assert!(app.provider_dialog.is_none());
    assert!(app.proxy_group_selection_key.is_none());
    assert!(app.proxy_node_selection_key.is_none());
    assert!(app.proxy_provider_selection_key.is_none());
    assert!(app.rule_provider_selection_key.is_none());
    assert!(!app.proxy_user_selected);
    assert_eq!(app.proxy_group_index, 0);
    assert_eq!(app.proxy_node_index, 0);
    assert_eq!(app.proxy_pane, ProxyPane::Groups);
    assert_eq!(app.dashboard_proxy_popup, DashboardProxyPopup::Closed);
    assert!(app.rules.is_empty());
    assert!(app.connections.is_empty());
}

#[test]
fn apply_profiles_keeps_proxy_runtime_state_when_current_is_unchanged() {
    let mut app = TuiApp {
        profiles_current: Some("Rcurrent".into()),
        proxy_groups: vec![group("GLOBAL", "Node", &["Node"], false)],
        ..TuiApp::default()
    };

    app.apply_profiles(ProfileCatalog {
        current: Some("Rcurrent".into()),
        items: Some(vec![ProfileEntry {
            uid: Some("Rcurrent".into()),
            itype: Some("remote".into()),
            ..ProfileEntry::default()
        }]),
    });

    assert_eq!(app.proxy_groups.len(), 1);
}

#[test]
fn profile_import_focuses_unfiltered_proxy_groups() {
    let mut app = TuiApp {
        view: View::Profiles,
        proxy_pane: ProxyPane::Groups,
        proxy_query: "香港".into(),
        proxy_group_index: 9,
        proxy_node_index: 8,
        ..TuiApp::default()
    };

    app.focus_proxy_groups_after_import();

    assert_eq!(app.view, View::Proxies);
    assert_eq!(app.proxy_pane, ProxyPane::Nodes);
    assert!(app.proxy_query.is_empty());
    assert_eq!(app.proxy_group_index, 0);
    assert_eq!(app.proxy_node_index, 0);
}

#[test]
fn proxy_selection_restore_prefers_remembered_node_after_refresh() {
    let mut app = TuiApp {
        view: View::Proxies,
        proxy_pane: ProxyPane::Nodes,
        proxy_group_index: 0,
        proxy_node_index: 0,
        proxy_group_selection_key: Some("自动选择".into()),
        proxy_node_selection_key: Some("美国节点".into()),
        proxy_groups: vec![group("自动选择", "香港节点", &["香港节点", "日本节点", "美国节点"], false)],
        ..TuiApp::default()
    };

    app.clamp_selections();

    assert_eq!(app.proxy_node_index, 2);

    app.apply_proxy_groups(vec![group("自动选择", "香港节点", &["香港节点", "日本节点", "美国节点"], false)]);

    assert_eq!(app.proxy_node_index, 2);
    assert_eq!(app.proxy_node_selection_key.as_deref(), Some("美国节点"));
}

fn us_nodes() -> Vec<String> {
    (0..12).map(|index| format!("🇺🇸美国节点 {index:02}")).collect()
}

#[test]
fn proxy_node_selection_survives_repeated_refresh_after_scrolling() {
    let groups = vec![ProxyGroupRow {
        name: "🚀节点选择".into(),
        now: "离线预览".into(),
        nodes: us_nodes(),
        offline: true,
    }];
    let mut app = TuiApp {
        view: View::Proxies,
        proxy_pane: ProxyPane::Nodes,
        proxy_groups: groups.clone(),
        ..TuiApp::default()
    };

    for _ in 0..7 {
        app.move_selection(1);
    }
    assert_eq!(app.selected_proxy_node_name().as_deref(), Some("🇺🇸美国节点 07"));
    assert_eq!(app.proxy_node_selection_key.as_deref(), Some("🇺🇸美国节点 07"));

    for _ in 0..5 {
        app.apply_proxy_groups(groups.clone());
        assert_eq!(app.selected_proxy_node_name().as_deref(), Some("🇺🇸美国节点 07"));
        assert_eq!(app.proxy_node_selection_key.as_deref(), Some("🇺🇸美国节点 07"));
    }
}

#[test]
fn proxy_node_refresh_prefers_recent_user_selection_over_stale_index() {
    let groups = vec![ProxyGroupRow {
        name: "🚀节点选择".into(),
        now: "🇺🇸美国节点 00".into(),
        nodes: us_nodes(),
        offline: true,
    }];
    let mut app = TuiApp {
        view: View::Proxies,
        proxy_pane: ProxyPane::Nodes,
        proxy_group_index: 0,
        proxy_node_index: 0,
        proxy_group_selection_key: Some("🚀节点选择".into()),
        proxy_node_selection_key: Some("🇺🇸美国节点 07".into()),
        proxy_user_selected: true,
        proxy_groups: groups.clone(),
        ..TuiApp::default()
    };

    app.apply_proxy_groups(groups);

    assert_eq!(app.proxy_node_index, 7);
    assert_eq!(app.selected_proxy_node_name().as_deref(), Some("🇺🇸美国节点 07"));
    assert_eq!(app.proxy_node_selection_key.as_deref(), Some("🇺🇸美国节点 07"));
}

#[test]
fn proxy_node_user_selection_does_not_expire_during_repeated_refresh() {
    let groups = vec![ProxyGroupRow {
        name: "🚀节点选择".into(),
        now: "🇺🇸美国节点 00".into(),
        nodes: us_nodes(),
        offline: false,
    }];
    let mut app = TuiApp {
        view: View::Proxies,
        proxy_pane: ProxyPane::Nodes,
        proxy_group_index: 0,
        proxy_node_index: 0,
        proxy_group_selection_key: Some("🚀节点选择".into()),
        proxy_node_selection_key: Some("🇺🇸美国节点 07".into()),
        proxy_user_selected: true,
        proxy_groups: groups.clone(),
        ..TuiApp::default()
    };

    for _ in 0..5 {
        app.apply_proxy_groups(groups.clone());
        assert_eq!(app.proxy_node_index, 7);
        assert_eq!(app.selected_proxy_node_name().as_deref(), Some("🇺🇸美国节点 07"));
        assert_eq!(app.proxy_node_selection_key.as_deref(), Some("🇺🇸美国节点 07"));
    }
}

#[test]
fn proxy_selection_updates_cached_current_node() {
    let mut app = TuiApp {
        view: View::Proxies,
        proxy_pane: ProxyPane::Nodes,
        proxy_groups: vec![group("GLOBAL", "DIRECT", &["DIRECT", "香港节点", "日本节点"], false)],
        ..TuiApp::default()
    };

    app.set_selected_proxy_group_now("GLOBAL", "日本节点");

    assert_eq!(app.proxy_groups[0].now, "日本节点");
    assert_eq!(app.proxy_node_index, 2);
}

#[test]
fn busy_messages_cover_long_running_tui_actions_without_leaking_input() {
    let mut app = TuiApp { view: View::Dashboard, ..TuiApp::default() };
    assert_eq!(app.busy_message_for_key(KeyCode::Char('s')), Some("正在启停 Core..."));
    assert_eq!(app.busy_message_for_key(KeyCode::Char('R')), Some("正在重启 Core..."));
    assert_eq!(app.busy_message_for_key(KeyCode::Enter), None);
    app.dashboard_proxy_popup = DashboardProxyPopup::Nodes;
    app.proxy_groups = vec![group("节点选择", "香港节点", &["香港节点"], false)];
    assert_eq!(app.busy_message_for_key(KeyCode::Enter), Some("正在切换代理节点..."));

    app.view = View::Profiles;
    assert_eq!(app.busy_message_for_key(KeyCode::Char('s')), Some("正在启停 Core..."));
    assert_eq!(app.busy_message_for_key(KeyCode::Enter), None);
    assert_eq!(app.busy_message_for_key(KeyCode::Char('u')), Some("正在创建订阅更新任务..."));
    app.input = Some(InputState {
        target: InputTarget::ImportSubscriptionUrl,
        value: "https://example.invalid/sub?token=secret".into(),
    });
    assert_eq!(app.busy_message_for_key(KeyCode::Enter), Some("正在导入订阅并等待代理组加载..."));
    assert!(app
        .busy_message_for_key(KeyCode::Enter)
        .is_some_and(|message| !message.contains("example.invalid")));
    app.input = None;

    app.view = View::Settings;
    app.setting_index = 0;
    assert_eq!(app.busy_message_for_key(KeyCode::Enter), Some("正在应用设置..."));
    app.setting_index = settings_rows().iter().position(|row| *row == SettingRow::Tun).expect("tun row");
    assert_eq!(app.busy_message_for_key(KeyCode::Enter), None);

    app.confirm = Some(ConfirmState {
        prompt: "确认清空日志显示和本地日志文件？y 确认 / n 取消".into(),
        action: ConfirmAction::ClearLogs,
    });
    assert_eq!(app.busy_message_for_key(KeyCode::Char('y')), Some("正在清空日志..."));
    assert_eq!(app.busy_message_for_key(KeyCode::Char('n')), None);
    app.confirm = None;

    app.view = View::Jobs;
    assert_eq!(app.busy_message_for_key(KeyCode::Char('c')), Some("正在取消任务..."));
}

use clash_tui::dispatch::KeyOutcome;
use clash_tui::keys::KeyCommand;
use clash_tui::models::{JobRecord, JobStatus, LogLevelFilter, ProxyNodeSort};

#[test]
fn keyboard_navigation_changes_views_and_quits() {
    let mut app = TuiApp::default();

    assert_eq!(app.handle_key(KeyCode::Right), KeyOutcome::Handled);
    assert_eq!(app.view, View::Profiles);
    assert_eq!(app.handle_key(KeyCode::Left), KeyOutcome::Handled);
    assert_eq!(app.view, View::Dashboard);
    assert_eq!(app.handle_key(KeyCode::Char('8')), KeyOutcome::Handled);
    assert_eq!(app.view, View::Jobs);
    assert_eq!(app.handle_key(KeyCode::Char('?')), KeyOutcome::Handled);
    assert!(app.show_help);
    assert!(app.status.contains("帮助"));
    assert_eq!(app.handle_key(KeyCode::Esc), KeyOutcome::Handled);
    assert!(!app.show_help);
    assert_eq!(app.handle_key(KeyCode::Char('?')), KeyOutcome::Handled);
    assert_eq!(app.handle_key(KeyCode::Char('q')), KeyOutcome::Quit);
}

#[test]
fn proxy_focus_cycles_only_between_groups_and_nodes() {
    let mut app = TuiApp {
        view: View::Proxies,
        proxy_pane: ProxyPane::Groups,
        proxy_groups: vec![group("GLOBAL", "香港节点", &["香港节点", "日本节点"], false)],
        ..TuiApp::default()
    };

    assert_eq!(app.handle_key(KeyCode::Char('f')), KeyOutcome::Handled);
    assert_eq!(app.proxy_pane, ProxyPane::Nodes);
    assert_eq!(app.status, "当前焦点：节点");
    assert_eq!(app.handle_key(KeyCode::Char('f')), KeyOutcome::Handled);
    assert_eq!(app.proxy_pane, ProxyPane::Groups);
    assert_eq!(app.status, "当前焦点：策略组");
    assert_eq!(app.handle_key(KeyCode::Char('f')), KeyOutcome::Handled);
    assert_eq!(app.proxy_pane, ProxyPane::Nodes);
}

#[test]
fn search_input_updates_active_filter() {
    let mut app = TuiApp { view: View::Rules, ..TuiApp::default() };

    assert_eq!(app.handle_key(KeyCode::Char('/')), KeyOutcome::Handled);
    assert_eq!(app.handle_key(KeyCode::Char('d')), KeyOutcome::Handled);
    assert_eq!(app.handle_key(KeyCode::Char('n')), KeyOutcome::Handled);
    assert_eq!(app.handle_key(KeyCode::Char('s')), KeyOutcome::Handled);
    assert_eq!(app.handle_key(KeyCode::Enter), KeyOutcome::Handled);
    assert_eq!(app.rule_query, "dns");
    assert_eq!(app.status, "过滤已更新");
}

#[test]
fn logs_level_filter_and_clear_are_actionable() {
    let mut app = TuiApp {
        view: View::Logs,
        logs: vec![
            "time=now level=info msg=ready".into(),
            "time=now level=error msg=failed".into(),
            "time=now level=warn msg=slow".into(),
        ],
        ..TuiApp::default()
    };

    assert_eq!(app.filtered_log_indices().len(), 3);
    assert_eq!(app.handle_key(KeyCode::Char('L')), KeyOutcome::Handled);
    assert_eq!(app.log_level_filter, LogLevelFilter::Error);
    assert_eq!(app.filtered_log_indices(), vec![1]);
    assert!(app.status.contains("错误"));
    assert!(app.interaction_line().contains("等级：错误"));

    assert_eq!(app.handle_key(KeyCode::Char('x')), KeyOutcome::Handled);
    assert!(app.confirm.is_some());
    let outcome = app.handle_key(KeyCode::Char('y'));
    assert_eq!(outcome, KeyOutcome::Confirmed(ConfirmAction::ClearLogs));
    assert!(app.confirm.is_none());
    app.logs_cleared();
    assert!(app.logs.is_empty());
    assert_eq!(app.log_index, 0);
    assert!(app.status.contains("已清空日志"));
}

#[test]
fn paste_event_appends_text_in_input_mode() {
    let mut app = TuiApp { view: View::Profiles, ..TuiApp::default() };

    assert_eq!(app.handle_key(KeyCode::Char('i')), KeyOutcome::Handled);
    assert!(!app.handle_paste("https://example.invalid/sub\n"));
    let input = app.input.as_ref().expect("input mode");
    assert_eq!(input.value, "https://example.invalid/sub");
    assert!(app.status.contains("已粘贴"));
    assert_eq!(clash_tui::text::normalize_pasted_text("a\r\nb\n"), "ab");
}

#[test]
fn global_subscription_paste_prefills_import_input() {
    let mut app = TuiApp { view: View::Dashboard, ..TuiApp::default() };

    assert!(!app.handle_paste("https://example.invalid/sub?token=secret\n"));

    let input = app.input.as_ref().expect("import input");
    assert_eq!(app.view, View::Profiles);
    assert_eq!(input.target, InputTarget::ImportSubscriptionUrl);
    assert_eq!(input.value, "https://example.invalid/sub?token=secret");
    assert!(app.status.contains("已识别订阅链接"));
    assert!(!app.status.contains("secret"));
    assert_eq!(
        clash_tui::text::pasted_subscription_url(" https://example.invalid/sub\n").as_deref(),
        Some("https://example.invalid/sub")
    );
}

#[test]
fn connections_enter_opens_detail_and_escape_closes() {
    let mut app = TuiApp { view: View::Connections, connections: vec![sample_connection()], ..TuiApp::default() };

    assert_eq!(app.handle_key(KeyCode::Enter), KeyOutcome::Handled);
    assert!(app.detail.is_some());
    assert!(app.status.contains("正在查看连接"));
    assert_eq!(app.handle_key(KeyCode::Esc), KeyOutcome::Handled);
    assert!(app.detail.is_none());
    assert_eq!(app.status, "已关闭详情");
}

#[test]
fn jobs_detail_modal_closes_with_escape_without_exiting() {
    let mut app = TuiApp {
        view: View::Jobs,
        jobs: vec![JobRecord {
            id: "job-detail-close".into(),
            kind: "profile-update".into(),
            name: "更新订阅".into(),
            target: Some("remote".into()),
            status: JobStatus::Succeeded,
            message: Some("profile updated".into()),
            error: None,
            result: None,
            created_at: 1,
            updated_at: 2,
            finished_at: Some(2),
        }],
        ..TuiApp::default()
    };

    assert_eq!(app.handle_key(KeyCode::Enter), KeyOutcome::Handled);
    assert!(app.detail.is_some());
    assert_eq!(app.handle_key(KeyCode::Esc), KeyOutcome::Handled);
    assert!(app.detail.is_none());
    assert_eq!(app.status, "已关闭详情");
}

#[test]
fn proxy_nodes_cycle_sort_by_latency_and_alive_metadata() {
    let meta = |t: &str, d: Option<i64>, a: Option<bool>| ProxyNodeMeta { proxy_type: t.into(), delay_ms: d, alive: a };
    let mut app = TuiApp {
        view: View::Proxies,
        proxy_pane: ProxyPane::Groups,
        proxy_groups: vec![group("自动选择", "快速可用", &["慢速不可用", "未知节点", "快速可用", "中速可用"], false)],
        proxy_node_meta: vec![
            ("中速可用".into(), meta("Shadowsocks", Some(160), Some(true))),
            ("快速可用".into(), meta("Vless", Some(40), Some(true))),
            ("慢速不可用".into(), meta("Trojan", Some(420), Some(false))),
            ("未知节点".into(), meta("Vless", None, None)),
        ],
        ..TuiApp::default()
    };

    assert_eq!(app.filtered_proxy_node_indices(), vec![0, 1, 2, 3]);
    assert_eq!(app.handle_key(KeyCode::Char('S')), KeyOutcome::Handled);
    assert_eq!(app.proxy_pane, ProxyPane::Nodes);
    assert_eq!(app.proxy_node_sort, ProxyNodeSort::Latency);
    assert_eq!(app.filtered_proxy_node_indices(), vec![2, 3, 0, 1]);
    assert_eq!(app.proxy_node_index, 2);
    assert!(app.status.contains("延迟优先"));

    app.proxy_query = "vless".into();
    assert_eq!(app.filtered_proxy_node_indices(), vec![2, 1]);
    assert_eq!(app.handle_key(KeyCode::Char('S')), KeyOutcome::Handled);
    assert_eq!(app.proxy_node_sort, ProxyNodeSort::Alive);
    assert_eq!(app.filtered_proxy_node_indices(), vec![2, 1]);
    assert!(app.status.contains("可用优先"));
    assert_eq!(app.handle_key(KeyCode::Char('S')), KeyOutcome::Handled);
    assert_eq!(app.proxy_node_sort, ProxyNodeSort::Subscription);
    assert_eq!(app.filtered_proxy_node_indices(), vec![1, 2]);
}

#[test]
fn outside_work_is_handed_back_untouched() {
    let mut app = TuiApp { view: View::Dashboard, ..TuiApp::default() };
    let before_status = app.status.clone();
    assert_eq!(app.handle_key(KeyCode::Char('s')), KeyOutcome::Perform(KeyCommand::ToggleCore));
    assert_eq!(app.handle_key(KeyCode::Char('D')), KeyOutcome::Perform(KeyCommand::RunDiagnose));
    assert_eq!(app.status, before_status);
    app.view = View::Rules;
    assert_eq!(
        app.handle_key(KeyCode::Char('p')),
        KeyOutcome::Perform(KeyCommand::OpenProviderDialog(ProviderDialogKind::Rule))
    );
}

#[test]
fn port_input_validates_before_applying() {
    let mut app = TuiApp { view: View::Settings, ..TuiApp::default() };
    app.input = Some(InputState { target: InputTarget::MixedPort, value: " 7890 ".into() });
    assert_eq!(app.handle_key(KeyCode::Enter), KeyOutcome::ApplyMixedPort(7890));
    assert!(app.input.is_none());

    app.input = Some(InputState { target: InputTarget::MixedPort, value: "0".into() });
    assert_eq!(app.handle_key(KeyCode::Enter), KeyOutcome::Handled);
    assert_eq!(app.status, "错误：混合端口必须大于 0");

    app.input = Some(InputState { target: InputTarget::MixedPort, value: "70000".into() });
    app.handle_key(KeyCode::Enter);
    assert_eq!(app.status, "错误：number too large to fit in target type");

    app.input = Some(InputState { target: InputTarget::MixedPort, value: "".into() });
    app.handle_key(KeyCode::Enter);
    assert_eq!(app.status, "错误：cannot parse integer from empty string");

    app.input = Some(InputState { target: InputTarget::ExternalControllerPort, value: "9x".into() });
    app.handle_key(KeyCode::Enter);
    assert_eq!(app.status, "错误：invalid digit found in string");

    app.input = Some(InputState { target: InputTarget::ExternalControllerPort, value: "+9097".into() });
    app.handle_key(KeyCode::Enter);
    let confirm = app.confirm.as_ref().expect("confirmation");
    assert_eq!(confirm.action, ConfirmAction::SetExternalControllerPort { port: 9097 });
    assert_eq!(confirm.prompt, "确认将外部控制端口改为 9097？当前开启时会重启 Core 并绑定本机，y 确认 / n 取消");
}

#[test]
fn view_paging_round_trips() {
    let mut app = TuiApp::default();
    for _ in 0..8 {
        app.next_view();
    }
    assert_eq!(app.view, View::Dashboard);
    app.previous_view();
    assert_eq!(app.view, View::Jobs);
    assert_eq!(app.status, "已切换到任务");
    app.next_view();
    assert_eq!(app.view, View::Dashboard);
}

#[test]
fn status_history_pane_lists_newest_first() {
    let mut app = TuiApp::default();
    app.set_status("第一条");
    app.set_status("第二条 https://example.invalid/x");
    app.open_status_history();
    let detail = app.detail.as_ref().expect("detail");
    assert_eq!(detail.title, "消息历史");
    assert_eq!(detail.lines[0], "当前状态：第二条 [链接]");
    assert_eq!(detail.lines[1], "");
    assert_eq!(detail.lines[2], "最近消息（最多 20 条，最新在前）：");
    assert_eq!(detail.lines[3], "01. 第二条 [链接]");
    assert_eq!(detail.lines[4], "02. 第一条");
}

#[test]
fn closing_a_connection_drops_it_and_keeps_the_cursor_listed() {
    let mut other = sample_connection();
    other.id = "other".into();
    let mut app = TuiApp {
        view: View::Connections,
        connections: vec![sample_connection(), other],
        connection_index: 1,
        ..TuiApp::default()
    };
    app.connection_closed("other");
    assert_eq!(app.connections.len(), 1);
    assert_eq!(app.connection_index, 0);
    assert_eq!(app.status, "已关闭连接 other");
}

#[test]
fn setting_rows_open_inputs_or_confirmations() {
    let rows = settings_rows();
    let mut app = TuiApp { view: View::Settings, ..TuiApp::default() };
    assert_eq!(app.activate_selected_setting(KernelState::Running), None);
    assert_eq!(app.status, "设置尚未加载");
    app.setting_index = rows.iter().position(|r| *r == SettingRow::MixedPort).unwrap();
    app.edit_selected_setting();
    assert_eq!(app.input.as_ref().map(|i| i.target), Some(InputTarget::MixedPort));
    assert_eq!(app.input.as_ref().map(|i| i.value.as_str()), Some(""));
    assert_eq!(app.status, "正在编辑混合端口");
}

use clash_tui::events::TuiEvent;
use clash_tui::models::JobResult;

fn profile_job(name: &str, target: Option<&str>, status: JobStatus, current: Option<&str>) -> JobRecord {
    JobRecord {
        id: "job-1".into(),
        kind: "profile-update".into(),
        name: name.into(),
        target: target.map(|t| t.to_string()),
        status,
        message: None,
        error: None,
        result: current.map(|c| JobResult { pretty: String::new(), current: Some(c.to_string()) }),
        created_at: 1,
        updated_at: 2,
        finished_at: Some(3),
    }
}

#[test]
fn pinned_import_status_survives_kernel_events() {
    let mut app = TuiApp {
        status: "订阅导入并激活成功（direct），Core 已启动，策略组 4 个，节点 164 个".into(),
        ..TuiApp::default()
    };
    app.pin_status(0, 10_000);

    assert!(app.apply_event(&TuiEvent::KernelStateChanged(KernelState::Running), 5));
    assert!(app.status.contains("订阅导入并激活成功"));
    assert!(!app.status.contains("核心状态"));

    app.clear_status_pin();
    assert!(app.apply_event(&TuiEvent::KernelStateChanged(KernelState::Stopped), 6));
    assert_eq!(app.status, "核心状态：已停止");
}

#[test]
fn pinned_action_status_survives_refresh_and_job_events() {
    let mut app = TuiApp::default();
    app.set_important_status("已为 GLOBAL 选择 香港节点", 0);

    app.set_refresh_status("规则不可用：controller timeout", 1);
    assert_eq!(app.status, "已为 GLOBAL 选择 香港节点");

    let job = profile_job("更新订阅", None, JobStatus::Running, None);
    assert!(app.apply_event(&TuiEvent::JobCreated(job), 2));
    assert_eq!(app.status, "已为 GLOBAL 选择 香港节点");

    app.clear_status_pin();
    app.set_refresh_status("规则不可用：controller timeout", 3);
    assert_eq!(app.status, "规则不可用：controller timeout");
}

#[test]
fn current_profile_update_job_event_clears_proxy_runtime_state() {
    let mut app = TuiApp {
        profiles_current: Some("Rcurrent".into()),
        proxy_groups: vec![group("GLOBAL", "OldNode", &["OldNode"], false)],
        last_refresh: Some(1),
        ..TuiApp::default()
    };
    let job = profile_job("Update remote profile Rcurrent", Some("Rcurrent"), JobStatus::Succeeded, Some("Rcurrent"));

    assert!(app.apply_event(&TuiEvent::JobUpdated(job), 10));

    assert!(app.proxy_groups.is_empty());
    assert!(app.last_refresh.is_none());
    assert!(app.status.contains("当前订阅已更新"));
}

#[test]
fn non_current_profile_update_job_event_keeps_proxy_runtime_state() {
    let mut app = TuiApp {
        profiles_current: Some("Rcurrent".into()),
        proxy_groups: vec![group("GLOBAL", "OldNode", &["OldNode"], false)],
        ..TuiApp::default()
    };
    let job = profile_job("Update remote profile Rother", Some("Rother"), JobStatus::Succeeded, Some("Rcurrent"));

    assert!(app.apply_event(&TuiEvent::JobUpdated(job), 10));

    assert_eq!(app.proxy_groups.len(), 1);
    assert!(!app.status.contains("当前订阅已更新"));
    assert_eq!(app.status, "任务成功：Update remote profile Rother");
}

#[test]
fn lagging_event_stream_stops_the_drain() {
    let mut app = TuiApp::default();
    assert!(!app.apply_event(&TuiEvent::Lagged, 0));
    assert_eq!(app.status, "事件流滞后，已刷新快照");
    assert!(app.apply_event(&TuiEvent::Traffic, 0));
    assert_eq!(app.status, "事件流滞后，已刷新快照");
}

fn preference(label: &str) -> DisplayPreference {
    DisplayPreference { overridden: false, effective_label: label.into(), configured_label: label.into() }
}

fn sample_settings(core_log_enabled: bool) -> SettingsSummary {
    SettingsSummary {
        dns_enabled: true,
        ipv6: false,
        allow_lan: false,
        unified_delay: true,
        tui_theme: preference("默认"),
        tui_display_mode: preference("自动"),
        tui_punctuation_mode: preference("原始"),
        log_level: "info".into(),
        core_log_enabled,
        rule_provider_download_proxy: "DIRECT".into(),
        mixed_port: 7897,
        external_controller: ExternalControllerSummary {
            enabled: false,
            unsafe_bind: false,
            host: "127.0.0.1".into(),
            port: 9097,
            source: "default".into(),
            warning: None,
        },
        tun_enabled: false,
        system_proxy_enabled: false,
        home_dir: "/tmp/clash".into(),
        controller_endpoint: "socket".into(),
        controller_timeout_millis: 3000,
        system_proxy_diagnostics: SystemProxyDiagnostics {
            can_auto_apply: true,
            endpoint: SystemProxyEndpoint { host: "127.0.0.1".into(), port: 7897, bypass: "localhost".into() },
            checks: Vec::new(),
            message: String::new(),
        },
        tun_diagnostics: TunDiagnostics { can_enable: true, checks: Vec::new(), message: String::new() },
    }
}

#[test]
fn core_log_row_asks_while_the_core_runs() {
    let rows = settings_rows();
    let mut app = TuiApp { view: View::Settings, ..TuiApp::default() };
    app.settings = Some(sample_settings(false));
    app.setting_index = rows.iter().position(|r| *r == SettingRow::CoreLog).unwrap();
    assert!(app.settings_row_now());
    assert!(app.confirm.is_none());
    assert_eq!(app.activate_selected_setting(KernelState::Running), None);
    let confirm = app.confirm.clone().expect("confirmation");
    assert_eq!(confirm.prompt, "确认开启核心日志？Core 运行中需要重启后生效，y 确认 / n 取消");
    assert_eq!(confirm.action, ConfirmAction::ToggleCoreLog { enabled: true });
    let mut stopped = TuiApp { view: View::Settings, ..TuiApp::default() };
    stopped.settings = Some(sample_settings(true));
    stopped.setting_index = app.setting_index;
    let request = stopped.activate_selected_setting(KernelState::Stopped);
    assert_eq!(request, Some(SettingRequest::CoreLog(false)));
    assert!(stopped.confirm.is_none());
    assert_eq!(stopped.activate_selected_setting(KernelState::Crashed), Some(SettingRequest::CoreLog(false)));
    // The message names the requested value, whatever the settings that came back hold.
    assert_eq!(
        setting_applied_status(&request.unwrap(), &sample_settings(true)),
        "核心日志已关闭，下次启动 Core 生效"
    );
}

#[test]
fn immediate_setting_rows_request_the_next_value() {
    let rows = settings_rows();
    let at = |row: SettingRow| rows.iter().position(|r| *r == row).unwrap();
    let mut app = TuiApp { view: View::Settings, ..TuiApp::default() };
    app.settings = Some(sample_settings(false));
    app.setting_index = at(SettingRow::Dns);
    assert_eq!(app.activate_selected_setting(KernelState::Running), Some(SettingRequest::Dns(false)));
    app.setting_index = at(SettingRow::Ipv6);
    assert_eq!(app.activate_selected_setting(KernelState::Running), Some(SettingRequest::Ipv6(true)));
    app.setting_index = at(SettingRow::UnifiedDelay);
    assert_eq!(app.activate_selected_setting(KernelState::Running), Some(SettingRequest::UnifiedDelay(false)));
    app.setting_index = at(SettingRow::LogLevel);
    let level = app.activate_selected_setting(KernelState::Running).unwrap();
    assert_eq!(level, SettingRequest::LogLevel("warning".to_owned()));
    app.setting_index = at(SettingRow::TuiTheme);
    assert_eq!(app.activate_selected_setting(KernelState::Running), Some(SettingRequest::NextTheme));
    app.setting_index = at(SettingRow::RuleProviderDownloadProxy);
    assert_eq!(app.activate_selected_setting(KernelState::Stopped), Some(SettingRequest::NextDownloadProxy));
    assert!(app.confirm.is_none());
    assert_eq!(app.status, "就绪");
    // The log level message names the requested level; the download proxy
    // message names what came back.
    let mut returned = sample_settings(false);
    returned.log_level = "error".into();
    returned.rule_provider_download_proxy = "代理".into();
    assert_eq!(setting_applied_status(&level, &returned), "日志等级已设置为 warning");
    assert_eq!(
        setting_applied_status(&SettingRequest::NextDownloadProxy, &returned),
        "规则 Provider 下载已切换为代理"
    );
    assert_eq!(setting_applied_status(&SettingRequest::Dns(false), &returned), "DNS 覆写已切换");
    app.setting_index = at(SettingRow::Tun);
    assert_eq!(app.activate_selected_setting(KernelState::Running), None);
    assert!(app.confirm.is_some());
}

use clash_tui::frame::Rect;
use clash_tui::settings::settings_page;
use clash_tui::profiles::{SubscriptionScheduler, SubscriptionStatus};

#[test]
fn settings_page_lists_lines_and_rows() {
    let mut app = TuiApp { view: View::Settings, ..TuiApp::default() };
    let wide = Rect { x: 0, y: 0, width: 120, height: 40 };
    assert!(settings_page(&app, wide).is_none());
    app.settings = Some(sample_settings(false));
    app.setting_index = 4;
    let page = settings_page(&app, wide).expect("settings are loaded");
    assert_eq!(page.lines.len(), 9);
    assert_eq!(page.lines[0], "主目录：/tmp/clash");
    assert_eq!(page.lines[3], "订阅启动检查：尚未刷新");
    assert_eq!(page.lines[8], "操作：Enter 切换/循环 | e 编辑选中值");
    assert_eq!(page.header, vec!["", "设置项", "当前值", "操作", "说明"]);
    assert_eq!(page.rows.len(), 15);
    assert_eq!(page.rows[0][1], "主题");
    assert_eq!(page.rows[4], vec![">", "日志等级", "info", "循环", "循环 debug/info/warning/error/silent"]);
    assert_eq!(page.rows[3][0], " ");
    assert_eq!(page.selected, Some(4));

    app.subscription_status = Some(SubscriptionStatus {
        scheduler: SubscriptionScheduler { startup_check_enabled: true, enabled: false },
        profiles: Vec::new(),
    });
    let narrow = Rect { x: 0, y: 0, width: 60, height: 14 };
    let page = settings_page(&app, narrow).expect("settings are loaded");
    assert_eq!(page.lines[3], "订阅启动检查：开启 | 后台定时器：关闭 | 到期才更新");
    assert_eq!(page.header, vec!["", "设置项", "当前值", "操作"]);
    // 14 rows less the border and 8 reserved rows leave 4 table rows.
    assert_eq!(page.rows.len(), 4);
    assert!(page.rows.iter().all(|cells| cells.len() == 4));
    assert_eq!(page.rows[page.selected.unwrap()][1], "日志等级");
    assert_eq!(page.rows[page.selected.unwrap()][0], ">");
}

#[test]
fn settings_view_renders_network_apply_boundaries() {
    let mut settings = sample_settings(true);
    settings.tui_display_mode = preference("标准");
    settings.tui_punctuation_mode = preference("保留");
    let app = TuiApp { view: View::Settings, settings: Some(settings), ..TuiApp::default() };
    let page = settings_page(&app, Rect { x: 0, y: 0, width: 140, height: 32 }).expect("settings are loaded");
    let mut rendered = page.lines.join("\n");
    rendered.push('\n');
    rendered.push_str(&page.header.join(" "));
    for row in &page.rows {
        rendered.push('\n');
        rendered.push_str(&row.join(" "));
    }
    for part in [
        "网络接管", "系统代理", "TUN", "系统代理诊断", "HTTP/HTTPS/SOCKS", "127.0.0.1:7897", "TUN 诊断", "生效边界", "设置项",
        "当前值", "操作", "说明", "终端显示", "标准", "中文标点", "保留", "核心日志", "控制 mihomo 日志落盘",
    ] {
        assert!(rendered.contains(part), "{part} missing");
    }
    // Every row has its action in the same column.
    let action = |label: &str| page.rows.iter().find(|row| row[1] == label).map(|row| row[3].clone());
    assert_eq!(action("DNS 覆写").as_deref(), Some("切换"));
    assert_eq!(action("允许局域网").as_deref(), Some("切换"));
    assert_eq!(action("终端显示").as_deref(), Some("循环"));
    assert_eq!(action("中文标点").as_deref(), Some("循环"));
    assert_eq!(action("日志等级").as_deref(), Some("循环"));
    assert_eq!(action("核心日志").as_deref(), Some("确认"));
    assert_eq!(action("TUN").as_deref(), Some("确认"));
    assert!(page.rows.iter().all(|row| row.len() == 5));
}
