use clash_tui::details::{ConnectionMetadata, ConnectionRecord};
use clash_tui::frame::Rect;
use clash_tui::models::RuleProviderRow;
use clash_tui::pages::{connections_page, rules_page};
use clash_tui::state::{RuleEntry, TuiApp};

fn area(width: u16, height: u16) -> Rect {
    Rect { x: 0, y: 0, width, height }
}

fn rule(kind: Option<&str>, payload: Option<&str>, proxy: Option<&str>) -> RuleEntry {
    RuleEntry { rule_type: kind.map(str::to_owned), payload: payload.map(str::to_owned), proxy: proxy.map(str::to_owned) }
}

#[test]
fn rules_page_lists_rules_and_actions() {
    let mut app = TuiApp {
        rules: vec![rule(Some("DOMAIN-SUFFIX"), Some("example.com"), Some("代理")), rule(None, None, None)],
        rule_index: 1,
        ..TuiApp::default()
    };
    let page = rules_page(&app, area(100, 20));
    assert_eq!(page.lines, vec!["规则：2 | 显示：2", "操作：↑↓查看 | / 按类型、内容、代理过滤", ""]);
    assert_eq!(page.header, vec!["", "类型", "内容", "代理"]);
    assert_eq!(page.rows, vec![vec![" ", "DOMAIN-SUFFIX", "example.com", "代理"], vec![">", "RULE", "-", "-"]]);
    assert_eq!(page.selected, Some(1));
    assert_eq!(page.empty, None);
    app.rule_providers = vec![RuleProviderRow::default()];
    app.rule_query = "nomatch".into();
    let page = rules_page(&app, area(100, 20));
    assert_eq!(page.lines[0], "规则：2 | 显示：0");
    assert_eq!(page.lines[1], "操作：↑↓查看 | p 规则 Provider | 弹窗内 u/a 更新规则 | / 过滤");
    assert!(page.rows.is_empty());
    assert_eq!(page.empty, Some("没有匹配当前过滤条件的规则"));
}

fn connection(id: &str, host: Option<&str>, chains: &[&str], up: u64, down: u64) -> ConnectionRecord {
    ConnectionRecord {
        id: id.into(),
        upload: up,
        download: down,
        start: None,
        chains: chains.iter().map(|c| (*c).to_owned()).collect(),
        rule: Some("MATCH".into()),
        rule_payload: None,
        metadata: host.map(|h| ConnectionMetadata {
            network: None,
            conn_type: None,
            source_ip: None,
            source_port: None,
            destination_ip: None,
            destination_port: None,
            host: Some(h.into()),
            process: Some("curl".into()),
        }),
        extra: None,
    }
}

#[test]
fn connections_page_totals_traffic_and_joins_chains() {
    let app = TuiApp {
        connections: vec![
            connection("c1", Some("video.example.com"), &["香港节点", "自动选择"], 128, 4096),
            connection("c2", None, &[], 2, 4),
        ],
        ..TuiApp::default()
    };
    let page = connections_page(&app, area(120, 20));
    assert_eq!(page.lines[0], "连接：2 | 显示：2 | 上传：130 | 下载：4100");
    assert_eq!(page.header, vec!["", "连接ID", "主机/IP", "进程", "规则", "代理链"]);
    assert_eq!(page.rows[0], vec![">", "c1", "video.example.com", "curl", "MATCH", "香港节点 > 自动选择"]);
    assert_eq!(page.rows[1], vec![" ", "c2", "-", "-", "MATCH", "-"]);
    assert_eq!(page.selected, Some(0));
    let none = connections_page(&TuiApp::default(), area(120, 20));
    assert_eq!(none.empty, Some("没有匹配当前过滤条件的活动连接"));
}

use clash_tui::jobs::jobs_page;
use clash_tui::layout::{display_width, stable_table_text};
use clash_tui::models::{JobRecord, JobStatus};
use clash_tui::profiles::profiles_page;
use clash_tui::state::ProfileEntry;

#[test]
fn profile_rows_align_wide_text_columns() {
    assert_eq!(display_width("🇺🇸"), 2);
    assert_eq!(display_width("🚀"), 2);
    assert_eq!(stable_table_text("🚀节点选择"), "节点选择");
    assert_eq!(stable_table_text("🇺🇸美国节点"), "美国节点");
    let app = TuiApp {
        profiles_current: Some("remote-cn".into()),
        profiles: vec![
            ProfileEntry {
                uid: Some("remote-cn".into()),
                itype: Some("remote".into()),
                name: Some("🐮正式订阅-香港节点".into()),
                ..ProfileEntry::default()
            },
            ProfileEntry {
                uid: Some("local-default".into()),
                itype: Some("local".into()),
                name: Some("default".into()),
                ..ProfileEntry::default()
            },
        ],
        ..TuiApp::default()
    };
    let page = profiles_page(&app, area(120, 16), 0);
    assert!(page.rows.iter().flatten().all(|cell| !cell.contains('🐮')));
    // Name and kind stand in the same columns on both rows.
    assert_eq!(page.rows[0][2], "正式订阅-香港节点");
    assert_eq!(page.rows[0][3], "远程");
    assert_eq!(page.rows[1][2], "default");
    assert_eq!(page.rows[1][3], "本地");
}

#[test]
fn rules_connections_jobs_rows_align_wide_text_columns() {
    let app = TuiApp {
        rules: vec![
            rule(Some("DOMAIN-SUFFIX"), Some("视频网站.example"), Some("🚀香港自动选择")),
            rule(Some("MATCH"), Some("-"), Some("DIRECT")),
        ],
        ..TuiApp::default()
    };
    let page = rules_page(&app, area(140, 18));
    assert!(page.rows.iter().flatten().all(|cell| !cell.contains('🚀')));
    assert_eq!((page.rows[0][2].as_str(), page.rows[0][3].as_str()), ("视频网站.example", "香港自动选择"));
    assert_eq!((page.rows[1][1].as_str(), page.rows[1][3].as_str()), ("MATCH", "DIRECT"));

    let mut cn = connection("conn-中文-1", Some("视频.example.com"), &["香港节点", "自动选择"], 1, 1);
    if let Some(m) = cn.metadata.as_mut() {
        m.process = Some("浏览器进程".into());
    }
    let ascii = connection("conn-2", Some("api.example.com"), &["DIRECT"], 1, 1);
    let app = TuiApp { connections: vec![cn, ascii], ..TuiApp::default() };
    let page = connections_page(&app, area(140, 18));
    assert_eq!((page.rows[0][2].as_str(), page.rows[0][5].as_str()), ("视频.example.com", "香港节点 > 自动选择"));
    assert_eq!((page.rows[1][2].as_str(), page.rows[1][5].as_str()), ("api.example.com", "DIRECT"));

    let job = |id: &str, target: &str, status: JobStatus, message: &str| JobRecord {
        id: id.into(),
        kind: "profile-update".into(),
        name: "更新订阅".into(),
        target: Some(target.into()),
        status,
        message: Some(message.into()),
        error: None,
        result: None,
        created_at: 1,
        updated_at: 2,
        finished_at: None,
    };
    let app = TuiApp {
        jobs: vec![
            job("job-中文订阅", "香港订阅", JobStatus::Failed, "下载失败"),
            job("job-2", "default", JobStatus::Succeeded, "profile updated"),
        ],
        ..TuiApp::default()
    };
    let page = jobs_page(&app, area(150, 18));
    assert_eq!((page.rows[0][1].as_str(), page.rows[0][6].as_str()), ("job-中文订阅", "下载失败"));
    assert_eq!((page.rows[1][1].as_str(), page.rows[1][6].as_str()), ("job-2", "订阅已更新"));
}

#[test]
fn logs_page_counts_levels_and_explains_empty_state() {
    let mut app = TuiApp {
        logs: vec![
            "time=\"2026-01-01T00:00:00\" level=error msg=\"dial failed https://example.invalid/sub?token=x\"".into(),
            "level=warning msg=\"slow\"".into(),
            "plain line".into(),
        ],
        log_index: 2,
        ..TuiApp::default()
    };
    let page = clash_tui::pages::logs_page(&app, area(120, 20));
    assert_eq!(page.lines[0], "日志：3 | 显示：3 | 错误：1 | 警告：1 | 核心日志：开启 | 等级：全部 | 跟随：开启");
    assert_eq!(page.header, vec!["", "等级", "时间", "摘要"]);
    assert_eq!(page.rows[0][1], "错误");
    assert_eq!(page.rows[0][2], "2026-01-01T00:00:00");
    assert_eq!(page.rows[0][3], "dial failed [链接]");
    assert!(!page.rows[0][3].contains("token"));
    assert_eq!(page.rows[2], vec![">", "其他", "-", "plain line"]);
    assert_eq!(page.selected, None);
    app.log_query = "nothing".into();
    let page = clash_tui::pages::logs_page(&app, area(120, 20));
    assert_eq!(page.empty, Some("没有匹配当前过滤条件的核心日志"));
}

use clash_tui::models::{ProviderDialogKind, ProviderSubscriptionInfoRow, ProxyProviderRow};
use clash_tui::provider_dialog::provider_dialog_page;

#[test]
fn provider_dialog_page_lists_providers_with_feedback() {
    let mut app = TuiApp {
        proxy_providers: vec![
            ProxyProviderRow {
                name: "机场A".into(),
                provider_type: "Proxy".into(),
                vehicle_type: "HTTP".into(),
                proxy_count: 12,
                updated_at: Some("2026-06-18T14:30:00+08:00".into()),
                subscription: Some(ProviderSubscriptionInfoRow {
                    upload: Some(1024),
                    download: Some(1024),
                    total: Some(4096),
                    expire: None,
                }),
            },
            ProxyProviderRow {
                name: "本地".into(),
                provider_type: "Proxy".into(),
                vehicle_type: "-".into(),
                proxy_count: 3,
                updated_at: Some("0001-01-01T00:00:00Z".into()),
                subscription: None,
            },
        ],
        proxy_provider_index: 1,
        provider_operation_feedback: vec![("proxy:本地".into(), "已更新".into())],
        ..TuiApp::default()
    };
    assert!(provider_dialog_page(&app, area(120, 40), 0).is_none());
    app.provider_dialog = Some(ProviderDialogKind::Proxy);
    let page = provider_dialog_page(&app, area(120, 40), 0).expect("dialog is open");
    assert_eq!(page.title, "Proxy Provider");
    assert_eq!(page.lines[0], "代理 Provider：2 个 | 当前：本地");
    assert_eq!(page.header, vec!["", "名称", "节点", "类型", "流量", "到期", "更新", "状态"]);
    assert_eq!(page.rows[0][1], "机场A");
    assert_eq!(page.rows[0][2], "12");
    assert_eq!(page.rows[0][3], "HTTP");
    assert_eq!(page.rows[0][6], "2026-06-18T14:30:00+08:00");
    assert_eq!(page.rows[0][7], "-");
    assert_eq!(page.rows[1], vec![">", "本地", "3", "Proxy", "-", "-", "-", "已更新"]);
    assert_eq!(page.selected, Some(1));
    assert_eq!(page.scroll.0, 2);
    assert_eq!(page.empty, None);
    app.provider_dialog = Some(ProviderDialogKind::Rule);
    let page = provider_dialog_page(&app, area(120, 40), 0).expect("dialog is open");
    assert_eq!(page.title, "Rule Provider");
    assert_eq!(page.lines[0], "规则 Provider：0 个 | 当前：未选择");
    assert!(page.rows.is_empty());
    assert_eq!(page.empty, Some("当前配置没有 Rule Provider"));
}
