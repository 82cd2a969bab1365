use clash_tui::controller::ControllerHealth;
use clash_tui::diagnose::{
    diagnose_status_message, DiagnoseReport, DiagnoseStatus, LogProbe, ProfileBrief, ProxyProbe, RuntimeProbe,
};
use clash_tui::layout::display_width;
use clash_tui::models::{KernelState, View};
use clash_tui::state::TuiApp;

fn test_diagnose_report(recommendations: Vec<String>) -> DiagnoseReport {
    DiagnoseReport {
        status: DiagnoseStatus::NeedsAttention,
        current_profile: Some(ProfileBrief {
            uid: Some("remote:test".into()),
            name: Some("测试订阅".into()),
            profile_type: Some("remote".into()),
        }),
        kernel_state: KernelState::Running,
        controller: ControllerHealth { healthy: true, version: Some("test".into()), message: None },
        runtime: RuntimeProbe {
            readable: true,
            path: "/tmp/runtime.yaml".into(),
            proxies: 3,
            providers: 0,
            groups: 1,
            rules: 2,
            proxy_types: Vec::new(),
            proxy_samples: Vec::new(),
            provider_samples: Vec::new(),
            group_samples: Vec::new(),
            group_proxy_refs: 1,
            group_provider_refs: 0,
            error: None,
        },
        proxies: ProxyProbe { ready: false, entries: 0, groups: 0, nodes: 0, error: Some("controller empty".into()) },
        logs: LogProbe { recent: Vec::new(), warnings: 0, errors: 0, last_error: None },
        recommendations,
    }
}

#[test]
fn diagnose_status_counts_history_recommendations_and_redacts_urls() {
    let report = test_diagnose_report(vec![
        "订阅更新失败：https://example.invalid/sub?token=secret".into(),
        "TUN 已开启但当前环境不满足基本条件：未检测到 CAP_NET_ADMIN；处理建议：执行 tun off 和 core stop 恢复"
            .into(),
        "系统代理已开启但当前环境无法自动应用：未检测到 DBUS_SESSION_BUS_ADDRESS；处理建议：可手动在桌面系统代理中设置 HTTP/HTTPS/SOCKS 主机 127.0.0.1、端口 7897"
            .into(),
    ]);
    let mut app = TuiApp::default();
    let status = diagnose_status_message(&report);

    assert!(status.contains("共3条，按 n 查看"));
    assert!(status.contains("[链接]"));
    assert!(!status.contains("https://example.invalid"));
    app.set_status(&status);
    app.record_diagnose_recommendations(&report);

    let history = app.status_history.iter().cloned().collect::<Vec<_>>().join("\n");
    assert!(history.contains("诊断建议 1"));
    assert!(history.contains("诊断建议 2"));
    assert!(history.contains("tun off"));
    assert!(history.contains("core stop"));
    assert!(history.contains("HTTP/HTTPS/SOCKS"));
    assert!(history.contains("127.0.0.1"));
    assert!(!history.contains("https://example.invalid"));
    assert!(!history.contains("token=secret"));
}

#[test]
fn footer_lines_are_sanitized_and_width_bound() {
    let mut app = TuiApp::default();
    app.view = View::Proxies;
    app.status = "错误：https://example.invalid/sub?token=secret\n下一行".into();
    app.proxy_query = "香港 https://example.invalid/query?token=secret 很长很长很长".into();

    let lines = app.footer_line_strings(40);

    assert!(lines.iter().all(|line| display_width(line) <= 40));
    let rendered = lines.join("\n");
    assert!(rendered.contains("[链接]"));
    assert!(rendered.contains("<换行>") || rendered.contains("..."));
    assert!(!rendered.contains("https://"));
    assert!(!rendered.contains("token=secret"));

    let mut app = TuiApp::default();
    app.status = "订阅链接必须以 http:// 或 https:// 开头".into();
    let lines = app.footer_line_strings(80);
    assert!(lines[0].contains("http://"));
    assert!(lines[0].contains("https://"));
}

#[test]
fn footer_help_compacts_without_partial_key_segments() {
    let app = TuiApp::default();

    let compact = app.footer_line_strings(70)[2].clone();
    assert!(display_width(&compact) <= 70);
    assert!(compact.contains("…更多"));
    assert!(compact.contains("? 帮助"));
    assert!(!compact.contains("..."));
    assert!(!compact.contains("系统..."));

    let wide = app.footer_line_strings(140)[2].clone();
    assert!(display_width(&wide) <= 140);
    assert!(wide.contains("P 系统代理"));
    assert!(wide.contains("T TUN"));
}

use clash_tui::details::{ConnectionMetadata, ConnectionRecord};
use clash_tui::frame::Rect;
use clash_tui::modal::transient_modal;
use clash_tui::models::{JobRecord, JobResult, JobStatus};

fn sample_connection() -> ConnectionRecord {
    ConnectionRecord {
        id: "conn-secret-url".into(),
        upload: 128,
        download: 4096,
        start: Some("2026-06-18T14:30:00+08:00".into()),
        chains: vec!["香港节点".into(), "自动选择".into()],
        rule: Some("DOMAIN-SUFFIX".into()),
        rule_payload: Some("example.com".into()),
        metadata: Some(ConnectionMetadata {
            network: Some("tcp".into()),
            conn_type: Some("HTTP".into()),
            source_ip: Some("198.18.0.1".into()),
            source_port: Some("51234".into()),
            destination_ip: Some("93.184.216.34".into()),
            destination_port: Some("443".into()),
            host: Some("video.example.com".into()),
            process: Some("curl".into()),
        }),
        extra: Some("{\n  \"downloadUrl\": \"https://example.invalid/sub?token=secret\"\n}".into()),
    }
}

fn screen(width: u16, height: u16) -> Rect {
    Rect { x: 0, y: 0, width, height }
}

#[test]
fn connections_detail_modal_sanitizes_extra_urls() {
    let mut app = TuiApp::default();
    app.view = View::Connections;
    app.connections = vec![sample_connection()];

    app.open_selected_connection_detail();
    let modal = transient_modal(&app, screen(120, 24)).expect("detail modal");
    let rendered = format!("{}\n{}", modal.title, modal.lines.join("\n"));

    assert!(rendered.contains("连接详情"));
    assert!(rendered.contains("连接ID"));
    assert!(rendered.contains("目标地址"));
    assert!(rendered.contains("93.184.216.34"));
    assert!(rendered.contains("curl"));
    assert!(rendered.contains("[订阅链接]"));
    assert!(!rendered.contains("https://example.invalid"));
}

#[test]
fn jobs_detail_modal_sanitizes_message_and_result_urls() {
    let mut app = TuiApp::default();
    app.view = View::Jobs;
    app.jobs = vec![JobRecord {
        id: "job-detail".into(),
        kind: "profile-update".into(),
        name: "更新 https://example.invalid/name?token=secret".into(),
        target: Some("remote".into()),
        status: JobStatus::Failed,
        message: Some("download failed https://example.invalid/sub?token=secret".into()),
        error: None,
        result: Some(JobResult {
            pretty: "{\n  \"message\": \"failed\",\n  \"url\": \"https://example.invalid/result?token=secret\"\n}".into(),
            current: None,
        }),
        created_at: 1,
        updated_at: 2,
        finished_at: Some(2),
    }];

    app.open_selected_job_detail();
    let modal = transient_modal(&app, screen(120, 24)).expect("detail modal");
    let rendered = format!("{}\n{}", modal.title, modal.lines.join("\n"));

    assert!(rendered.contains("任务详情"));
    assert!(rendered.contains("任务ID"));
    assert!(rendered.contains("[订阅链接]"));
    assert!(rendered.contains("按 Esc/Enter 关闭详情"));
    assert!(!rendered.contains("https://example.invalid"));
}

use clash_tui::models::{ConfirmAction, InputState, InputTarget, ProxyGroupRow, ProxyPane};
use clash_tui::outcomes::delay_test_message;
use clash_tui::state::{BusyState, ConfirmState, DetailState};

fn modal_text(app: &TuiApp, area: Rect) -> String {
    let modal = transient_modal(app, area).expect("modal");
    format!("{}\n{}", modal.title, modal.lines.join("\n"))
}

#[test]
fn transient_modals_render_confirmation_input_and_errors() {
    let area = screen(120, 32);

    let mut app = TuiApp::default();
    app.confirm = Some(ConfirmState {
        prompt: "确认清空日志显示和本地日志文件？y 确认 / n 取消".into(),
        action: ConfirmAction::ClearLogs,
    });
    let rendered = modal_text(&app, area);
    assert!(rendered.contains("确认操作"));
    assert!(rendered.contains("确认清空日志"));
    assert!(rendered.contains("按 y 确认"));

    let mut app = TuiApp::default();
    app.input = Some(InputState {
        target: InputTarget::ImportSubscriptionUrl,
        value: "https://example.invalid/sub?token=secret".into(),
    });
    let rendered = modal_text(&app, area);
    assert!(rendered.contains("输入"));
    assert!(rendered.contains("订阅链接"));
    assert!(rendered.contains("[订阅链接已输入"));
    assert!(!rendered.contains("https://"));
    assert!(!rendered.contains("token=secret"));

    let mut app = TuiApp::default();
    app.status = "错误：controller unavailable".into();
    let rendered = modal_text(&app, area);
    assert!(rendered.contains("错误提示"));
    assert!(rendered.contains("controller unavailable"));

    let mut app = TuiApp::default();
    app.confirm = Some(ConfirmState {
        prompt: "确认清空日志显示和本地日志文件？y 确认 / n 取消".into(),
        action: ConfirmAction::ClearLogs,
    });
    app.busy = Some(BusyState { message: "正在清空日志...".into() });
    let rendered = modal_text(&app, area);
    assert!(rendered.contains("处理中"));
    assert!(rendered.contains("正在清空日志"));
    assert!(!rendered.contains("确认操作"));
}

#[test]
fn raw_detail_modal_redacts_urls_and_control_chars() {
    let mut app = TuiApp::default();
    app.detail = Some(DetailState {
        title: "原始详情".into(),
        lines: vec!["失败 https://example.invalid/sub?token=secret\n下一行\t含制表".into()],
    });
    let rendered = modal_text(&app, screen(90, 24));

    assert!(rendered.contains("原始详情"));
    assert!(rendered.contains("[链接]"));
    assert!(rendered.contains("<换行>"));
    assert!(!rendered.contains("https://"));
    assert!(!rendered.contains("token=secret"));
}

#[test]
fn proxy_delay_test_uses_cursor_node_not_active_node() {
    let mut app = TuiApp::default();
    app.view = View::Proxies;
    app.proxy_pane = ProxyPane::Nodes;
    app.proxy_node_index = 1;
    app.proxy_groups = vec![ProxyGroupRow {
        name: "GLOBAL".into(),
        now: "香港节点".into(),
        nodes: vec!["香港节点".into(), "日本节点".into()],
        offline: false,
    }];

    let proxy = app.delay_test_request().expect("node to test");
    app.set_status(&delay_test_message(&proxy, &Err("controller unavailable".into())));
    assert!(app.status.contains("测速 日本节点 失败"));
    assert!(!app.status.contains("测速 香港节点"));
    assert_eq!(app.proxy_node_selection_key.as_deref(), Some("日本节点"));
    assert_eq!(app.selected_proxy_group().map(|group| group.now.as_str()), Some("香港节点"));
}

use clash_tui::modal::{help_screen, screen_plan, terminal_too_small, too_small_screen, ModalKind, ScreenBody};
use clash_tui::models::{MIN_TUI_HEIGHT, MIN_TUI_WIDTH};

#[test]
fn renders_full_help_screen() {
    let mut app = TuiApp::default();
    app.show_help = true;
    assert!(transient_modal(&app, screen(120, 32)).is_none());
    let plan = screen_plan(&app, screen(120, 32)).expect("the screen is large enough");
    assert_eq!(plan.content, ScreenBody::Help);
    assert!(plan.modal.is_none());
    let (title, lines) = help_screen(app.view);
    let rendered = format!("{title}\n{}", lines.join("\n"));
    assert!(rendered.contains("完整键位帮助"));
    assert!(rendered.contains("s 启停核心"));
    assert!(rendered.contains("任意页面直接粘贴"));
    assert!(rendered.contains("D 诊断"));
    assert!(rendered.contains("E 导出诊断快照"));
    assert!(rendered.contains("系统代理会二次确认"));
}

#[test]
fn small_terminal_renders_size_hint() {
    let area = screen(60, 16);
    assert!(terminal_too_small(area));
    assert!(screen_plan(&TuiApp::default(), area).is_none());
    assert!(screen_plan(&TuiApp::default(), screen(MIN_TUI_WIDTH - 1, 40)).is_none());
    assert!(!terminal_too_small(screen(MIN_TUI_WIDTH, MIN_TUI_HEIGHT)));
    let (title, lines) = too_small_screen(area);
    let rendered = format!("{title}\n{}", lines.join("\n"));
    assert!(rendered.contains("终端尺寸不足"));
    assert!(rendered.contains("当前终端：60x16"));
    assert!(rendered.contains(&format!("建议至少：{}x{}", MIN_TUI_WIDTH, MIN_TUI_HEIGHT)));
    assert!(rendered.contains("按 q 退出"));
    assert!(!rendered.contains("键位："));
}

#[test]
fn screen_plan_splits_tabs_body_and_footer() {
    let mut app = TuiApp::default();
    app.view = View::Logs;
    app.status = "错误：核心启动失败".to_owned();
    let area = Rect { x: 2, y: 1, width: 100, height: 30 };
    let plan = screen_plan(&app, area).expect("the screen is large enough");
    assert_eq!(plan.tabs, Rect { x: 2, y: 1, width: 100, height: 3 });
    assert_eq!(plan.body, Rect { x: 2, y: 4, width: 100, height: 24 });
    assert_eq!(plan.footer, Rect { x: 2, y: 28, width: 100, height: 3 });
    assert_eq!(plan.content, ScreenBody::Page(View::Logs));
    assert_eq!(plan.modal.map(|m| m.kind), Some(ModalKind::Error));
    let at_minimum = screen_plan(&TuiApp::default(), screen(MIN_TUI_WIDTH, MIN_TUI_HEIGHT)).unwrap();
    assert_eq!(at_minimum.body.height, MIN_TUI_HEIGHT - 6);
}
