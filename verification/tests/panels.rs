use clash_tui::frame::Rect;
use clash_tui::panels::{
    alive_tone, dashboard_cells, dashboard_section, popup_rect, proxy_delay_tone, rect_new, split_title_line_rect, Tone,
};

fn rect(x: u16, y: u16, width: u16, height: u16) -> Rect {
    Rect { x, y, width, height }
}

#[test]
fn rects_are_cut_to_stay_within_u16() {
    assert_eq!(rect_new(65530, 1, 10, 3), rect(65530, 1, 5, 3));
    assert_eq!(rect_new(1, 2, 3, 4), rect(1, 2, 3, 4));
}

#[test]
fn node_popup_hugs_the_proxy_panel_and_the_right_edge() {
    let bounds = rect(0, 0, 100, 30);
    let proxy = rect(50, 10, 50, 20);
    assert_eq!(popup_rect(bounds, proxy, 12), rect(49, 15, 51, 12));
    assert_eq!(popup_rect(bounds, proxy, 40), rect(49, 15, 51, 15));
    assert_eq!(popup_rect(bounds, proxy, 3), rect(49, 15, 51, 7));
    let low = rect(50, 26, 50, 4);
    assert_eq!(popup_rect(bounds, low, 20), rect(49, 23, 51, 7));
}

#[test]
fn dashboard_splits_into_four_bodied_panels() {
    let (top_left, top_right, bottom_left, bottom_right) = dashboard_cells(rect(0, 0, 80, 20));
    assert_eq!(top_left.raw, rect(0, 0, 40, 12));
    assert_eq!(top_right.raw, rect(41, 0, 39, 12));
    assert_eq!(bottom_left.raw, rect(0, 13, 40, 7));
    assert_eq!(bottom_right.raw, rect(41, 13, 39, 7));
    assert_eq!(top_left.body, rect(2, 2, 36, 9));
    assert_eq!(dashboard_section(rect(0, 0, 3, 2)).body, rect(2, 2, 0, 0));
    let (short, _, _, _) = dashboard_cells(rect(0, 0, 30, 8));
    assert_eq!(short.raw.height, 5);
}

#[test]
fn split_title_line_widens_by_one_cell_each_side() {
    assert_eq!(split_title_line_rect(rect(5, 3, 20, 1)), rect(4, 3, 22, 1));
    assert_eq!(split_title_line_rect(rect(0, 3, 20, 1)), rect(0, 3, 21, 1));
}

#[test]
fn delay_and_liveness_tones() {
    assert_eq!(proxy_delay_tone(Some(120)), Tone::Good);
    assert_eq!(proxy_delay_tone(Some(180)), Tone::Slow);
    assert_eq!(proxy_delay_tone(Some(0)), Tone::Slow);
    assert_eq!(proxy_delay_tone(Some(12_000)), Tone::Slow);
    assert_eq!(proxy_delay_tone(Some(-1)), Tone::Muted);
    assert_eq!(proxy_delay_tone(None), Tone::Muted);
    assert_eq!(alive_tone(Some(false)), Tone::Slow);
    assert_eq!(alive_tone(None), Tone::Muted);
}

use clash_tui::dashboard::{core_summary, usage_summary, CoreSnapshot};
use clash_tui::models::KernelState;
use clash_tui::state::{ProfileEntry, TuiApp};

#[test]
fn core_line_shows_version_pid_and_state() {
    let (line, state) = core_summary(None);
    assert_eq!(line, "Mihomo Meta 未刷新 / PID -");
    assert_eq!(state, "未刷新");
    let snapshot = CoreSnapshot { version: Some("v1.19.2".into()), pid: Some(4321), state: KernelState::Running };
    assert_eq!(core_summary(Some(&snapshot)), ("v1.19.2 / PID 4321".to_string(), "运行中".to_string()));
    let unknown = CoreSnapshot { version: None, pid: None, state: KernelState::Crashed };
    assert_eq!(core_summary(Some(&unknown)).0, "未知版本 / PID -");
}

#[test]
fn usage_line_adds_up_traffic() {
    assert_eq!(usage_summary(512, 512, 0), "已用 1.0 KB / 总量 未知");
    assert_eq!(usage_summary(100, 23, 2048), "已用 123 B / 总量 2.0 KB");
}

fn entry(uid: Option<&str>) -> ProfileEntry {
    ProfileEntry { uid: uid.map(str::to_string), itype: None, name: None, desc: None, selected: None }
}

#[test]
fn current_profile_is_found_by_uid() {
    let mut app = TuiApp::new();
    app.profiles = vec![entry(None), entry(Some("b")), entry(Some("b"))];
    assert_eq!(app.current_profile_position(), None);
    app.profiles_current = Some("b".into());
    assert_eq!(app.current_profile_position(), Some(1));
    app.profiles_current = Some("z".into());
    assert_eq!(app.current_profile_position(), None);
}

use clash_tui::modal::{transient_modal, ModalKind};
use clash_tui::models::ConfirmAction;
use clash_tui::state::{BusyState, ConfirmState, DetailState};

#[test]
fn transient_boxes_follow_their_priority() {
    let area = rect(0, 0, 100, 30);
    let mut app = TuiApp::new();
    assert!(transient_modal(&app, area).is_none());
    app.status = "错误：连接被拒绝".into();
    let error = transient_modal(&app, area).unwrap();
    assert_eq!(error.kind, ModalKind::Error);
    assert_eq!(error.title, "错误提示");
    assert!(error.alert);
    assert_eq!(error.area, rect(13, 11, 74, 7));
    assert_eq!(error.lines, vec!["错误：连接被拒绝".to_string(), String::new(), "可以继续切页、刷新或按 ? 查看帮助。".to_string()]);
    app.confirm = Some(ConfirmState { prompt: "确认清空日志？".into(), action: ConfirmAction::ClearLogs });
    app.busy = Some(BusyState { message: "正在更新订阅".into() });
    let busy = transient_modal(&app, area).unwrap();
    assert_eq!(busy.kind, ModalKind::Busy);
    assert_eq!(busy.lines[0], "正在更新订阅");
    app.busy = None;
    assert_eq!(transient_modal(&app, area).unwrap().kind, ModalKind::Confirm);
    app.show_help = true;
    assert!(transient_modal(&app, area).is_none());
}

#[test]
fn detail_boxes_cut_long_panes() {
    let area = rect(0, 0, 100, 30);
    let mut app = TuiApp::new();
    app.detail = Some(DetailState { title: "连接详情".into(), lines: (0..30).map(|i| format!("line {i}")).collect() });
    let detail = transient_modal(&app, area).unwrap();
    assert_eq!(detail.kind, ModalKind::Detail);
    assert_eq!(detail.title, "连接详情");
    assert_eq!(detail.area, rect(9, 2, 82, 26));
    assert_eq!(detail.lines.len(), 22 + 3);
    assert_eq!(detail.lines[21], "line 21");
    assert_eq!(detail.lines[22], "...");
    assert_eq!(detail.lines[24], "按 Esc/Enter 关闭详情，按 q 退出。");
}

use clash_tui::models::{ProxyGroupRow, ProxyNodeMeta};
use clash_tui::popups::{group_popup, node_popup};

fn proxy_group(name: &str, nodes: &[&str]) -> ProxyGroupRow {
    ProxyGroupRow {
        name: name.into(),
        now: nodes.first().map(|n| n.to_string()).unwrap_or_default(),
        nodes: nodes.iter().map(|n| n.to_string()).collect(),
        offline: false,
    }
}

#[test]
fn group_popup_lists_groups_around_the_selection() {
    let mut app = TuiApp::new();
    app.proxy_groups = (0..8).map(|i| proxy_group(&format!("g{i}"), &["a", "b"])).collect();
    app.dashboard_proxy_group_index = 6;
    let popup = group_popup(&app, rect(0, 0, 50, 8));
    assert_eq!(popup.title, "选择代理组  7/8");
    assert_eq!(popup.offset, 3);
    assert_eq!(popup.rows.len(), 5);
    assert_eq!(popup.rows[0].cells, vec!["g3".to_string(), "a".to_string(), "2".to_string()]);
    assert_eq!(popup.selected, Some(3));
    assert!(popup.rows[3].selected);
    assert_eq!(popup.footer, "Enter 定位节点；Esc 收起。");
}

#[test]
fn node_popup_shows_delays_and_the_action() {
    let mut app = TuiApp::new();
    assert!(node_popup(&app, rect(0, 0, 50, 8)).is_none());
    let mut group = proxy_group("节点选择", &["香港", "日本"]);
    group.offline = true;
    app.proxy_groups = vec![group];
    app.proxy_node_meta = vec![(
        "香港".into(),
        ProxyNodeMeta { proxy_type: "vmess".into(), delay_ms: Some(120), alive: Some(true) },
    )];
    app.dashboard_proxy_node_index = 1;
    let popup = node_popup(&app, rect(0, 0, 50, 8)).unwrap();
    assert_eq!(popup.title, "节点选择 / 选择节点  2/2");
    assert_eq!(popup.rows.len(), 2);
    assert_eq!(popup.rows[0].cells, vec!["香港".to_string(), "120ms".to_string()]);
    assert_eq!(popup.rows[0].tone, Some(Tone::Good));
    assert_eq!(popup.rows[1].cells, vec!["日本".to_string(), "-".to_string()]);
    assert_eq!(popup.rows[1].tone, Some(Tone::Muted));
    assert_eq!(popup.selected, Some(1));
    assert_eq!(popup.footer, "Enter 预选节点；Esc 收起。");
}

use clash_tui::modal::help_screen;
use clash_tui::models::View;

#[test]
fn help_screen_names_the_page_and_lists_every_page() {
    let (title, lines) = help_screen(View::Proxies);
    assert_eq!(title, "帮助 - 代理");
    assert_eq!(lines.len(), 14);
    assert_eq!(lines[0], "当前：完整键位帮助。Esc 或 ? 关闭帮助，q 退出程序。");
    assert!(lines[6].starts_with("代理："));
    assert_eq!(lines[13], "确认模式：y 确认，n 或 Esc 取消。");
}
