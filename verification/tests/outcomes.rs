use clash_tui::models::{
    DashboardProxyPopup, JobRecord, JobStatus, KernelState, Mode, ProviderDialogKind, ProxyGroupRow, ProxyNodeMeta,
    ProxyPane,
};
use clash_tui::outcomes::{
    action_error_message, core_busy_message, core_request_message, core_toggle, mode_switched_message, next_mode,
    profile_deleted_message, profile_switched_message, provider_batch_example, provider_batch_message,
    subscription_job_message, CoreRequest, CoreToggle, import_failed_message, import_ready_message,
    import_stalled_message, subscription_import_url, unavailable_message, delay_test_message, retry_job_message,
    retry_target, NodeChoice, cancel_job_message, local_import_message, local_profile_path, runtime_preview_message,
    LocalImport,
};
use clash_tui::provider_dialog::ProviderOperation;
use clash_tui::state::{ProfileCatalog, ProfileEntry, TuiApp};

#[test]
fn core_toggle_starts_stops_or_waits() {
    assert_eq!(core_toggle(KernelState::Crashed), CoreToggle::Start);
    assert_eq!(core_toggle(KernelState::Unhealthy), CoreToggle::Stop);
    assert_eq!(core_toggle(KernelState::Updating), CoreToggle::Busy);
    assert_eq!(core_request_message(CoreRequest::Start, true, KernelState::Starting), "核心启动请求已受理，状态：启动中");
    assert_eq!(core_request_message(CoreRequest::Restart, false, KernelState::Running), "核心重启请求未受理，状态：运行中");
    assert_eq!(core_busy_message(KernelState::Stopping), "核心正忙：停止中");
}

#[test]
fn routing_mode_cycles_through_three_modes() {
    assert_eq!(next_mode(Mode::Rule), Mode::Global);
    assert_eq!(next_mode(next_mode(next_mode(Mode::Direct))), Mode::Direct);
    assert_eq!(mode_switched_message(Mode::Direct), "代理模式已切换为 直连");
}

#[test]
fn profile_operation_messages_name_what_happened() {
    assert_eq!(profile_switched_message("机场", true), "已切换订阅：机场，运行配置已热加载");
    assert_eq!(profile_switched_message("机场", false), "已切换订阅：机场，Core 启动后应用");
    assert_eq!(profile_deleted_message("旧订阅", false, false, None), "已删除订阅：旧订阅");
    assert_eq!(
        profile_deleted_message("旧订阅", true, true, Some("下载失败 https://example.invalid/sub?token=secret")),
        "已删除订阅：旧订阅，已切换到下一个订阅并热加载运行配置；下载失败 [订阅链接]"
    );
    assert_eq!(action_error_message("timeout"), "错误：timeout");
    assert_eq!(subscription_job_message(true, "job-1"), "已创建订阅更新任务：job-1");
    assert_eq!(subscription_job_message(false, "job-1"), "订阅更新任务已在运行：job-1");
}

fn entry(uid: Option<&str>, itype: Option<&str>) -> ProfileEntry {
    ProfileEntry {
        uid: uid.map(str::to_string),
        itype: itype.map(str::to_string),
        name: Some("sub".into()),
        desc: None,
        selected: None,
    }
}

#[test]
fn only_a_remote_profile_with_uid_can_be_updated() {
    let mut app = TuiApp::new();
    assert_eq!(app.subscription_update_uid().unwrap_err(), "未选择订阅");
    app.profiles = vec![entry(Some("u1"), Some("local")), entry(None, Some("remote")), entry(Some("u3"), Some("remote"))];
    assert_eq!(app.subscription_update_uid().unwrap_err(), "当前订阅不是远程订阅，不能在线更新");
    app.profile_index = 1;
    assert_eq!(app.subscription_update_uid().unwrap_err(), "当前订阅缺少 uid");
    app.profile_index = 2;
    assert_eq!(app.subscription_update_uid().unwrap(), "u3");
}

#[test]
fn provider_dialog_opens_only_with_providers() {
    let mut app = TuiApp::new();
    app.provider_dialog_opened(ProviderDialogKind::Rule, Ok(0), 1_000);
    assert_eq!(app.provider_dialog, None);
    assert_eq!(app.status, "当前配置没有规则 Provider");
    assert_eq!(app.status_pinned_until, Some(9_000));
    app.provider_dialog_opened(ProviderDialogKind::Proxy, Ok(3), 2_000);
    assert_eq!(app.provider_dialog, Some(ProviderDialogKind::Proxy));
    assert_eq!(app.status, "已打开代理 Provider，共 3 个");
    app.provider_dialog_refreshed(Err("502 from https://example.invalid/x".into()), 3_000);
    assert_eq!(app.provider_dialog, Some(ProviderDialogKind::Proxy));
    assert_eq!(app.status, "刷新代理 Provider失败：502 from [订阅链接]");
    app.provider_dialog_refreshed(Ok(0), 4_000);
    assert_eq!(app.provider_dialog, None);
    assert_eq!(app.status, "当前配置没有代理 Provider，已关闭弹窗");
    let before = app.clone();
    app.provider_dialog_refreshed(Ok(5), 5_000);
    assert_eq!(app.status, before.status);
    assert_eq!(app.status_history, before.status_history);
    assert_eq!(app.provider_dialog, None);
}

#[test]
fn provider_operations_leave_feedback_and_status() {
    let mut app = TuiApp::new();
    app.provider_operation_done(
        ProviderDialogKind::Proxy,
        "hk",
        ProviderOperation::Update,
        Ok(("  ".to_string(), ProviderOperation::Healthcheck)),
        10,
    );
    assert_eq!(app.status, "代理 Provider hk 测速已触发；已刷新相关数据");
    assert_eq!(app.provider_operation_feedback, vec![("proxy:hk".to_string(), "测速已触发".to_string())]);
    app.provider_operation_done(ProviderDialogKind::Rule, "ads", ProviderOperation::Update, Err("boom".into()), 20);
    assert_eq!(app.status, "规则 Provider ads 更新失败：boom");
    assert_eq!(
        provider_batch_message(ProviderDialogKind::Proxy, 2, 1, &vec![provider_batch_example("jp", "timeout")]),
        "代理 Provider批量更新完成：成功 2，失败 1；失败示例：jp: timeout"
    );
    assert_eq!(provider_batch_message(ProviderDialogKind::Rule, 4, 0, &vec![]), "规则 Provider批量更新完成：成功 4，失败 0");
}

#[test]
fn subscription_import_needs_a_web_link() {
    assert_eq!(subscription_import_url("   ").unwrap_err(), "订阅链接不能为空");
    assert_eq!(subscription_import_url("ftp://example.invalid/sub").unwrap_err(), "订阅链接必须以 http:// 或 https:// 开头");
    assert_eq!(subscription_import_url("not a url").unwrap_err(), "订阅链接格式不正确");
    assert_eq!(
        subscription_import_url("  https://example.invalid/sub?token=x \n").unwrap(),
        "https://example.invalid/sub?token=x"
    );
}

#[test]
fn import_messages_report_core_and_counts() {
    assert_eq!(
        import_ready_message("第 1 次", true, false, 3, 42, Some("已刷新 2 个 Provider")),
        "订阅导入并激活成功（第 1 次），Core 已启动，策略组 3 个，节点 42 个，已刷新 2 个 Provider"
    );
    assert_eq!(
        import_ready_message("第 2 次", false, false, 1, 0, None),
        "订阅导入并激活成功（第 2 次），Core 未启动，启动后应用，策略组 1 个，节点 0 个"
    );
    assert_eq!(
        import_stalled_message(false, true, "timeout", "runtime 摘要不可用", "", "诊断正常", "已保存"),
        "订阅已导入并激活，运行配置已热加载，但代理组未加载：timeout；runtime 摘要不可用；诊断正常；已保存；按 r 重试刷新或查看日志"
    );
    assert_eq!(
        import_failed_message("403 at https://example.invalid/sub?token=s", "诊断", "未保存"),
        "订阅导入或激活失败，本次导入未保留：403 at [订阅链接]；诊断；未保存"
    );
}

fn group(name: &str, nodes: &[&str]) -> ProxyGroupRow {
    ProxyGroupRow {
        name: name.into(),
        now: nodes.first().map(|n| n.to_string()).unwrap_or_default(),
        nodes: nodes.iter().map(|n| n.to_string()).collect(),
        offline: false,
    }
}

#[test]
fn refreshes_are_throttled_to_two_seconds() {
    let mut app = TuiApp::new();
    assert!(app.refresh_due(0));
    app.last_refresh = Some(10_000);
    assert!(!app.refresh_due(11_999));
    assert!(app.refresh_due(12_000));
    assert!(!app.refresh_due(5_000));
}

#[test]
fn followed_logs_jump_to_the_last_line() {
    let mut app = TuiApp::new();
    app.log_follow = true;
    app.logs_loaded(vec!["a".into(), "b".into(), "c".into()]);
    assert_eq!(app.log_index, 2);
    app.log_follow = false;
    app.log_index = 0;
    app.logs_loaded(vec!["a".into(), "b".into()]);
    assert_eq!(app.log_index, 0);
    assert_eq!(unavailable_message("规则", "timeout"), "规则不可用：timeout");
}

#[test]
fn unready_groups_keep_the_rows_being_chosen() {
    let mut app = TuiApp::new();
    app.proxy_groups = vec![group("节点选择", &["香港", "日本"])];
    app.proxy_user_selected = true;
    app.proxy_groups_unready(vec![], "策略组为空", "诊断正常", 0);
    assert_eq!(app.proxy_groups.len(), 1);
    assert_eq!(app.status, "策略组为空；诊断正常；保留当前代理列表，避免刷新打断选择");
    app.proxy_user_selected = false;
    app.proxy_groups_unready(vec![], "策略组为空", "诊断正常", 0);
    assert!(app.proxy_groups.is_empty());
    assert_eq!(app.status, "策略组为空；诊断正常");
    app.proxy_providers_unavailable();
    assert!(app.proxy_providers.is_empty());
    assert_eq!(app.proxy_provider_selection_key, None);
}

#[test]
fn proxies_enter_locates_the_group_then_hands_back_the_node() {
    let mut app = TuiApp::new();
    app.proxy_groups = vec![group("节点选择", &["香港", "日本"])];
    app.proxy_pane = ProxyPane::Groups;
    assert_eq!(app.proxy_selection_request(), None);
    assert_eq!(app.proxy_pane, ProxyPane::Nodes);
    assert_eq!(app.status, "已定位策略组：节点选择，请选择节点");
    app.proxy_node_index = 1;
    let choice = app.proxy_selection_request().unwrap();
    assert_eq!(choice, NodeChoice { group: "节点选择".into(), proxy: "日本".into(), offline: false });
    app.proxy_groups.clear();
    assert_eq!(app.proxy_selection_request(), None);
    assert_eq!(app.status, "未选择策略组");
}

#[test]
fn dashboard_node_enter_closes_the_popup() {
    let mut app = TuiApp::new();
    app.dashboard_proxy_popup = DashboardProxyPopup::Nodes;
    assert_eq!(app.dashboard_node_request(), None);
    assert_eq!(app.status, "未选择代理组");
    assert_eq!(app.dashboard_proxy_popup, DashboardProxyPopup::Closed);
    let mut offline = group("自动选择", &["美国"]);
    offline.offline = true;
    app.proxy_groups = vec![offline];
    app.dashboard_proxy_popup = DashboardProxyPopup::Nodes;
    let choice = app.dashboard_node_request().unwrap();
    assert!(choice.offline);
    assert_eq!(choice.proxy, "美国");
}

#[test]
fn applied_nodes_update_the_group_and_say_how() {
    let mut app = TuiApp::new();
    app.proxy_groups = vec![group("节点选择", &["香港", "日本"])];
    app.last_refresh = Some(5);
    let choice = NodeChoice { group: "节点选择".into(), proxy: "日本".into(), offline: false };
    let catalog = ProfileCatalog { current: None, items: None };
    app.node_choice_applied(&choice, Ok((catalog.clone(), false)));
    assert_eq!(app.proxy_groups[0].now, "日本");
    assert_eq!(app.status, "已为 节点选择 选择 日本");
    assert_eq!(app.last_refresh, None);
    app.node_choice_applied(&choice, Ok((catalog, true)));
    assert_eq!(app.status, "已预选 节点选择 -> 日本，启动 Core 后自动应用");
    app.node_choice_applied(&choice, Err("refused by https://example.invalid/x".into()));
    assert_eq!(app.status, "refused by [订阅链接]");
}

#[test]
fn delay_tests_need_a_live_group_and_record_the_delay() {
    let mut app = TuiApp::new();
    assert_eq!(app.delay_test_request(), None);
    assert_eq!(app.status, "未选择策略组");
    let mut offline = group("自动选择", &["美国"]);
    offline.offline = true;
    app.proxy_groups = vec![offline];
    assert_eq!(app.delay_test_request(), None);
    assert_eq!(app.status, "当前为离线预览，启动 Core 后才能测速节点：美国");
    app.proxy_groups = vec![group("节点选择", &["香港"])];
    assert_eq!(app.delay_test_request().as_deref(), Some("香港"));
    assert_eq!(app.proxy_node_selection_key.as_deref(), Some("香港"));
    assert!(app.proxy_user_selected);
    app.proxy_node_meta = vec![(
        "香港".into(),
        ProxyNodeMeta { proxy_type: "Shadowsocks".into(), delay_ms: Some(900), alive: Some(true) },
    )];
    app.record_proxy_delay("香港", Some(88));
    assert_eq!(
        app.proxy_node_meta,
        vec![("香港".into(), ProxyNodeMeta { proxy_type: "Shadowsocks".into(), delay_ms: Some(88), alive: Some(true) })]
    );
    app.record_proxy_delay("日本", Some(0));
    assert_eq!(app.proxy_node_meta[0].0, "日本");
    assert_eq!(app.proxy_node_meta[0].1, ProxyNodeMeta { proxy_type: "-".into(), delay_ms: Some(0), alive: None });
    assert_eq!(delay_test_message("香港", &Ok(Some(88))), "已测速 香港：88ms");
    assert_eq!(delay_test_message("香港", &Err("boom".into())), "测速 香港 失败：boom");
}

fn job(kind: &str, target: Option<&str>) -> JobRecord {
    JobRecord {
        id: "job-1".into(),
        kind: kind.into(),
        name: "update".into(),
        target: target.map(str::to_string),
        status: JobStatus::Failed,
        message: None,
        error: None,
        result: None,
        created_at: 0,
        updated_at: 0,
        finished_at: None,
    }
}

#[test]
fn only_subscription_updates_with_a_target_are_retried() {
    assert_eq!(retry_target(None).unwrap_err(), "未选择任务");
    assert_eq!(retry_target(Some(&job("core-validate", Some("x")))).unwrap_err(), "只有订阅更新任务支持重试");
    assert_eq!(retry_target(Some(&job("profile-update", None))).unwrap_err(), "当前任务缺少目标");
    assert_eq!(retry_target(Some(&job("profile-update", Some("uid-7")))).unwrap(), "uid-7");
    assert_eq!(retry_job_message(false, "job-9"), "已有同类任务正在运行：job-9");
}

#[test]
fn batch_updates_count_and_keep_three_examples() {
    let mut app = TuiApp::new();
    let answers: Vec<(String, Result<String, String>)> = vec![
        ("a".into(), Ok("".into())),
        ("b".into(), Err("e1".into())),
        ("c".into(), Ok("c2".into())),
        ("d".into(), Err("e2".into())),
        ("e".into(), Err("e3".into())),
        ("f".into(), Err("e4".into())),
    ];
    let (ok, failed, examples) = app.provider_batch_done(ProviderDialogKind::Proxy, &answers);
    assert_eq!((ok, failed), (2, 4));
    assert_eq!(examples, vec!["b: e1".to_string(), "d: e2".to_string(), "e: e3".to_string()]);
    assert_eq!(app.provider_feedback(ProviderDialogKind::Proxy, "a").as_deref(), Some("更新已触发"));
    assert_eq!(app.provider_feedback(ProviderDialogKind::Proxy, "c2").as_deref(), Some("更新已触发"));
    assert_eq!(app.provider_feedback(ProviderDialogKind::Proxy, "c"), None);
    assert_eq!(app.provider_feedback(ProviderDialogKind::Proxy, "f").as_deref(), Some("更新失败"));
}

#[test]
fn action_answers_are_pinned_statuses() {
    let mut app = TuiApp::new();
    app.set_action_status(Ok("DNS 覆写已切换".into()), 100);
    assert_eq!(app.status, "DNS 覆写已切换");
    assert_eq!(app.status_pinned_until, Some(8_100));
    app.set_action_status(Err("permission denied".into()), 200);
    assert_eq!(app.status, "错误：permission denied");
    assert_eq!(app.status_history.last().map(String::as_str), Some("错误：permission denied"));
}

#[test]
fn local_imports_and_job_cancels_report_plainly() {
    assert_eq!(local_profile_path("  ").unwrap_err(), "本地配置路径不能为空");
    assert_eq!(local_profile_path(" /tmp/a.yaml\n").unwrap(), "/tmp/a.yaml");
    assert_eq!(local_import_message(&LocalImport::Imported), "本地配置导入成功");
    assert_eq!(local_import_message(&LocalImport::Refused("invalid yaml".into())), "本地配置导入失败：invalid yaml");
    assert_eq!(local_import_message(&LocalImport::Unreadable("not found".into())), "读取本地配置失败：not found");
    assert_eq!(cancel_job_message(Some("已请求取消")), "任务取消：已请求取消");
    assert_eq!(cancel_job_message(None), "任务不存在");
    assert_eq!(
        runtime_preview_message("策略组为空", 4),
        "策略组为空；已显示 runtime 离线预览 4 个策略组；可预选节点，启动 Core 后自动应用"
    );
    let mut app = TuiApp::new();
    assert_eq!(app.selected_job_id().unwrap_err(), "未选择任务");
    app.jobs = vec![job("profile-update", Some("u"))];
    assert_eq!(app.selected_job_id().unwrap(), "job-1");
}
