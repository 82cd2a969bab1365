use clash_tui::details::{subscription_sweep_status_message, SubscriptionSweep};
use clash_tui::labels::seconds_until_label;
use clash_tui::models::{JobRecord, JobStatus};
use clash_tui::profiles::{next_profile_update_label, subscription_status_label, SubscriptionProfileStatus};
use clash_tui::runtime::runtime_proxy_groups_from_yaml;
use clash_tui::settings::{controller_channel_label, controller_state_label, format_controller_timeout};

fn test_job(id: &str, status: JobStatus) -> JobRecord {
    JobRecord {
        id: id.into(),
        kind: "profile-update".into(),
        name: "更新订阅".into(),
        target: Some("remote".into()),
        status,
        message: None,
        error: None,
        result: None,
        created_at: 1,
        updated_at: 2,
        finished_at: None,
    }
}

#[test]
fn profile_subscription_status_label_prioritizes_jobs_and_results() {
    let now_secs = 1;
    let base = SubscriptionProfileStatus {
        uid: Some("remote".into()),
        name: Some("正式订阅".into()),
        remote: true,
        auto_update_enabled: true,
        update_interval_minutes: Some(60),
        updated_at: Some(1),
        next_update_at: Some(3601),
        due: false,
        due_reason: "scheduled".into(),
        active_job: None,
        latest_job: None,
        latest_result: None,
        latest_failure: None,
    };

    assert_eq!(subscription_status_label(&base, now_secs), "已排期：1小时后");

    let mut success = base.clone();
    success.latest_result = Some("profile updated".into());
    assert_eq!(subscription_status_label(&success, now_secs), "最近成功");

    let mut runtime_success = base.clone();
    runtime_success.latest_result = Some("profile updated; runtime refreshed; core restarted".into());
    assert_eq!(
        subscription_status_label(&runtime_success, now_secs),
        "成功：订阅已更新；运行配置已刷新；核心已重启"
    );

    let mut custom_success = base;
    custom_success.latest_result = Some("saved https://example.invalid/sub?token=secret".into());
    let label = subscription_status_label(&custom_success, now_secs);
    assert!(label.contains("成功：saved [订阅链接]"));
    assert!(!label.contains("https://example.invalid"));

    let mut due = success;
    due.due = true;
    assert_eq!(subscription_status_label(&due, now_secs), "到期");

    let mut failed_due = due;
    failed_due.latest_failure = Some("download failed https://example.invalid/sub?token=secret".into());
    let label = subscription_status_label(&failed_due, now_secs);
    assert!(label.contains("失败：download failed [订阅链接]"));
    assert!(!label.contains("https://example.invalid"));

    let mut running_failed_due = failed_due;
    running_failed_due.active_job = Some(test_job("job-running", JobStatus::Running));
    assert_eq!(subscription_status_label(&running_failed_due, now_secs), "任务运行中");
}

#[test]
fn subscription_time_labels_are_readable_and_skip_disabled_profiles() {
    assert_eq!(seconds_until_label(0), "现在");
    assert_eq!(seconds_until_label(30), "30秒后");
    assert_eq!(seconds_until_label(61), "2分钟后");
    assert_eq!(seconds_until_label(3661), "1小时2分钟后");
    assert_eq!(seconds_until_label(7199), "2小时后");
    assert_eq!(seconds_until_label(86_399), "1天后");
    assert_eq!(seconds_until_label(86_401), "2天后");

    let active = SubscriptionProfileStatus {
        uid: Some("remote".into()),
        name: Some("自动更新".into()),
        remote: true,
        auto_update_enabled: true,
        update_interval_minutes: Some(60),
        updated_at: Some(1),
        next_update_at: Some(121),
        due: false,
        due_reason: "scheduled".into(),
        active_job: None,
        latest_job: None,
        latest_result: None,
        latest_failure: None,
    };
    let mut disabled = active.clone();
    disabled.auto_update_enabled = false;
    disabled.next_update_at = Some(61);

    assert_eq!(next_profile_update_label(&[disabled, active], 1), "2分钟后");
}

#[test]
fn subscription_sweep_status_message_lists_jobs_and_empty_state() {
    let sweep = SubscriptionSweep {
        checked: 5,
        due: 4,
        queued: 2,
        skipped: 2,
        jobs: vec![
            test_job("job-1", JobStatus::Pending),
            test_job("job-2", JobStatus::Running),
            test_job("job-3", JobStatus::Running),
            test_job("job-4", JobStatus::Running),
        ],
    };

    let message = subscription_sweep_status_message(&sweep);
    assert!(message.contains("检查=5"));
    assert!(message.contains("远程=4"));
    assert!(message.contains("入队=2"));
    assert!(message.contains("已运行=2"));
    assert!(message.contains("任务=job-1, job-2, job-3 等 1 个"));
    assert!(message.contains("按 8 查看详情"));

    let empty = SubscriptionSweep {
        checked: 1,
        due: 0,
        queued: 0,
        skipped: 0,
        jobs: Vec::new(),
    };
    assert!(subscription_sweep_status_message(&empty).contains("没有可更新的远程订阅"));
}

/// The runtime configuration of the preview test, as a YAML document:
///
/// proxies: [{name: HK, type: direct}, {name: SG, type: direct}]
/// proxy-providers: {remote: {type: http, url: ..., path: ./provider.yaml}}
/// proxy-groups:
///   - {name: Proxy, type: select, use: [remote], proxies: [HK, DIRECT]}
///   - {name: Auto, type: url-test, include-all: true}
/// rules: [MATCH,Proxy]

#[test]
fn runtime_proxy_groups_preview_reads_runtime_yaml() {
    let groups = runtime_proxy_groups_from_yaml(
        r"proxies:
  - name: HK
    type: direct
  - name: SG
    type: direct
proxy-providers:
  remote:
    type: http
    url: https://example.invalid/provider.yaml
    path: ./provider.yaml
proxy-groups:
  - name: Proxy
    type: select
    use:
      - remote
    proxies:
      - HK
      - DIRECT
  - name: Auto
    type: url-test
    include-all: true
rules:
  - MATCH,Proxy
",
    ).expect("runtime preview");

    assert_eq!(groups.len(), 3);
    assert!(groups.iter().all(|group| group.offline));
    assert_eq!(groups[0].name, "Proxy");
    assert_eq!(groups[0].now, "未预选");
    assert_eq!(
        groups[0].nodes,
        vec!["HK".to_owned(), "DIRECT".to_owned(), "Provider: remote".to_owned()]
    );
    assert!(groups[1].nodes.contains(&"SG".to_owned()));
    assert!(groups[1].nodes.contains(&"Provider: remote".to_owned()));
    assert_eq!(groups[2].name, "GLOBAL");
    assert_eq!(groups[2].nodes, vec!["HK".to_owned(), "SG".to_owned()]);
}

#[test]
fn controller_channel_label_hides_unix_debug_path() {
    assert_eq!(
        controller_channel_label(r#"Unix { path: "/var/lib/clash-tui/app_settings/mihomo.sock" }"#),
        "本机 Socket"
    );
}

#[test]
fn controller_state_label_separates_healthy_state_from_timeout_config() {
    assert_eq!(controller_state_label("控制器：健康，版本 v1.19.27"), "正常");
    assert_eq!(controller_state_label("控制器：健康检查超时"), "健康检查超时");
    assert_eq!(
        controller_state_label("控制器：failed to connect mihomo unix socket /var/lib/clash-tui/app_settings/mihomo.sock"),
        "未连接"
    );
}

#[test]
fn format_controller_timeout_uses_request_timeout_copy() {
    assert_eq!(format_controller_timeout(5000), "5秒");
    assert_eq!(format_controller_timeout(1500), "1500ms");
}
