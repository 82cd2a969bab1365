use clash_tui::frame::Rect;
use clash_tui::models::{JobRecord, JobStatus};
use clash_tui::profiles::{profiles_page, SubscriptionProfileStatus, SubscriptionScheduler, SubscriptionStatus};
use clash_tui::state::{ProfileEntry, TuiApp};

fn profile(uid: &str, name: Option<&str>, itype: &str) -> ProfileEntry {
    ProfileEntry {
        uid: Some(uid.into()),
        itype: Some(itype.into()),
        name: name.map(str::to_owned),
        ..ProfileEntry::default()
    }
}

fn status(uid: &str) -> SubscriptionProfileStatus {
    SubscriptionProfileStatus {
        uid: Some(uid.into()),
        name: None,
        remote: true,
        auto_update_enabled: true,
        update_interval_minutes: Some(60),
        updated_at: Some(1_000),
        next_update_at: None,
        due: false,
        due_reason: "scheduled".into(),
        active_job: None,
        latest_job: None,
        latest_result: None,
        latest_failure: None,
    }
}

fn running_job() -> JobRecord {
    JobRecord {
        id: "job".into(),
        kind: "profile-update".into(),
        name: "更新订阅".into(),
        target: Some("r1".into()),
        status: JobStatus::Running,
        message: None,
        error: None,
        result: None,
        created_at: 1,
        updated_at: 1,
        finished_at: None,
    }
}

#[test]
fn profiles_page_without_subscription_status() {
    let app = TuiApp {
        profiles: vec![profile("l1", Some("本地配置"), "local"), profile("r1", None, "remote")],
        profiles_current: Some("r1".into()),
        profile_index: 1,
        ..TuiApp::default()
    };
    let page = profiles_page(&app, Rect { x: 0, y: 0, width: 120, height: 30 }, 5_000);
    assert_eq!(page.lines[0], "当前：r1 | 订阅：2 | 显示：2");
    assert_eq!(page.lines[1], "订阅检查：尚未刷新");
    assert_eq!(page.lines[3], "");
    assert_eq!(page.header, vec!["", "当前", "名称", "类型", "UID", "状态"]);
    assert_eq!(page.rows, vec![
        vec![" ", " ", "本地配置", "本地", "l1", "-"],
        vec![">", "*", "r1", "远程", "r1", "-"],
    ]);
    assert_eq!(page.selected, Some(1));
}

#[test]
fn profiles_page_counts_and_labels_subscriptions() {
    let mut failing = status("r2");
    failing.latest_failure = Some("下载失败 https://example.invalid/sub?token=secret".into());
    failing.due = true;
    let mut busy = status("r1");
    busy.active_job = Some(running_job());
    busy.next_update_at = Some(5_030);
    let app = TuiApp {
        profiles: vec![
            profile("r1", Some("机场 https://example.invalid/a?token=x"), "remote"),
            profile("r2", Some("备用"), "remote"),
            profile("l1", Some("本地"), "local"),
        ],
        profiles_current: None,
        subscription_status: Some(SubscriptionStatus {
            scheduler: SubscriptionScheduler { startup_check_enabled: true, enabled: true },
            profiles: vec![busy, failing],
        }),
        ..TuiApp::default()
    };
    let page = profiles_page(&app, Rect { x: 0, y: 0, width: 160, height: 30 }, 5_000);
    assert_eq!(page.lines[0], "当前：无 | 订阅：3 | 显示：3");
    assert_eq!(page.lines[1], "订阅检查：远程=2 到期=1 进行中=1 下次到期=30秒后 失败=1");
    assert_eq!(page.rows[0][0], ">");
    assert!(page.rows[0][2].contains("[订阅链接]"));
    assert!(!page.rows[0][2].contains("token"));
    assert_eq!(page.rows[0][5], "任务运行中");
    assert!(page.rows[1][5].starts_with("失败："));
    assert!(!page.rows[1][5].contains("https://"));
    assert_eq!(page.rows[2][5], "-");
    assert!(page.rows.iter().all(|cells| cells[1] == " "));
}

#[test]
fn profiles_page_filter_and_window() {
    let mut app = TuiApp {
        profiles: (0..10).map(|i| profile(&format!("p{i}"), None, "remote")).collect(),
        profile_index: 7,
        ..TuiApp::default()
    };
    // 10 rows less the border and 5 reserved rows leave 3 table rows.
    let page = profiles_page(&app, Rect { x: 0, y: 0, width: 80, height: 10 }, 0);
    assert_eq!(page.rows.len(), 3);
    assert_eq!(page.rows[page.selected.unwrap()][4], "p7");
    app.profile_query = "zzz".into();
    let page = profiles_page(&app, Rect { x: 0, y: 0, width: 80, height: 10 }, 0);
    assert_eq!(page.lines[0], "当前：无 | 订阅：10 | 显示：0");
    assert!(page.rows.is_empty());
    assert_eq!(page.selected, None);
}
