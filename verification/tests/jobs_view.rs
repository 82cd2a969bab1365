use clash_tui::frame::Rect;
use clash_tui::jobs::{job_row_detail, jobs_page, JobSummary};
use clash_tui::models::View;
use clash_tui::state::TuiApp;
use clash_tui::models::{JobRecord, JobStatus};

fn job(id: &str, kind: &str, name: &str, target: Option<&str>, status: JobStatus) -> JobRecord {
    JobRecord {
        id: id.into(),
        kind: kind.into(),
        name: name.into(),
        target: target.map(str::to_owned),
        status,
        message: None,
        error: None,
        result: None,
        created_at: 1,
        updated_at: 2,
        finished_at: None,
    }
}

#[test]
fn job_row_detail_hides_urls_in_errors() {
    let mut failed = job("job-secret-url", "profile-update", "更新订阅", Some("remote"), JobStatus::Failed);
    failed.error = Some("download failed https://example.invalid/sub?token=secret".into());
    failed.finished_at = Some(2);
    let detail = job_row_detail(&failed);
    assert!(detail.starts_with("错误："));
    assert!(detail.contains("[订阅链接]"));
    assert!(!detail.contains("https://example.invalid"));
    assert!(!detail.contains("token=secret"));
}

#[test]
fn job_row_detail_falls_back_to_message_then_status() {
    let mut running = job("job-running", "profile-update", "更新订阅 B", Some("remote-b"), JobStatus::Running);
    assert_eq!(job_row_detail(&running), "正在执行");
    running.error = Some("   ".into());
    assert_eq!(job_row_detail(&running), "正在执行");
    let failed = job("job-failed", "profile-update", "更新订阅 D", Some("remote-d"), JobStatus::Failed);
    assert_eq!(job_row_detail(&failed), "失败，Enter 查看详情或 R 重试");
    let pending = job("job-pending", "profile-update", "更新订阅 A", Some("remote-a"), JobStatus::Pending);
    assert_eq!(job_row_detail(&pending), "等待调度");
    let cancelled = job("job-cancelled", "diagnose", "诊断", None, JobStatus::Cancelled);
    assert_eq!(job_row_detail(&cancelled), "已取消");
}

#[test]
fn job_summary_counts_the_batch() {
    let mut running = job("job-running", "profile-update", "更新订阅 B", Some("remote-b"), JobStatus::Running);
    running.message = Some("downloading".into());
    let mut ok = job("job-ok", "profile-update", "更新订阅 C", Some("remote-c"), JobStatus::Succeeded);
    ok.message = Some("profile updated".into());
    let mut failed = job("job-failed", "profile-update", "更新订阅 D", Some("remote-d"), JobStatus::Failed);
    failed.error = Some("下载失败 https://example.invalid/sub?token=secret".into());
    let jobs = vec![
        job("job-pending", "profile-update", "更新订阅 A", Some("remote-a"), JobStatus::Pending),
        running,
        ok,
        failed.clone(),
        job("job-cancelled", "diagnose", "诊断", None, JobStatus::Cancelled),
    ];
    let summary = JobSummary::from_jobs(&jobs);
    assert_eq!(
        (summary.pending, summary.running, summary.succeeded, summary.failed, summary.cancelled, summary.retryable),
        (1, 1, 1, 1, 1, 1)
    );
    assert_eq!(summary.latest_running.as_deref(), Some("更新订阅 B / remote-b"));
    assert_eq!(summary.latest_failed.as_deref(), Some("更新订阅 D / remote-d"));
    let focus = summary.focus_line();
    assert!(focus.contains("关注：运行中"));
    assert!(focus.contains("最近失败"));
    let detail = job_row_detail(&failed);
    assert!(detail.contains("[订阅链接]"));
    assert!(!detail.contains("https://example.invalid"));
    let empty = JobSummary::from_jobs(&[]);
    assert_eq!(empty.focus_line(), "关注：运行中 无运行中任务 | 最近失败 无失败任务");
    let mut diagnose_failed = job("d", "diagnose", "诊断", None, JobStatus::Failed);
    diagnose_failed.error = Some("boom".into());
    let only = JobSummary::from_jobs(&[diagnose_failed]);
    assert_eq!((only.failed, only.retryable), (1, 0));
    assert_eq!(only.latest_failed.as_deref(), Some("诊断 / -"));
}

fn rendered(app: &TuiApp, width: u16, height: u16) -> String {
    let page = jobs_page(app, Rect { x: 0, y: 0, width, height });
    let mut text = page.lines.join("\n");
    text.push('\n');
    text.push_str(&page.header.join(" "));
    for row in &page.rows {
        text.push('\n');
        text.push_str(&row.join(" "));
    }
    if let Some(empty) = page.empty {
        text.push('\n');
        text.push_str(empty);
    }
    text
}

#[test]
fn jobs_view_sanitizes_url_details() {
    let mut failed = job("job-secret-url", "profile-update", "更新订阅", Some("remote"), JobStatus::Failed);
    failed.error = Some("download failed https://example.invalid/sub?token=secret".into());
    failed.finished_at = Some(2);
    let app = TuiApp { view: View::Jobs, jobs: vec![failed], ..TuiApp::default() };
    let text = rendered(&app, 160, 12);
    assert!(text.contains("[订阅链接]"));
    assert!(!text.contains("https://example.invalid"));
    assert!(text.contains("任务ID"));
    assert!(text.contains("状态"));
    assert!(text.contains("详情"));
}

#[test]
fn jobs_view_summarizes_batch_status_and_filters_by_result_text() {
    let mut running = job("job-running", "profile-update", "更新订阅 B", Some("remote-b"), JobStatus::Running);
    running.message = Some("downloading".into());
    let mut ok = job("job-ok", "profile-update", "更新订阅 C", Some("remote-c"), JobStatus::Succeeded);
    ok.message = Some("profile updated".into());
    let mut failed = job("job-failed", "profile-update", "更新订阅 D", Some("remote-d"), JobStatus::Failed);
    failed.error = Some("下载失败 https://example.invalid/sub?token=secret".into());
    let mut app = TuiApp {
        view: View::Jobs,
        jobs: vec![
            job("job-pending", "profile-update", "更新订阅 A", Some("remote-a"), JobStatus::Pending),
            running,
            ok,
            failed,
            job("job-cancelled", "diagnose", "诊断", None, JobStatus::Cancelled),
        ],
        ..TuiApp::default()
    };
    let text = rendered(&app, 160, 18);
    for part in ["等待：1", "运行：1", "成功：1", "失败：1", "取消：1", "可重试：1", "关注：运行中", "最近失败", "摘要", "[订阅链接]"] {
        assert!(text.contains(part), "{part} missing from {text}");
    }
    assert!(!text.contains("https://example.invalid"));
    let page = jobs_page(&app, Rect { x: 0, y: 0, width: 160, height: 18 });
    assert_eq!(page.rows.len(), 5);
    assert_eq!(page.rows[0][0], ">");
    assert_eq!(page.rows[4][4], "-");
    assert_eq!(page.empty, None);
    app.job_query = "nothing-matches".into();
    let page = jobs_page(&app, Rect { x: 0, y: 0, width: 160, height: 18 });
    assert!(page.rows.is_empty());
    assert_eq!(page.empty, Some("没有匹配当前过滤条件的任务"));
    assert!(page.lines[0].contains("显示：0"));
    let none = TuiApp { view: View::Jobs, ..TuiApp::default() };
    assert_eq!(
        jobs_page(&none, Rect { x: 0, y: 0, width: 100, height: 20 }).empty,
        Some("暂无任务记录；订阅更新、批量检查或重试后会在这里显示")
    );
}
