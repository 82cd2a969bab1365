//! The job list: per-status counts, the jobs to keep an eye on, and the
//! one-line summary of each job.
use vstd::prelude::*;
use vstd::string::*;
use crate::models::{JobRecord, JobStatus};
use crate::strs::{blank, dec, dec_string, from_chars, owned, push_str, push_usize, str_blank, str_eq, to_chars, views};
use crate::frame::{content_rows, content_rows_of, page_content_width, page_width_of, Rect};
use crate::labels::{job_status_label, job_status_text};
use crate::layout::{fit_display_width, fit_text, stable_text, table_cell_text};
use crate::navigation::job_indices;
use crate::selection::{visible_indices, window_start};
use crate::state::TuiApp;
use crate::xtask::str_views;
use crate::text::{
    profile_update_message_label, sanitize_url_error, sanitized, update_message_label,
};

verus! {

/// Per-status counts of the job list, and the latest running and failed job.
#[derive(Debug, Clone, PartialEq, Eq)]
pub struct JobSummary {
    pub pending: usize,
    pub running: usize,
    pub succeeded: usize,
    pub failed: usize,
    pub cancelled: usize,
    pub retryable: usize,
    pub latest_running: Option<String>,
    pub latest_failed: Option<String>,
}

/// The target of a job, `-` when it has none.
pub open spec fn target_text(job: JobRecord) -> Seq<char> {
    match job.target {
        Some(t) => t@,
        None => "-"@,
    }
}

/// How a job is named where it needs attention: name and target, with URLs
/// hidden.
pub open spec fn focus_text(job: JobRecord) -> Seq<char> {
    sanitized(job.name@ + " / "@ + target_text(job))
}

/// Names a job by its name and target, with URLs hidden.
pub fn job_focus_text(job: &JobRecord) -> (r: String)
    ensures
        r@ == focus_text(*job),
{
    let mut v: Vec<char> = to_chars(job.name.as_str());
    push_str(&mut v, " / ");
    match &job.target {
        Some(t) => push_str(&mut v, t.as_str()),
        None => push_str(&mut v, "-"),
    }
    let joined = from_chars(&v);
    sanitize_url_error(joined.as_str())
}

/// The number of jobs with the given status.
pub open spec fn count_status(jobs: Seq<JobRecord>, status: JobStatus) -> nat
    decreases jobs.len(),
{
    if jobs.len() == 0 {
        0
    } else {
        count_status(jobs.drop_last(), status) + if jobs.last().status == status {
            1nat
        } else {
            0nat
        }
    }
}

/// A failed subscription update, which can be retried.
pub open spec fn retryable(job: JobRecord) -> bool {
    job.status == JobStatus::Failed && job.kind@ == "profile-update"@
}

pub open spec fn count_retryable(jobs: Seq<JobRecord>) -> nat
    decreases jobs.len(),
{
    if jobs.len() == 0 {
        0
    } else {
        count_retryable(jobs.drop_last()) + if retryable(jobs.last()) {
            1nat
        } else {
            0nat
        }
    }
}

/// The focus text of the last job with the given status.
pub open spec fn last_with_status(jobs: Seq<JobRecord>, status: JobStatus) -> Option<Seq<char>>
    decreases jobs.len(),
{
    if jobs.len() == 0 {
        None
    } else if jobs.last().status == status {
        Some(focus_text(jobs.last()))
    } else {
        last_with_status(jobs.drop_last(), status)
    }
}

pub open spec fn opt_view(o: Option<String>) -> Option<Seq<char>> {
    match o {
        Some(s) => Some(s@),
        None => None,
    }
}

/// The summary a job list gives.
pub open spec fn summary_of(s: JobSummary, jobs: Seq<JobRecord>) -> bool {
    &&& s.pending == count_status(jobs, JobStatus::Pending)
    &&& s.running == count_status(jobs, JobStatus::Running)
    &&& s.succeeded == count_status(jobs, JobStatus::Succeeded)
    &&& s.failed == count_status(jobs, JobStatus::Failed)
    &&& s.cancelled == count_status(jobs, JobStatus::Cancelled)
    &&& s.retryable == count_retryable(jobs)
    &&& opt_view(s.latest_running) == last_with_status(jobs, JobStatus::Running)
    &&& opt_view(s.latest_failed) == last_with_status(jobs, JobStatus::Failed)
}

proof fn lemma_counts_bounded(jobs: Seq<JobRecord>)
    ensures
        count_status(jobs, JobStatus::Pending) + count_status(jobs, JobStatus::Running)
            + count_status(jobs, JobStatus::Succeeded) + count_status(jobs, JobStatus::Failed)
            + count_status(jobs, JobStatus::Cancelled) == jobs.len(),
        count_retryable(jobs) <= count_status(jobs, JobStatus::Failed),
    decreases jobs.len(),
{
    if jobs.len() > 0 {
        lemma_counts_bounded(jobs.drop_last());
    }
}

/// Every job has exactly one status, so the per-status counts of a summary
/// add up to the number of jobs, and no more jobs are retryable than failed.
pub proof fn law_job_counts_partition(s: JobSummary, jobs: Seq<JobRecord>)
    requires
        summary_of(s, jobs),
    ensures
        s.pending + s.running + s.succeeded + s.failed + s.cancelled == jobs.len(),
        s.retryable <= s.failed,
{
    lemma_counts_bounded(jobs);
}

impl JobSummary {
    /// Counts the jobs by status and remembers the latest running and
    /// failed one.
    pub fn from_jobs(jobs: &[JobRecord]) -> (r: JobSummary)
        ensures
            summary_of(r, jobs@),
    {
        let mut r = JobSummary {
            pending: 0,
            running: 0,
            succeeded: 0,
            failed: 0,
            cancelled: 0,
            retryable: 0,
            latest_running: None,
            latest_failed: None,
        };
        let mut i: usize = 0;
        while i < jobs.len()
            invariant
                i <= jobs.len(),
                summary_of(r, jobs@.take(i as int)),
            decreases jobs.len() - i,
        {
            let job = &jobs[i];
            proof {
                lemma_counts_bounded(jobs@.take(i as int));
                assert(jobs@.take(i + 1).drop_last() =~= jobs@.take(i as int));
                assert(jobs@.take(i + 1).last() == *job);
            }
            match job.status {
                JobStatus::Pending => {
                    r.pending = r.pending + 1;
                },
                JobStatus::Running => {
                    r.running = r.running + 1;
                    r.latest_running = Some(job_focus_text(job));
                },
                JobStatus::Succeeded => {
                    r.succeeded = r.succeeded + 1;
                },
                JobStatus::Failed => {
                    r.failed = r.failed + 1;
                    r.latest_failed = Some(job_focus_text(job));
                    if str_eq(job.kind.as_str(), "profile-update") {
                        r.retryable = r.retryable + 1;
                    }
                },
                JobStatus::Cancelled => {
                    r.cancelled = r.cancelled + 1;
                },
            }
            i += 1;
        }
        proof {
            assert(jobs@.take(jobs.len() as int) =~= jobs@);
        }
        r
    }

    /// The line naming the latest running and the latest failed job.
    pub fn focus_line(&self) -> (r: String)
        ensures
            r@ == "关注：运行中 "@ + (match self.latest_running {
                Some(t) => t@,
                None => "无运行中任务"@,
            }) + " | 最近失败 "@ + (match self.latest_failed {
                Some(t) => t@,
                None => "无失败任务"@,
            }),
    {
        let mut v: Vec<char> = Vec::new();
        push_str(&mut v, "关注：运行中 ");
        match &self.latest_running {
            Some(t) => push_str(&mut v, t.as_str()),
            None => push_str(&mut v, "无运行中任务"),
        }
        push_str(&mut v, " | 最近失败 ");
        match &self.latest_failed {
            Some(t) => push_str(&mut v, t.as_str()),
            None => push_str(&mut v, "无失败任务"),
        }
        from_chars(&v)
    }
}

/// The fallback summary of a job with neither error nor message.
pub open spec fn status_detail(status: JobStatus) -> Seq<char> {
    match status {
        JobStatus::Pending => "等待调度"@,
        JobStatus::Running => "正在执行"@,
        JobStatus::Succeeded => "已完成"@,
        JobStatus::Failed => "失败，Enter 查看详情或 R 重试"@,
        JobStatus::Cancelled => "已取消"@,
    }
}

/// The summary column of a job: its error when there is one, else its
/// message, else a word on its status.
pub open spec fn row_detail(job: JobRecord) -> Seq<char> {
    match job.error {
        Some(e) if !blank(e@) => "错误："@ + sanitized(e@),
        _ => match job.message {
            Some(m) if !blank(m@) => update_message_label(m@),
            _ => status_detail(job.status),
        },
    }
}

/// The summary column of a job row.
pub fn job_row_detail(job: &JobRecord) -> (r: String)
    ensures
        r@ == row_detail(*job),
{
    if let Some(e) = &job.error {
        if !str_blank(e.as_str()) {
            let mut v: Vec<char> = Vec::new();
            push_str(&mut v, "错误：");
            let clean = sanitize_url_error(e.as_str());
            push_str(&mut v, clean.as_str());
            return from_chars(&v);
        }
    }
    if let Some(m) = &job.message {
        if !str_blank(m.as_str()) {
            return profile_update_message_label(m.as_str());
        }
    }
    match job.status {
        JobStatus::Pending => owned("等待调度"),
        JobStatus::Running => owned("正在执行"),
        JobStatus::Succeeded => owned("已完成"),
        JobStatus::Failed => owned("失败，Enter 查看详情或 R 重试"),
        JobStatus::Cancelled => owned("已取消"),
    }
}

/// The focus line of a job list.
pub open spec fn focus_line_text(jobs: Seq<JobRecord>) -> Seq<char> {
    "关注：运行中 "@ + (match last_with_status(jobs, JobStatus::Running) {
        Some(t) => t,
        None => "无运行中任务"@,
    }) + " | 最近失败 "@ + (match last_with_status(jobs, JobStatus::Failed) {
        Some(t) => t,
        None => "无失败任务"@,
    })
}

/// The lines above the job table, fitted to `w` cells; `shown` is the
/// number of jobs the filter keeps.
pub open spec fn jobs_head_lines(jobs: Seq<JobRecord>, shown: nat, w: nat) -> Seq<Seq<char>> {
    seq![
        fit_text(
            "任务："@ + dec(jobs.len()) + " | 显示："@ + dec(shown) + " | 等待："@ + dec(
                count_status(jobs, JobStatus::Pending),
            ) + " | 运行："@ + dec(count_status(jobs, JobStatus::Running)) + " | 成功："@ + dec(
                count_status(jobs, JobStatus::Succeeded),
            ) + " | 失败："@ + dec(count_status(jobs, JobStatus::Failed)) + " | 取消："@ + dec(
                count_status(jobs, JobStatus::Cancelled),
            ) + " | 可重试："@ + dec(count_retryable(jobs)),
            w,
        ),
        fit_text(focus_line_text(jobs), w),
        fit_text("操作：Enter 详情弹窗 | R 重试订阅更新 | c 取消运行中任务 | / 过滤"@, w),
    ]
}

/// The cells of the row of job `i`: the cursor marker, id, state, kind,
/// target (URLs hidden), last update and summary.
pub open spec fn job_row_cells(app: TuiApp, i: usize) -> Seq<Seq<char>> {
    let j = app.jobs@[i as int];
    seq![
        if i == app.job_index {
            ">"@
        } else {
            " "@
        },
        stable_text(j.id@),
        stable_text(job_status_text(j.status)),
        stable_text(j.kind@),
        stable_text(sanitized(target_text(j))),
        dec(j.updated_at as nat),
        stable_text(row_detail(j)),
    ]
}

/// The jobs an area shows: a window of the table's height around the
/// selected job, among those the filter keeps.
pub open spec fn jobs_window(app: TuiApp, area: Rect) -> Seq<usize> {
    let all = job_indices(app);
    let max = content_rows_of(area, 4) as nat;
    if all.len() <= max {
        all
    } else {
        all.subrange(window_start(all, app.job_index, max), window_start(all, app.job_index, max) + max)
    }
}

/// The text in place of the table when the filter keeps no job.
pub open spec fn jobs_empty_text(app: TuiApp) -> Option<Seq<char>> {
    if job_indices(app).len() > 0 {
        None
    } else if app.jobs@.len() == 0 {
        Some("暂无任务记录；订阅更新、批量检查或重试后会在这里显示"@)
    } else {
        Some("没有匹配当前过滤条件的任务"@)
    }
}

/// The job page as values: the lines above the table, its header and rows,
/// or the text shown in place of an empty table.
#[derive(Debug)]
pub struct JobsPage {
    pub lines: Vec<String>,
    pub header: Vec<&'static str>,
    pub rows: Vec<Vec<String>>,
    pub empty: Option<&'static str>,
}

fn job_cells(app: &TuiApp, i: usize) -> (r: Vec<String>)
    requires
        i < app.jobs@.len(),
    ensures
        views(r@) == job_row_cells(*app, i),
{
    let j = &app.jobs[i];
    let marker = if i == app.job_index {
        owned(">")
    } else {
        owned(" ")
    };
    let target: &str = match &j.target {
        Some(t) => t.as_str(),
        None => "-",
    };
    let clean = sanitize_url_error(target);
    let detail = job_row_detail(j);
    let cells = vec![
        marker,
        table_cell_text(j.id.as_str()),
        table_cell_text(job_status_label(j.status)),
        table_cell_text(j.kind.as_str()),
        table_cell_text(clean.as_str()),
        dec_string(j.updated_at),
        table_cell_text(detail.as_str()),
    ];
    proof {
        assert(views(cells@) =~= job_row_cells(*app, i));
    }
    cells
}

/// The job page of `app` in `area`.
pub fn jobs_page(app: &TuiApp, area: Rect) -> (r: JobsPage)
    ensures
        ({
            let w = page_width_of(area) as nat;
            let win = jobs_window(*app, area);
            &&& views(r.lines@) == jobs_head_lines(app.jobs@, job_indices(*app).len(), w)
            &&& str_views(r.header@) == seq![""@, "任务ID"@, "状态"@, "类型"@, "目标"@, "更新"@, "摘要"@]
            &&& r.rows@.len() == win.len()
            &&& forall|k: int| 0 <= k < win.len() ==> views(#[trigger] r.rows@[k]@) == job_row_cells(*app, win[k])
            &&& match jobs_empty_text(*app) {
                Some(t) => r.empty matches Some(e) && e@ == t,
                None => r.empty is None,
            }
        }),
{
    let indices = app.filtered_job_indices();
    let width = page_content_width(area);
    let ghost w = width as nat;
    let summary = JobSummary::from_jobs(app.jobs.as_slice());
    let mut v = to_chars("任务：");
    push_usize(&mut v, app.jobs.len());
    push_str(&mut v, " | 显示：");
    push_usize(&mut v, indices.len());
    push_str(&mut v, " | 等待：");
    push_usize(&mut v, summary.pending);
    push_str(&mut v, " | 运行：");
    push_usize(&mut v, summary.running);
    push_str(&mut v, " | 成功：");
    push_usize(&mut v, summary.succeeded);
    push_str(&mut v, " | 失败：");
    push_usize(&mut v, summary.failed);
    push_str(&mut v, " | 取消：");
    push_usize(&mut v, summary.cancelled);
    push_str(&mut v, " | 可重试：");
    push_usize(&mut v, summary.retryable);
    let counts = from_chars(&v);
    let focus = summary.focus_line();
    let lines = vec![
        fit_display_width(counts.as_str(), width),
        fit_display_width(focus.as_str(), width),
        fit_display_width("操作：Enter 详情弹窗 | R 重试订阅更新 | c 取消运行中任务 | / 过滤", width),
    ];
    proof {
        assert(focus@ == focus_line_text(app.jobs@));
        assert(views(lines@) =~= jobs_head_lines(app.jobs@, indices@.len(), w));
    }
    let header: Vec<&'static str> = vec!["", "任务ID", "状态", "类型", "目标", "更新", "摘要"];
    proof {
        assert(str_views(header@) =~= seq![""@, "任务ID"@, "状态"@, "类型"@, "目标"@, "更新"@, "摘要"@]);
    }
    let empty: Option<&'static str> = if indices.len() > 0 {
        None
    } else if app.jobs.len() == 0 {
        Some("暂无任务记录；订阅更新、批量检查或重试后会在这里显示")
    } else {
        Some("没有匹配当前过滤条件的任务")
    };
    let max_rows = content_rows(area, 4);
    let win = visible_indices(indices.as_slice(), app.job_index, max_rows);
    proof {
        assert(win@ == jobs_window(*app, area));
        crate::navigation::lemma_job_indices_in_range(*app);
    }
    let mut rows: Vec<Vec<String>> = Vec::new();
    let mut k: usize = 0;
    while k < win.len()
        invariant
            k <= win.len(),
            win@ == jobs_window(*app, area),
            forall|j: int| 0 <= j < win@.len() ==> #[trigger] win@[j] < app.jobs@.len(),
            rows@.len() == k,
            forall|j: int| 0 <= j < k ==> views(#[trigger] rows@[j]@) == job_row_cells(*app, win@[j]),
        decreases win.len() - k,
    {
        let cells = job_cells(app, win[k]);
        rows.push(cells);
        k += 1;
    }
    JobsPage { lines, header, rows, empty }
}

} // verus!
