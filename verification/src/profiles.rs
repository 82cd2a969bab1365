//! Labels of the subscription page: each profile's update state, the next
//! scheduled update, and the kind of a profile.
use vstd::prelude::*;
use vstd::string::*;
use crate::labels::{job_status_label, job_status_text, seconds_until_label, seconds_until_text};
use crate::models::JobRecord;
use crate::strs::{dec, from_chars, owned, push_str, push_usize, str_eq, str_trim, to_chars, trim, chars_eq, views};
use crate::frame::{content_rows, content_rows_of, page_content_width, page_width_of, Rect};
use crate::layout::{fit_display_width, fit_text, stable_text, table_cell_text};
use crate::navigation::{opt_view, profile_indices};
use crate::selection::{index_position, position, visible_indices, window_start};
use crate::state::{ProfileEntry, TuiApp};
use crate::xtask::str_views;
use crate::text::{
    profile_update_message_label, sanitize_url_error, sanitized, update_message_label,
};

verus! {

/// The update state of one subscription profile.
#[derive(Debug, Clone, PartialEq, Eq)]
pub struct SubscriptionProfileStatus {
    pub uid: Option<String>,
    pub name: Option<String>,
    pub remote: bool,
    pub auto_update_enabled: bool,
    pub update_interval_minutes: Option<u64>,
    pub updated_at: Option<u64>,
    pub next_update_at: Option<u64>,
    pub due: bool,
    pub due_reason: String,
    pub active_job: Option<JobRecord>,
    pub latest_job: Option<JobRecord>,
    pub latest_result: Option<String>,
    pub latest_failure: Option<String>,
}

/// The switches of the subscription scheduler: whether subscriptions are
/// checked at start-up and whether the background timer runs.
#[derive(Debug, Clone, Copy, PartialEq, Eq, Structural)]
pub struct SubscriptionScheduler {
    pub startup_check_enabled: bool,
    pub enabled: bool,
}

/// The subscription scheduler and the update state of each profile.
#[derive(Debug, Clone, PartialEq, Eq)]
pub struct SubscriptionStatus {
    pub scheduler: SubscriptionScheduler,
    pub profiles: Vec<SubscriptionProfileStatus>,
}

/// How long until `timestamp`, seen at `now` (seconds since the epoch).
pub open spec fn until_text(timestamp: nat, now: nat) -> Seq<char> {
    if timestamp <= now {
        "已到期"@
    } else {
        seconds_until_text((timestamp - now) as nat)
    }
}

/// How long until a point in time, or `已到期` when it has passed.
pub fn timestamp_until_label(timestamp_secs: u64, now_secs: u64) -> (r: String)
    ensures
        r@ == until_text(timestamp_secs as nat, now_secs as nat),
{
    if timestamp_secs <= now_secs {
        owned("已到期")
    } else {
        seconds_until_label(timestamp_secs - now_secs)
    }
}

/// The label of the latest successful update.
pub open spec fn result_text(result: Seq<char>) -> Seq<char> {
    let label = update_message_label(result);
    if trim(label).len() == 0 || trim(label) == "订阅已更新"@ {
        "最近成功"@
    } else {
        "成功："@ + label
    }
}

/// Labels the message of the latest successful update: plain successes read
/// `最近成功`, anything more is shown after `成功：`.
pub fn subscription_result_label(result: &str) -> (r: String)
    ensures
        r@ == result_text(result@),
{
    let label = profile_update_message_label(result);
    let t = str_trim(label.as_str());
    let done = to_chars("订阅已更新");
    if t.len() == 0 || chars_eq(&t, &done) {
        owned("最近成功")
    } else {
        let mut v = to_chars("成功：");
        push_str(&mut v, label.as_str());
        from_chars(&v)
    }
}

/// The words for why a profile is, or is not, due for an update.
pub open spec fn due_reason_text(reason: Seq<char>) -> Seq<char> {
    if reason == "not a remote subscription"@ {
        "非远程订阅"@
    } else if reason == "auto update disabled"@ {
        "到期检查关闭"@
    } else if reason == "missing update interval"@ {
        "缺少更新间隔"@
    } else if reason == "update interval is zero"@ {
        "更新间隔为 0"@
    } else if reason == "missing last update timestamp"@ {
        "缺少上次更新时间"@
    } else if reason == "due now"@ {
        "已到期"@
    } else if reason == "scheduled"@ {
        "已排期"@
    } else {
        "未知状态"@
    }
}

/// The Chinese label of the reason a profile is, or is not, due.
pub fn due_reason_label(reason: &str) -> (r: &'static str)
    ensures
        r@ == due_reason_text(reason@),
{
    if str_eq(reason, "not a remote subscription") {
        "非远程订阅"
    } else if str_eq(reason, "auto update disabled") {
        "到期检查关闭"
    } else if str_eq(reason, "missing update interval") {
        "缺少更新间隔"
    } else if str_eq(reason, "update interval is zero") {
        "更新间隔为 0"
    } else if str_eq(reason, "missing last update timestamp") {
        "缺少上次更新时间"
    } else if str_eq(reason, "due now") {
        "已到期"
    } else if str_eq(reason, "scheduled") {
        "已排期"
    } else {
        "未知状态"
    }
}

/// The state column of a profile: a running job first, then the latest
/// failure, then being due, then the latest success, then the schedule.
pub open spec fn status_text(s: SubscriptionProfileStatus, now: nat) -> Seq<char> {
    match s.active_job {
        Some(job) => "任务"@ + job_status_text(job.status),
        None => match s.latest_failure {
            Some(f) => "失败："@ + sanitized(f@),
            None => if s.due {
                "到期"@
            } else {
                match s.latest_result {
                    Some(r) => result_text(r@),
                    None => if s.due_reason@ == "scheduled"@ {
                        match s.next_update_at {
                            Some(next) => "已排期："@ + until_text(next as nat, now),
                            None => due_reason_text(s.due_reason@),
                        }
                    } else {
                        due_reason_text(s.due_reason@)
                    },
                }
            },
        },
    }
}

/// The state column of a subscription profile at time `now_secs`.
pub fn subscription_status_label(status: &SubscriptionProfileStatus, now_secs: u64) -> (r: String)
    ensures
        r@ == status_text(*status, now_secs as nat),
{
    if let Some(job) = &status.active_job {
        let mut v = to_chars("任务");
        push_str(&mut v, job_status_label(job.status));
        return from_chars(&v);
    }
    if let Some(failure) = &status.latest_failure {
        let mut v = to_chars("失败：");
        let clean = sanitize_url_error(failure.as_str());
        push_str(&mut v, clean.as_str());
        return from_chars(&v);
    }
    if status.due {
        return owned("到期");
    }
    if let Some(result) = &status.latest_result {
        return subscription_result_label(result.as_str());
    }
    if str_eq(status.due_reason.as_str(), "scheduled") {
        if let Some(next) = status.next_update_at {
            let mut v = to_chars("已排期：");
            let until = timestamp_until_label(next, now_secs);
            push_str(&mut v, until.as_str());
            return from_chars(&v);
        }
    }
    owned(due_reason_label(status.due_reason.as_str()))
}

/// The earliest scheduled update among the remote profiles that update
/// automatically.
pub open spec fn earliest_update(statuses: Seq<SubscriptionProfileStatus>) -> Option<u64>
    decreases statuses.len(),
{
    if statuses.len() == 0 {
        None
    } else {
        let rest = earliest_update(statuses.drop_last());
        let s = statuses.last();
        if s.remote && s.auto_update_enabled && s.next_update_at is Some {
            let t = s.next_update_at->0;
            match rest {
                Some(r) => Some(if r <= t { r } else { t }),
                None => Some(t),
            }
        } else {
            rest
        }
    }
}

/// The earliest update is the schedule of one of the profiles that count,
/// and no profile that counts is scheduled earlier.
pub proof fn law_earliest_update_is_minimum(statuses: Seq<SubscriptionProfileStatus>)
    ensures
        match earliest_update(statuses) {
            Some(t) => (exists|i: int|
                0 <= i < statuses.len() && statuses[i].remote && statuses[i].auto_update_enabled
                    && statuses[i].next_update_at == Some(t)) && (forall|i: int|
                0 <= i < statuses.len() && statuses[i].remote && statuses[i].auto_update_enabled
                    && statuses[i].next_update_at is Some ==> t <= statuses[i].next_update_at->0),
            None => forall|i: int|
                0 <= i < statuses.len() && statuses[i].remote && statuses[i].auto_update_enabled
                    ==> statuses[i].next_update_at is None,
        },
    decreases statuses.len(),
{
    if statuses.len() > 0 {
        let init = statuses.drop_last();
        law_earliest_update_is_minimum(init);
        assert forall|i: int| 0 <= i < init.len() implies init[i] == statuses[i] by {}
        match earliest_update(init) {
            Some(r) => {
                let w = choose|i: int|
                    0 <= i < init.len() && init[i].remote && init[i].auto_update_enabled
                        && init[i].next_update_at == Some(r);
                assert(statuses[w] == init[w]);
            },
            None => {},
        }
    }
}

/// When the next scheduled update of an automatically updated remote
/// profile is due, or `无`.
pub fn next_profile_update_label(statuses: &[SubscriptionProfileStatus], now_secs: u64) -> (r:
    String)
    ensures
        r@ == (match earliest_update(statuses@) {
            Some(t) => until_text(t as nat, now_secs as nat),
            None => "无"@,
        }),
{
    let mut best: Option<u64> = None;
    let mut i: usize = 0;
    while i < statuses.len()
        invariant
            i <= statuses.len(),
            best == earliest_update(statuses@.take(i as int)),
        decreases statuses.len() - i,
    {
        let s = &statuses[i];
        proof {
            assert(statuses@.take(i + 1).drop_last() =~= statuses@.take(i as int));
            assert(statuses@.take(i + 1).last() == *s);
        }
        if s.remote && s.auto_update_enabled {
            if let Some(t) = s.next_update_at {
                best = match best {
                    Some(b) => Some(if b <= t { b } else { t }),
                    None => Some(t),
                };
            }
        }
        i += 1;
    }
    proof {
        assert(statuses@.take(statuses.len() as int) =~= statuses@);
    }
    match best {
        Some(t) => timestamp_until_label(t, now_secs),
        None => owned("无"),
    }
}

/// The kind column of a profile.
pub open spec fn kind_text(kind: Option<Seq<char>>) -> Seq<char> {
    match kind {
        Some(k) => if k == "local"@ {
            "本地"@
        } else if k == "remote"@ {
            "远程"@
        } else if k == "merge"@ {
            "合并"@
        } else if k == "script"@ {
            "脚本"@
        } else if k == "rules"@ {
            "规则"@
        } else {
            "-"@
        },
        None => "-"@,
    }
}

/// The Chinese label of the type of a profile.
pub fn profile_kind_label(kind: Option<&str>) -> (r: &'static str)
    ensures
        r@ == kind_text(
            match kind {
                Some(k) => Some(k@),
                None => None,
            },
        ),
{
    match kind {
        Some(k) => if str_eq(k, "local") {
            "本地"
        } else if str_eq(k, "remote") {
            "远程"
        } else if str_eq(k, "merge") {
            "合并"
        } else if str_eq(k, "script") {
            "脚本"
        } else if str_eq(k, "rules") {
            "规则"
        } else {
            "-"
        },
        None => "-",
    }
}

/// Whether a profile status has the mark that `which` names: 0 remote,
/// 1 due, 2 a running job, 3 a failure.
pub open spec fn status_flag(x: SubscriptionProfileStatus, which: int) -> bool {
    if which == 0 {
        x.remote
    } else if which == 1 {
        x.due
    } else if which == 2 {
        x.active_job is Some
    } else {
        x.latest_failure is Some
    }
}

/// How many profile statuses have the mark `which`.
pub open spec fn count_flag(s: Seq<SubscriptionProfileStatus>, which: int) -> nat
    decreases s.len(),
{
    if s.len() == 0 {
        0
    } else {
        count_flag(s.drop_last(), which) + if status_flag(s.last(), which) {
            1nat
        } else {
            0nat
        }
    }
}

/// The status of the first profile status with this uid.
pub open spec fn status_for(s: Seq<SubscriptionProfileStatus>, uid: Option<Seq<char>>) -> Option<
    SubscriptionProfileStatus,
>
    decreases s.len(),
{
    if s.len() == 0 {
        None
    } else if opt_view(s[0].uid) == uid {
        Some(s[0])
    } else {
        status_for(s.skip(1), uid)
    }
}

/// When the next scheduled update is due, or `无`.
pub open spec fn next_update_text(s: Seq<SubscriptionProfileStatus>, now: nat) -> Seq<char> {
    match earliest_update(s) {
        Some(t) => until_text(t as nat, now),
        None => "无"@,
    }
}

/// The lines above the subscription table, fitted to `w` cells; `shown` is
/// the number of profiles the filter keeps.
pub open spec fn profiles_head_lines(app: TuiApp, shown: nat, now: nat, w: nat) -> Seq<Seq<char>> {
    seq![
        fit_text(
            "当前："@ + (match opt_view(app.profiles_current) {
                Some(c) => c,
                None => "无"@,
            }) + " | 订阅："@ + dec(app.profiles@.len()) + " | 显示："@ + dec(shown),
            w,
        ),
        match app.subscription_status {
            Some(ss) => fit_text(
                "订阅检查：远程="@ + dec(count_flag(ss.profiles@, 0)) + " 到期="@ + dec(count_flag(ss.profiles@, 1))
                    + " 进行中="@ + dec(count_flag(ss.profiles@, 2)) + " 下次到期="@ + next_update_text(
                    ss.profiles@,
                    now,
                ) + " 失败="@ + dec(count_flag(ss.profiles@, 3)),
                w,
            ),
            None => "订阅检查：尚未刷新"@,
        },
        fit_text(
            "操作：直接粘贴订阅链接 | Enter 切换 | i 输入URL | o 本地导入 | u 更新选中 | a 更新全部 | d 删除 | / 过滤"@,
            w,
        ),
        Seq::empty(),
    ]
}

/// The cells of the row of profile `i`: the cursor marker, `*` for the
/// profile in use, its name (URLs hidden; the uid when it has none), kind,
/// uid and update state.
pub open spec fn profile_row_cells(app: TuiApp, i: usize, now: nat) -> Seq<Seq<char>> {
    let p = app.profiles@[i as int];
    let uid = match opt_view(p.uid) {
        Some(u) => u,
        None => "-"@,
    };
    let name = match opt_view(p.name) {
        Some(n) => n,
        None => uid,
    };
    let state = match app.subscription_status {
        Some(ss) => match status_for(ss.profiles@, opt_view(p.uid)) {
            Some(st) => status_text(st, now),
            None => "-"@,
        },
        None => "-"@,
    };
    seq![
        if i == app.profile_index {
            ">"@
        } else {
            " "@
        },
        if opt_view(app.profiles_current) == opt_view(p.uid) {
            "*"@
        } else {
            " "@
        },
        stable_text(sanitized(name)),
        stable_text(kind_text(opt_view(p.itype))),
        stable_text(uid),
        stable_text(state),
    ]
}

/// The profiles an area shows: a window of the table's height around the
/// selected profile, among those the filter keeps.
pub open spec fn profiles_window(app: TuiApp, area: Rect) -> Seq<usize> {
    let all = profile_indices(app);
    let max = content_rows_of(area, 5) as nat;
    if all.len() <= max {
        all
    } else {
        all.subrange(window_start(all, app.profile_index, max), window_start(all, app.profile_index, max) + max)
    }
}

/// The subscription page as values: the lines above the table, its rows
/// and which shown row is selected. When the filter keeps no profile the
/// table reads 没有匹配当前过滤条件的订阅 and `rows` is empty.
#[derive(Debug)]
pub struct ProfilesPage {
    pub lines: Vec<String>,
    pub header: Vec<&'static str>,
    pub rows: Vec<Vec<String>>,
    pub selected: Option<usize>,
}

fn count_flags(s: &Vec<SubscriptionProfileStatus>) -> (r: (usize, usize, usize, usize))
    ensures
        r.0 == count_flag(s@, 0),
        r.1 == count_flag(s@, 1),
        r.2 == count_flag(s@, 2),
        r.3 == count_flag(s@, 3),
{
    let mut c: (usize, usize, usize, usize) = (0, 0, 0, 0);
    let mut i: usize = 0;
    while i < s.len()
        invariant
            i <= s.len(),
            c.0 == count_flag(s@.take(i as int), 0),
            c.1 == count_flag(s@.take(i as int), 1),
            c.2 == count_flag(s@.take(i as int), 2),
            c.3 == count_flag(s@.take(i as int), 3),
            c.0 <= i && c.1 <= i && c.2 <= i && c.3 <= i,
        decreases s.len() - i,
    {
        proof {
            assert(s@.take(i + 1).drop_last() =~= s@.take(i as int));
            assert(s@.take(i + 1).last() == s@[i as int]);
        }
        let x = &s[i];
        if x.remote {
            c.0 = c.0 + 1;
        }
        if x.due {
            c.1 = c.1 + 1;
        }
        if x.active_job.is_some() {
            c.2 = c.2 + 1;
        }
        if x.latest_failure.is_some() {
            c.3 = c.3 + 1;
        }
        i += 1;
    }
    proof {
        assert(s@.take(s.len() as int) =~= s@);
    }
    c
}

fn opt_same(a: &Option<String>, b: &Option<String>) -> (r: bool)
    ensures
        r == (opt_view(*a) == opt_view(*b)),
{
    match (a, b) {
        (Some(x), Some(y)) => str_eq(x.as_str(), y.as_str()),
        (None, None) => true,
        _ => false,
    }
}

fn find_status<'a>(s: &'a Vec<SubscriptionProfileStatus>, uid: &Option<String>) -> (r: Option<
    &'a SubscriptionProfileStatus,
>)
    ensures
        match r {
            Some(x) => status_for(s@, opt_view(*uid)) == Some(*x),
            None => status_for(s@, opt_view(*uid)) is None,
        },
{
    let mut i: usize = 0;
    proof {
        assert(s@.skip(0) =~= s@);
    }
    while i < s.len()
        invariant
            i <= s.len(),
            status_for(s@, opt_view(*uid)) == status_for(s@.skip(i as int), opt_view(*uid)),
        decreases s.len() - i,
    {
        proof {
            assert(s@.skip(i as int).skip(1) =~= s@.skip(i + 1));
        }
        if opt_same(&s[i].uid, uid) {
            return Some(&s[i]);
        }
        i += 1;
    }
    None
}

fn profile_cells(app: &TuiApp, i: usize, now_secs: u64) -> (r: Vec<String>)
    requires
        i < app.profiles@.len(),
    ensures
        views(r@) == profile_row_cells(*app, i, now_secs as nat),
{
    let p: &ProfileEntry = &app.profiles[i];
    let marker = if i == app.profile_index {
        owned(">")
    } else {
        owned(" ")
    };
    let current = if opt_same(&app.profiles_current, &p.uid) {
        owned("*")
    } else {
        owned(" ")
    };
    let uid: &str = match &p.uid {
        Some(u) => u.as_str(),
        None => "-",
    };
    let name: &str = match &p.name {
        Some(n) => n.as_str(),
        None => uid,
    };
    let kind: Option<&str> = match &p.itype {
        Some(k) => Some(k.as_str()),
        None => None,
    };
    let state = match &app.subscription_status {
        Some(ss) => match find_status(&ss.profiles, &p.uid) {
            Some(st) => subscription_status_label(st, now_secs),
            None => owned("-"),
        },
        None => owned("-"),
    };
    let clean = sanitize_url_error(name);
    let cells = vec![
        marker,
        current,
        table_cell_text(clean.as_str()),
        table_cell_text(profile_kind_label(kind)),
        table_cell_text(uid),
        table_cell_text(state.as_str()),
    ];
    proof {
        assert(views(cells@) =~= profile_row_cells(*app, i, now_secs as nat));
    }
    cells
}

/// The subscription page of `app` in `area` at time `now_secs` (seconds
/// since the epoch).
pub fn profiles_page(app: &TuiApp, area: Rect, now_secs: u64) -> (r: ProfilesPage)
    ensures
        ({
            let w = page_width_of(area) as nat;
            let shown = profile_indices(*app);
            let win = profiles_window(*app, area);
            &&& views(r.lines@) == profiles_head_lines(*app, shown.len(), now_secs as nat, w)
            &&& str_views(r.header@) == seq![""@, "当前"@, "名称"@, "类型"@, "UID"@, "状态"@]
            &&& r.rows@.len() == win.len()
            &&& forall|k: int|
                0 <= k < win.len() ==> views(#[trigger] r.rows@[k]@) == profile_row_cells(
                    *app,
                    win[k],
                    now_secs as nat,
                )
            &&& match position(win, app.profile_index) {
                Some(k) => r.selected == Some(k as usize),
                None => r.selected is None,
            }
        }),
{
    let indices = app.filtered_profile_indices();
    let width = page_content_width(area);
    let ghost w = width as nat;
    let mut first = to_chars("当前：");
    match &app.profiles_current {
        Some(c) => push_str(&mut first, c.as_str()),
        None => push_str(&mut first, "无"),
    }
    push_str(&mut first, " | 订阅：");
    push_usize(&mut first, app.profiles.len());
    push_str(&mut first, " | 显示：");
    push_usize(&mut first, indices.len());
    let first_line = from_chars(&first);
    let check = match &app.subscription_status {
        Some(ss) => {
            let (remote, due, active, failed) = count_flags(&ss.profiles);
            let next = next_profile_update_label(ss.profiles.as_slice(), now_secs);
            let mut v = to_chars("订阅检查：远程=");
            push_usize(&mut v, remote);
            push_str(&mut v, " 到期=");
            push_usize(&mut v, due);
            push_str(&mut v, " 进行中=");
            push_usize(&mut v, active);
            push_str(&mut v, " 下次到期=");
            push_str(&mut v, next.as_str());
            push_str(&mut v, " 失败=");
            push_usize(&mut v, failed);
            let t = from_chars(&v);
            fit_display_width(t.as_str(), width)
        },
        None => owned("订阅检查：尚未刷新"),
    };
    let lines = vec![
        fit_display_width(first_line.as_str(), width),
        check,
        fit_display_width(
            "操作：直接粘贴订阅链接 | Enter 切换 | i 输入URL | o 本地导入 | u 更新选中 | a 更新全部 | d 删除 | / 过滤",
            width,
        ),
        String::new(),
    ];
    proof {
        assert(views(lines@) =~= profiles_head_lines(*app, indices@.len(), now_secs as nat, w));
    }
    let header: Vec<&'static str> = vec!["", "当前", "名称", "类型", "UID", "状态"];
    proof {
        assert(str_views(header@) =~= seq![""@, "当前"@, "名称"@, "类型"@, "UID"@, "状态"@]);
    }
    let max_rows = content_rows(area, 5);
    let win = visible_indices(indices.as_slice(), app.profile_index, max_rows);
    proof {
        assert(win@ == profiles_window(*app, area));
        crate::navigation::lemma_profile_indices_in_range(*app);
    }
    let mut rows: Vec<Vec<String>> = Vec::new();
    let mut k: usize = 0;
    while k < win.len()
        invariant
            k <= win.len(),
            win@ == profiles_window(*app, area),
            forall|j: int| 0 <= j < win@.len() ==> #[trigger] win@[j] < app.profiles@.len(),
            rows@.len() == k,
            forall|j: int|
                0 <= j < k ==> views(#[trigger] rows@[j]@) == profile_row_cells(*app, win@[j], now_secs as nat),
        decreases win.len() - k,
    {
        let cells = profile_cells(app, win[k], now_secs);
        rows.push(cells);
        k += 1;
    }
    let selected = index_position(win.as_slice(), app.profile_index);
    ProfilesPage { lines, header, rows, selected }
}

} // verus!
