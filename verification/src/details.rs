//! The detail popups of a connection and of a job, and the report of a
//! subscription sweep.
use vstd::prelude::*;
use vstd::string::*;
use crate::labels::{job_status_label, job_status_text};
use crate::models::JobRecord;
use crate::strs::{
    blank, copy_string, dec, from_chars, join, join_strings, owned, push_dec, push_str, push_usize,
    str_blank, to_chars, views,
};
use crate::text::{profile_update_message_label, sanitize_url_error, sanitized, update_message_label};

verus! {

/// Splits text at `\n` into pieces (one more piece than line feeds).
pub open spec fn split_nl(s: Seq<char>) -> Seq<Seq<char>>
    decreases s.len(),
{
    if s.len() == 0 {
        seq![Seq::empty()]
    } else {
        let p = split_nl(s.drop_last());
        if s.last() == '\n' {
            p.push(Seq::empty())
        } else {
            p.update(p.len() - 1, p.last().push(s.last()))
        }
    }
}

/// A piece that ended with a line feed, without a carriage return before it.
pub open spec fn strip_cr(line: Seq<char>) -> Seq<char> {
    if line.len() > 0 && line.last() == '\r' {
        line.drop_last()
    } else {
        line
    }
}

/// The lines of a text (`str::lines`): split at `\n`, a `\r` before a `\n`
/// removed, and no empty line after a final line feed.
pub open spec fn text_lines(s: Seq<char>) -> Seq<Seq<char>> {
    let p = split_nl(s);
    let terminated = p.drop_last().map_values(|l: Seq<char>| strip_cr(l));
    if p.last().len() == 0 {
        terminated
    } else {
        terminated.push(p.last())
    }
}

proof fn lemma_split_nl_nonempty(s: Seq<char>)
    ensures
        split_nl(s).len() >= 1,
    decreases s.len(),
{
    if s.len() > 0 {
        lemma_split_nl_nonempty(s.drop_last());
    }
}

/// The lines of a text.
pub fn split_lines(text: &str) -> (r: Vec<String>)
    ensures
        views(r@) == text_lines(text@),
{
    let c = to_chars(text);
    let mut done: Vec<String> = Vec::new();
    let mut cur: Vec<char> = Vec::new();
    let mut i: usize = 0;
    while i < c.len()
        invariant
            i <= c.len(),
            c@ == text@,
            split_nl(c@.take(i as int)).drop_last() == views(done@),
            split_nl(c@.take(i as int)).last() == cur@,
        decreases c.len() - i,
    {
        proof {
            lemma_split_nl_nonempty(c@.take(i as int));
            assert(c@.take(i + 1).drop_last() =~= c@.take(i as int));
            assert(c@.take(i + 1).last() == c@[i as int]);
        }
        let ghost p = split_nl(c@.take(i as int));
        if c[i] == '\n' {
            let line = from_chars(&cur);
            let ghost before = done@;
            done.push(line);
            cur = Vec::new();
            proof {
                assert(views(done@) =~= views(before).push(line@));
                assert(p.push(Seq::empty()).drop_last() =~= p);
                assert(p =~= p.drop_last().push(p.last()));
            }
        } else {
            cur.push(c[i]);
            proof {
                assert(p.update(p.len() - 1, p.last().push(c@[i as int])).drop_last() =~= p.drop_last());
            }
        }
        i += 1;
    }
    proof {
        assert(c@.take(c.len() as int) =~= c@);
        lemma_split_nl_nonempty(c@);
    }
    let mut r: Vec<String> = Vec::new();
    let mut k: usize = 0;
    while k < done.len()
        invariant
            k <= done.len(),
            views(r@) == views(done@).take(k as int).map_values(|l: Seq<char>| strip_cr(l)),
        decreases done.len() - k,
    {
        let d = to_chars(done[k].as_str());
        let line = if d.len() > 0 && d[d.len() - 1] == '\r' {
            from_chars(&crate::strs::chars_sub(&d, 0, d.len() - 1))
        } else {
            from_chars(&d)
        };
        proof {
            assert(d@.drop_last() =~= d@.subrange(0, d@.len() - 1));
        }
        let ghost before = r@;
        r.push(line);
        proof {
            assert(views(r@) =~= views(before).push(line@));
            assert(views(done@).take(k + 1).map_values(|l: Seq<char>| strip_cr(l)) =~= views(done@).take(
                k as int,
            ).map_values(|l: Seq<char>| strip_cr(l)).push(strip_cr(done@[k as int]@)));
        }
        k += 1;
    }
    proof {
        assert(views(done@).take(done.len() as int) =~= views(done@));
    }
    if cur.len() > 0 {
        let line = from_chars(&cur);
        let ghost before = r@;
        r.push(line);
        proof {
            assert(views(r@) =~= views(before).push(line@));
        }
    }
    r
}

/// The detail lines of a structured value: its first `limit` lines, each
/// indented with URLs hidden, then `  ...` when there are more.
pub open spec fn indented_lines(text: Seq<char>, limit: nat) -> Seq<Seq<char>> {
    let lines = text_lines(text);
    let shown = if lines.len() <= limit {
        lines
    } else {
        lines.take(limit as int)
    };
    let body = shown.map_values(|l: Seq<char>| "  "@ + sanitized(l));
    if lines.len() > limit {
        body.push("  ..."@)
    } else {
        body
    }
}

fn push_indented(out: &mut Vec<String>, text: &str, limit: usize)
    ensures
        views(final(out)@) == views(old(out)@) + indented_lines(text@, limit as nat),
{
    let lines = split_lines(text);
    let ghost start = views(out@);
    let ghost model = views(lines@);
    let mut k: usize = 0;
    while k < lines.len() && k < limit
        invariant
            k <= lines.len(),
            k <= limit,
            model == views(lines@),
            start == views(old(out)@),
            views(out@) == start + model.take(k as int).map_values(|l: Seq<char>| "  "@ + sanitized(l)),
        decreases lines.len() - k,
    {
        let clean = sanitize_url_error(lines[k].as_str());
        let mut v = to_chars("  ");
        push_str(&mut v, clean.as_str());
        let line = from_chars(&v);
        let ghost before = out@;
        out.push(line);
        proof {
            assert(views(out@) =~= views(before).push(line@));
            assert(model.take(k + 1).map_values(|l: Seq<char>| "  "@ + sanitized(l)) =~= model.take(
                k as int,
            ).map_values(|l: Seq<char>| "  "@ + sanitized(l)).push("  "@ + sanitized(model[k as int])));
        }
        k += 1;
    }
    if lines.len() > limit {
        let line = owned("  ...");
        let ghost before = out@;
        out.push(line);
        proof {
            assert(views(out@) =~= views(before).push(line@));
        }
    } else {
        proof {
            assert(model.take(k as int) =~= model);
        }
    }
}

/// The metadata of a connection.
#[derive(Debug, Clone, PartialEq, Eq)]
pub struct ConnectionMetadata {
    pub network: Option<String>,
    pub conn_type: Option<String>,
    pub source_ip: Option<String>,
    pub source_port: Option<String>,
    pub destination_ip: Option<String>,
    pub destination_port: Option<String>,
    pub host: Option<String>,
    pub process: Option<String>,
}

/// An open connection of the core. `extra` holds the pretty-printed JSON
/// of the fields the client does not know, when there are any.
#[derive(Debug, Clone, PartialEq, Eq)]
pub struct ConnectionRecord {
    pub id: String,
    pub upload: u64,
    pub download: u64,
    pub start: Option<String>,
    pub chains: Vec<String>,
    pub rule: Option<String>,
    pub rule_payload: Option<String>,
    pub metadata: Option<ConnectionMetadata>,
    pub extra: Option<String>,
}

pub open spec fn dash_or(v: Option<String>) -> Seq<char> {
    match v {
        Some(s) => s@,
        None => "-"@,
    }
}

/// The detail lines of a connection: the fixed lines, then up to four
/// lines of its unknown fields.
pub open spec fn connection_lines(c: ConnectionRecord) -> Seq<Seq<char>> {
    match c.extra {
        Some(e) => connection_lines_base(c).push("额外字段："@) + indented_lines(e@, 4),
        None => connection_lines_base(c),
    }
}

fn labeled(label: &str, value: &Option<String>) -> (r: String)
    ensures
        r@ == label@ + dash_or(*value),
{
    let mut v = to_chars(label);
    match value {
        Some(s) => push_str(&mut v, s.as_str()),
        None => push_str(&mut v, "-"),
    }
    from_chars(&v)
}

fn field_text(m: &Option<ConnectionMetadata>, which: u8) -> (r: String)
    requires
        which < 8,
    ensures
        r@ == dash_or_meta(*m, which),
{
    match m {
        Some(x) => {
            let f = if which == 0 {
                &x.network
            } else if which == 1 {
                &x.conn_type
            } else if which == 2 {
                &x.source_ip
            } else if which == 3 {
                &x.source_port
            } else if which == 4 {
                &x.destination_ip
            } else if which == 5 {
                &x.destination_port
            } else if which == 6 {
                &x.host
            } else {
                &x.process
            };
            match f {
                Some(t) => copy_string(t),
                None => owned("-"),
            }
        },
        None => owned("-"),
    }
}

fn labeled_text(label: &str, value: &str) -> (r: String)
    ensures
        r@ == label@ + value@,
{
    let mut v = to_chars(label);
    push_str(&mut v, value);
    from_chars(&v)
}

/// The detail lines of a connection: its id, traffic, start, metadata,
/// rule and chain (URLs hidden), and up to four lines of unknown fields.
pub fn connection_detail_lines(connection: &ConnectionRecord) -> (r: Vec<String>)
    ensures
        views(r@) == connection_lines(*connection),
{
    let m = &connection.metadata;
    let chains = if connection.chains.len() == 0 {
        owned("-")
    } else {
        join_strings(&connection.chains, " > ")
    };
    let mut lines: Vec<String> = Vec::new();
    lines.push(labeled_text("连接ID：", connection.id.as_str()));
    let mut v = to_chars("上传：");
    push_dec(&mut v, connection.upload);
    push_str(&mut v, " bytes");
    lines.push(from_chars(&v));
    let mut v = to_chars("下载：");
    push_dec(&mut v, connection.download);
    push_str(&mut v, " bytes");
    lines.push(from_chars(&v));
    lines.push(labeled("开始时间：", &connection.start));
    lines.push(labeled_text("网络：", field_text(m, 0).as_str()));
    lines.push(labeled_text("类型：", field_text(m, 1).as_str()));
    let mut v = to_chars("源地址：");
    push_str(&mut v, field_text(m, 2).as_str());
    push_str(&mut v, ":");
    push_str(&mut v, field_text(m, 3).as_str());
    lines.push(from_chars(&v));
    let mut v = to_chars("目标地址：");
    push_str(&mut v, field_text(m, 4).as_str());
    push_str(&mut v, ":");
    push_str(&mut v, field_text(m, 5).as_str());
    lines.push(from_chars(&v));
    lines.push(labeled_text("Host：", field_text(m, 6).as_str()));
    lines.push(labeled_text("进程：", field_text(m, 7).as_str()));
    lines.push(labeled("规则：", &connection.rule));
    lines.push(labeled("规则内容：", &connection.rule_payload));
    let clean = sanitize_url_error(chains.as_str());
    lines.push(labeled_text("代理链：", clean.as_str()));
    proof {
        assert(views(lines@) =~= connection_lines_base(*connection));
    }
    if let Some(extra) = &connection.extra {
        let header = owned("额外字段：");
        let ghost before = lines@;
        lines.push(header);
        proof {
            assert(views(lines@) =~= views(before).push(header@));
        }
        push_indented(&mut lines, extra.as_str(), 4);
    }
    lines
}

pub open spec fn dash_or_meta(m: Option<ConnectionMetadata>, which: u8) -> Seq<char> {
    match m {
        Some(x) => dash_or(
            if which == 0 {
                x.network
            } else if which == 1 {
                x.conn_type
            } else if which == 2 {
                x.source_ip
            } else if which == 3 {
                x.source_port
            } else if which == 4 {
                x.destination_ip
            } else if which == 5 {
                x.destination_port
            } else if which == 6 {
                x.host
            } else {
                x.process
            },
        ),
        None => "-"@,
    }
}

pub open spec fn connection_lines_base(c: ConnectionRecord) -> Seq<Seq<char>> {
    let m = c.metadata;
    let chains = if c.chains@.len() == 0 {
        "-"@
    } else {
        join(views(c.chains@), " > "@)
    };
    seq![
        "连接ID："@ + c.id@,
        "上传："@ + dec(c.upload as nat) + " bytes"@,
        "下载："@ + dec(c.download as nat) + " bytes"@,
        "开始时间："@ + dash_or(c.start),
        "网络："@ + dash_or_meta(m, 0),
        "类型："@ + dash_or_meta(m, 1),
        "源地址："@ + dash_or_meta(m, 2) + ":"@ + dash_or_meta(m, 3),
        "目标地址："@ + dash_or_meta(m, 4) + ":"@ + dash_or_meta(m, 5),
        "Host："@ + dash_or_meta(m, 6),
        "进程："@ + dash_or_meta(m, 7),
        "规则："@ + dash_or(c.rule),
        "规则内容："@ + dash_or(c.rule_payload),
        "代理链："@ + sanitized(chains),
    ]
}

/// The detail lines of a job: id, name, status, kind, target, message (when
/// not blank), error, timestamps, and up to six lines of its result.
pub open spec fn job_lines(job: JobRecord) -> Seq<Seq<char>> {
    let base = seq![
        "任务ID："@ + job.id@,
        "名称："@ + sanitized(job.name@),
        "状态："@ + job_status_text(job.status),
        "类型："@ + job.kind@,
        "目标："@ + match job.target {
            Some(t) => sanitized(t@),
            None => "-"@,
        },
    ];
    let with_message = match job.message {
        Some(m) if !blank(m@) => base.push("消息："@ + update_message_label(m@)),
        _ => base,
    };
    let with_error = match job.error {
        Some(e) => with_message.push("错误："@ + sanitized(e@)),
        None => with_message,
    };
    let with_times = with_error.push("创建时间戳："@ + dec(job.created_at as nat)).push(
        "更新时间戳："@ + dec(job.updated_at as nat),
    );
    let with_finish = match job.finished_at {
        Some(f) => with_times.push("结束时间戳："@ + dec(f as nat)),
        None => with_times,
    };
    match job.result {
        Some(r) => with_finish.push("结果："@) + indented_lines(r.pretty@, 6),
        None => with_finish,
    }
}

fn push_line(lines: &mut Vec<String>, line: String)
    ensures
        views(final(lines)@) == views(old(lines)@).push(line@),
{
    let ghost before = lines@;
    lines.push(line);
    proof {
        assert(views(lines@) =~= views(before).push(line@));
    }
}

fn dec_line(label: &str, n: u64) -> (r: String)
    ensures
        r@ == label@ + dec(n as nat),
{
    let mut v = to_chars(label);
    push_dec(&mut v, n);
    from_chars(&v)
}

/// The detail lines of a job.
pub fn job_detail_lines(job: &JobRecord) -> (r: Vec<String>)
    ensures
        views(r@) == job_lines(*job),
{
    let mut lines: Vec<String> = Vec::new();
    proof {
        assert(views(lines@) =~= Seq::<Seq<char>>::empty());
    }
    push_line(&mut lines, labeled_text("任务ID：", job.id.as_str()));
    push_line(&mut lines, labeled_text("名称：", sanitize_url_error(job.name.as_str()).as_str()));
    push_line(&mut lines, labeled_text("状态：", job_status_label(job.status)));
    push_line(&mut lines, labeled_text("类型：", job.kind.as_str()));
    let target = match &job.target {
        Some(t) => sanitize_url_error(t.as_str()),
        None => owned("-"),
    };
    push_line(&mut lines, labeled_text("目标：", target.as_str()));
    if let Some(m) = &job.message {
        if !str_blank(m.as_str()) {
            push_line(&mut lines, labeled_text("消息：", profile_update_message_label(m.as_str()).as_str()));
        }
    }
    if let Some(e) = &job.error {
        push_line(&mut lines, labeled_text("错误：", sanitize_url_error(e.as_str()).as_str()));
    }
    push_line(&mut lines, dec_line("创建时间戳：", job.created_at));
    push_line(&mut lines, dec_line("更新时间戳：", job.updated_at));
    if let Some(f) = job.finished_at {
        push_line(&mut lines, dec_line("结束时间戳：", f));
    }
    if let Some(result) = &job.result {
        push_line(&mut lines, owned("结果："));
        push_indented(&mut lines, result.pretty.as_str(), 6);
    }
    proof {
        assert(views(lines@) =~= job_lines(*job));
    }
    lines
}

/// The outcome of updating every due subscription.
#[derive(Debug, Clone, PartialEq, Eq)]
pub struct SubscriptionSweep {
    pub checked: usize,
    pub due: usize,
    pub queued: usize,
    pub skipped: usize,
    pub jobs: Vec<JobRecord>,
}

pub open spec fn job_ids(jobs: Seq<JobRecord>) -> Seq<Seq<char>> {
    jobs.map_values(|j: JobRecord| j.id@)
}

/// The report of a sweep: the counts, then either that nothing was due, or
/// the ids of the first three jobs (with how many more) and where to see
/// them.
pub open spec fn sweep_text(s: SubscriptionSweep) -> Seq<char> {
    let head = "订阅批量更新：检查="@ + dec(s.checked as nat) + " 远程="@ + dec(s.due as nat)
        + " 入队="@ + dec(s.queued as nat) + " 已运行="@ + dec(s.skipped as nat);
    let n = s.jobs@.len();
    if n == 0 {
        head + "；没有可更新的远程订阅"@
    } else {
        let shown = if n <= 3 {
            s.jobs@
        } else {
            s.jobs@.take(3)
        };
        let ids = join(job_ids(shown), ", "@);
        if n > 3 {
            head + "；任务="@ + ids + " 等 "@ + dec((n - 3) as nat) + " 个；按 8 查看详情"@
        } else {
            head + "；任务="@ + ids + "；按 8 查看详情"@
        }
    }
}

/// Reports a subscription sweep.
pub fn subscription_sweep_status_message(sweep: &SubscriptionSweep) -> (r: String)
    ensures
        r@ == sweep_text(*sweep),
{
    let mut v = to_chars("订阅批量更新：检查=");
    push_usize(&mut v, sweep.checked);
    push_str(&mut v, " 远程=");
    push_usize(&mut v, sweep.due);
    push_str(&mut v, " 入队=");
    push_usize(&mut v, sweep.queued);
    push_str(&mut v, " 已运行=");
    push_usize(&mut v, sweep.skipped);
    let n = sweep.jobs.len();
    if n == 0 {
        push_str(&mut v, "；没有可更新的远程订阅");
        return from_chars(&v);
    }
    let mut ids: Vec<String> = Vec::new();
    let mut i: usize = 0;
    while i < n && i < 3
        invariant
            i <= n,
            i <= 3,
            n == sweep.jobs@.len(),
            views(ids@) == job_ids(sweep.jobs@.take(i as int)),
        decreases n - i,
    {
        let c = copy_string(&sweep.jobs[i].id);
        let ghost before = ids@;
        ids.push(c);
        proof {
            assert(views(ids@) =~= views(before).push(c@));
            assert(job_ids(sweep.jobs@.take(i + 1)) =~= job_ids(sweep.jobs@.take(i as int)).push(
                sweep.jobs@[i as int].id@,
            ));
        }
        i += 1;
    }
    proof {
        if n <= 3 {
            assert(sweep.jobs@.take(i as int) =~= sweep.jobs@);
        }
    }
    let joined = join_strings(&ids, ", ");
    push_str(&mut v, "；任务=");
    push_str(&mut v, joined.as_str());
    if n > 3 {
        push_str(&mut v, " 等 ");
        push_usize(&mut v, n - 3);
        push_str(&mut v, " 个；按 8 查看详情");
    } else {
        push_str(&mut v, "；按 8 查看详情");
    }
    from_chars(&v)
}

} // verus!
