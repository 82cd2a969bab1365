//! The rule and connection pages as values: their lines, table header and
//! rows, and which shown row is selected.
use vstd::prelude::*;
use crate::details::ConnectionRecord;
use crate::frame::{content_rows, content_rows_of, page_content_width, page_width_of, Rect};
use crate::layout::{fit_display_width, fit_text, stable_text, table_cell_text};
use crate::navigation::{connection_indices, log_indices, opt_view, rule_indices};
use crate::labels::{bool_label, on_off};
use crate::logs::{count_levels, error_levels, log_row_view, string_views, warning_levels, LogRow, LogSummary};
use crate::models::LogLevelFilter;
use crate::selection::{index_position, position, visible_indices, window_start};
use crate::state::TuiApp;
use crate::strs::{dec, from_chars, join, join_strings, owned, push_dec, push_str, push_usize, to_chars, views};
use crate::xtask::str_views;

verus! {

/// A page with a table: the lines above it, its header and rows, which
/// shown row is selected, and the text shown in place of an empty table.
#[derive(Debug)]
pub struct TablePage {
    pub lines: Vec<String>,
    pub header: Vec<&'static str>,
    pub rows: Vec<Vec<String>>,
    pub selected: Option<usize>,
    pub empty: Option<&'static str>,
}

/// The rows of `all` that a table of `max` rows shows around `selected`.
pub open spec fn window_of(all: Seq<usize>, selected: usize, max: nat) -> Seq<usize> {
    if all.len() <= max {
        all
    } else {
        all.subrange(window_start(all, selected, max), window_start(all, selected, max) + max)
    }
}

pub open spec fn text_or_dash(v: Option<Seq<char>>, d: Seq<char>) -> Seq<char> {
    match v {
        Some(t) => t,
        None => d,
    }
}

/// The lines above the rule table.
pub open spec fn rules_head_lines(app: TuiApp, w: nat) -> Seq<Seq<char>> {
    seq![
        fit_text("规则："@ + dec(app.rules@.len()) + " | 显示："@ + dec(rule_indices(app).len()), w),
        fit_text(
            if app.rule_providers@.len() == 0 {
                "操作：↑↓查看 | / 按类型、内容、代理过滤"@
            } else {
                "操作：↑↓查看 | p 规则 Provider | 弹窗内 u/a 更新规则 | / 过滤"@
            },
            w,
        ),
        Seq::empty(),
    ]
}

/// The cells of the row of rule `i`: marker, type (`RULE` when unknown),
/// payload and proxy.
pub open spec fn rule_row_cells(app: TuiApp, i: usize) -> Seq<Seq<char>> {
    let r = app.rules@[i as int];
    seq![
        if i == app.rule_index {
            ">"@
        } else {
            " "@
        },
        stable_text(text_or_dash(opt_view(r.rule_type), "RULE"@)),
        stable_text(text_or_dash(opt_view(r.payload), "-"@)),
        stable_text(text_or_dash(opt_view(r.proxy), "-"@)),
    ]
}

fn text_or<'a>(v: &'a Option<String>, d: &'a str) -> (r: &'a str)
    ensures
        r@ == text_or_dash(opt_view(*v), d@),
{
    match v {
        Some(t) => t.as_str(),
        None => d,
    }
}

/// The rule page of `app` in `area`.
pub fn rules_page(app: &TuiApp, area: Rect) -> (r: TablePage)
    ensures
        ({
            let win = window_of(rule_indices(*app), app.rule_index, content_rows_of(area, 4) as nat);
            &&& views(r.lines@) == rules_head_lines(*app, page_width_of(area) as nat)
            &&& str_views(r.header@) == seq![""@, "类型"@, "内容"@, "代理"@]
            &&& r.rows@.len() == win.len()
            &&& forall|k: int| 0 <= k < win.len() ==> views(#[trigger] r.rows@[k]@) == rule_row_cells(*app, win[k])
            &&& match position(win, app.rule_index) {
                Some(k) => r.selected == Some(k as usize),
                None => r.selected is None,
            }
            &&& if rule_indices(*app).len() == 0 {
                r.empty matches Some(e) && e@ == "没有匹配当前过滤条件的规则"@
            } else {
                r.empty is None
            }
        }),
{
    let indices = app.filtered_rule_indices();
    let width = page_content_width(area);
    let mut v = to_chars("规则：");
    push_usize(&mut v, app.rules.len());
    push_str(&mut v, " | 显示：");
    push_usize(&mut v, indices.len());
    let counts = from_chars(&v);
    let action = if app.rule_providers.len() == 0 {
        "操作：↑↓查看 | / 按类型、内容、代理过滤"
    } else {
        "操作：↑↓查看 | p 规则 Provider | 弹窗内 u/a 更新规则 | / 过滤"
    };
    let lines = vec![fit_display_width(counts.as_str(), width), fit_display_width(action, width), String::new()];
    proof {
        assert(views(lines@) =~= rules_head_lines(*app, width as nat));
    }
    let header: Vec<&'static str> = vec!["", "类型", "内容", "代理"];
    proof {
        assert(str_views(header@) =~= seq![""@, "类型"@, "内容"@, "代理"@]);
    }
    let empty: Option<&'static str> = if indices.len() == 0 {
        Some("没有匹配当前过滤条件的规则")
    } else {
        None
    };
    let win = visible_indices(indices.as_slice(), app.rule_index, content_rows(area, 4));
    proof {
        crate::navigation::lemma_rule_indices_in_range(*app);
    }
    let mut rows: Vec<Vec<String>> = Vec::new();
    let mut k: usize = 0;
    while k < win.len()
        invariant
            k <= win.len(),
            win@ == window_of(rule_indices(*app), app.rule_index, content_rows_of(area, 4) as nat),
            forall|j: int| 0 <= j < win@.len() ==> #[trigger] win@[j] < app.rules@.len(),
            rows@.len() == k,
            forall|j: int| 0 <= j < k ==> views(#[trigger] rows@[j]@) == rule_row_cells(*app, win@[j]),
        decreases win.len() - k,
    {
        let i = win[k];
        let rule = &app.rules[i];
        let marker = if i == app.rule_index {
            owned(">")
        } else {
            owned(" ")
        };
        let cells = vec![
            marker,
            table_cell_text(text_or(&rule.rule_type, "RULE")),
            table_cell_text(text_or(&rule.payload, "-")),
            table_cell_text(text_or(&rule.proxy, "-")),
        ];
        proof {
            assert(views(cells@) =~= rule_row_cells(*app, i));
        }
        rows.push(cells);
        k += 1;
    }
    let selected = index_position(win.as_slice(), app.rule_index);
    TablePage { lines, header, rows, selected, empty }
}

/// The total upload (`up`) or download of the connections.
pub open spec fn traffic_total(c: Seq<ConnectionRecord>, up: bool) -> nat
    decreases c.len(),
{
    if c.len() == 0 {
        0
    } else {
        traffic_total(c.drop_last(), up) + if up {
            c.last().upload as nat
        } else {
            c.last().download as nat
        }
    }
}

/// The lines above the connection table.
pub open spec fn connections_head_lines(app: TuiApp, w: nat) -> Seq<Seq<char>> {
    seq![
        fit_text(
            "连接："@ + dec(app.connections@.len()) + " | 显示："@ + dec(connection_indices(app).len())
                + " | 上传："@ + dec(traffic_total(app.connections@, true)) + " | 下载："@ + dec(
                traffic_total(app.connections@, false),
            ),
            w,
        ),
        fit_text("操作：Enter 详情弹窗 | d/Delete 关闭选中 | c 关闭全部 | / 过滤"@, w),
        Seq::empty(),
    ]
}

/// The cells of the row of connection `i`: marker, id, host, process,
/// rule and the proxy chain.
pub open spec fn connection_row_cells(app: TuiApp, i: usize) -> Seq<Seq<char>> {
    let c = app.connections@[i as int];
    let host = match c.metadata {
        Some(m) => opt_view(m.host),
        None => None,
    };
    let process = match c.metadata {
        Some(m) => opt_view(m.process),
        None => None,
    };
    seq![
        if i == app.connection_index {
            ">"@
        } else {
            " "@
        },
        stable_text(c.id@),
        stable_text(text_or_dash(host, "-"@)),
        stable_text(text_or_dash(process, "-"@)),
        stable_text(text_or_dash(opt_view(c.rule), "-"@)),
        stable_text(
            if c.chains@.len() == 0 {
                "-"@
            } else {
                join(views(c.chains@), " > "@)
            },
        ),
    ]
}

fn traffic_totals(c: &Vec<ConnectionRecord>) -> (r: (u64, u64))
    requires
        traffic_total(c@, true) <= u64::MAX,
        traffic_total(c@, false) <= u64::MAX,
    ensures
        r.0 == traffic_total(c@, true),
        r.1 == traffic_total(c@, false),
{
    let mut up: u64 = 0;
    let mut down: u64 = 0;
    let mut i: usize = 0;
    while i < c.len()
        invariant
            i <= c.len(),
            traffic_total(c@, true) <= u64::MAX,
            traffic_total(c@, false) <= u64::MAX,
            up == traffic_total(c@.take(i as int), true),
            down == traffic_total(c@.take(i as int), false),
        decreases c.len() - i,
    {
        proof {
            assert(c@.take(i + 1).drop_last() =~= c@.take(i as int));
            lemma_traffic_prefix(c@, i + 1, true);
            lemma_traffic_prefix(c@, i + 1, false);
        }
        up = up + c[i].upload;
        down = down + c[i].download;
        i += 1;
    }
    proof {
        assert(c@.take(c.len() as int) =~= c@);
    }
    (up, down)
}

proof fn lemma_traffic_prefix(c: Seq<ConnectionRecord>, n: int, up: bool)
    requires
        0 <= n <= c.len(),
    ensures
        traffic_total(c.take(n), up) <= traffic_total(c, up),
    decreases c.len() - n,
{
    if n < c.len() {
        lemma_traffic_prefix(c, n + 1, up);
        assert(c.take(n + 1).drop_last() =~= c.take(n));
    } else {
        assert(c.take(n) =~= c);
    }
}

/// The connection page of `app` in `area`. The traffic totals must fit in
/// 64 bits.
pub fn connections_page(app: &TuiApp, area: Rect) -> (r: TablePage)
    requires
        traffic_total(app.connections@, true) <= u64::MAX,
        traffic_total(app.connections@, false) <= u64::MAX,
    ensures
        ({
            let win = window_of(connection_indices(*app), app.connection_index, content_rows_of(area, 4) as nat);
            &&& views(r.lines@) == connections_head_lines(*app, page_width_of(area) as nat)
            &&& str_views(r.header@) == seq![""@, "连接ID"@, "主机/IP"@, "进程"@, "规则"@, "代理链"@]
            &&& r.rows@.len() == win.len()
            &&& forall|k: int|
                0 <= k < win.len() ==> views(#[trigger] r.rows@[k]@) == connection_row_cells(*app, win[k])
            &&& match position(win, app.connection_index) {
                Some(k) => r.selected == Some(k as usize),
                None => r.selected is None,
            }
            &&& if connection_indices(*app).len() == 0 {
                r.empty matches Some(e) && e@ == "没有匹配当前过滤条件的活动连接"@
            } else {
                r.empty is None
            }
        }),
{
    let indices = app.filtered_connection_indices();
    let width = page_content_width(area);
    let (up, down) = traffic_totals(&app.connections);
    let mut v = to_chars("连接：");
    push_usize(&mut v, app.connections.len());
    push_str(&mut v, " | 显示：");
    push_usize(&mut v, indices.len());
    push_str(&mut v, " | 上传：");
    push_dec(&mut v, up);
    push_str(&mut v, " | 下载：");
    push_dec(&mut v, down);
    let counts = from_chars(&v);
    let lines = vec![
        fit_display_width(counts.as_str(), width),
        fit_display_width("操作：Enter 详情弹窗 | d/Delete 关闭选中 | c 关闭全部 | / 过滤", width),
        String::new(),
    ];
    proof {
        assert(views(lines@) =~= connections_head_lines(*app, width as nat));
    }
    let header: Vec<&'static str> = vec!["", "连接ID", "主机/IP", "进程", "规则", "代理链"];
    proof {
        assert(str_views(header@) =~= seq![""@, "连接ID"@, "主机/IP"@, "进程"@, "规则"@, "代理链"@]);
    }
    let empty: Option<&'static str> = if indices.len() == 0 {
        Some("没有匹配当前过滤条件的活动连接")
    } else {
        None
    };
    let win = visible_indices(indices.as_slice(), app.connection_index, content_rows(area, 4));
    proof {
        crate::navigation::lemma_connection_indices_in_range(*app);
    }
    let mut rows: Vec<Vec<String>> = Vec::new();
    let mut k: usize = 0;
    while k < win.len()
        invariant
            k <= win.len(),
            win@ == window_of(connection_indices(*app), app.connection_index, content_rows_of(area, 4) as nat),
            forall|j: int| 0 <= j < win@.len() ==> #[trigger] win@[j] < app.connections@.len(),
            rows@.len() == k,
            forall|j: int| 0 <= j < k ==> views(#[trigger] rows@[j]@) == connection_row_cells(*app, win@[j]),
        decreases win.len() - k,
    {
        let i = win[k];
        let c = &app.connections[i];
        let marker = if i == app.connection_index {
            owned(">")
        } else {
            owned(" ")
        };
        let (host, process): (&str, &str) = match &c.metadata {
            Some(m) => (text_or(&m.host, "-"), text_or(&m.process, "-")),
            None => ("-", "-"),
        };
        let chains = if c.chains.len() == 0 {
            owned("-")
        } else {
            join_strings(&c.chains, " > ")
        };
        let cells = vec![
            marker,
            table_cell_text(c.id.as_str()),
            table_cell_text(host),
            table_cell_text(process),
            table_cell_text(text_or(&c.rule, "-")),
            table_cell_text(chains.as_str()),
        ];
        proof {
            assert(views(cells@) =~= connection_row_cells(*app, i));
        }
        rows.push(cells);
        k += 1;
    }
    let selected = index_position(win.as_slice(), app.connection_index);
    TablePage { lines, header, rows, selected, empty }
}

/// The title of a log level filter.
pub open spec fn filter_title_text(f: LogLevelFilter) -> Seq<char> {
    match f {
        LogLevelFilter::All => "全部"@,
        LogLevelFilter::Error => "错误"@,
        LogLevelFilter::Warn => "警告"@,
        LogLevelFilter::Info => "信息"@,
        LogLevelFilter::Debug => "调试"@,
    }
}

/// Whether the core writes its log: as the settings say, and on while no
/// settings are loaded.
pub open spec fn core_log_on(app: TuiApp) -> bool {
    match app.settings {
        Some(st) => st.core_log_enabled,
        None => true,
    }
}

/// The lines above the log table.
pub open spec fn logs_head_lines(app: TuiApp) -> Seq<Seq<char>> {
    let logs = string_views(app.logs@);
    seq![
        "日志："@ + dec(app.logs@.len()) + " | 显示："@ + dec(log_indices(app).len()) + " | 错误："@ + dec(
            count_levels(logs, error_levels()),
        ) + " | 警告："@ + dec(count_levels(logs, warning_levels())) + " | 核心日志："@ + on_off(core_log_on(app))
            + " | 等级："@ + filter_title_text(app.log_level_filter) + " | 跟随："@ + on_off(app.log_follow),
        "操作：↑↓滚动 | PgUp/PgDn 翻页 | Enter 详情 | f 跟随 | L 等级 | / 过滤 | x 清屏"@,
        Seq::empty(),
    ]
}

/// The cells of the row of log line `i`: marker, level, time and message.
pub open spec fn log_row_cells(app: TuiApp, i: usize) -> Seq<Seq<char>> {
    let v = log_row_view(app.logs@[i as int]@);
    seq![
        if i == app.log_index {
            ">"@
        } else {
            " "@
        },
        stable_text(v.0),
        stable_text(v.1),
        stable_text(v.2),
    ]
}

/// The log page of `app` in `area`. The log table marks the cursor row
/// but highlights none, so `selected` is `None`.
pub fn logs_page(app: &TuiApp, area: Rect) -> (r: TablePage)
    ensures
        ({
            let win = window_of(log_indices(*app), app.log_index, content_rows_of(area, 3) as nat);
            &&& views(r.lines@) == logs_head_lines(*app)
            &&& str_views(r.header@) == seq![""@, "等级"@, "时间"@, "摘要"@]
            &&& r.rows@.len() == win.len()
            &&& forall|k: int| 0 <= k < win.len() ==> views(#[trigger] r.rows@[k]@) == log_row_cells(*app, win[k])
            &&& r.selected is None
            &&& if log_indices(*app).len() == 0 {
                r.empty matches Some(e) && e@ == (if core_log_on(*app) {
                    "没有匹配当前过滤条件的核心日志"@
                } else {
                    "核心日志已关闭；旧日志可清空，重新开启并重启 Core 后继续记录"@
                })
            } else {
                r.empty is None
            }
        }),
{
    let indices = app.filtered_log_indices();
    let summary = LogSummary::from_logs(app.logs.as_slice());
    let core_log = match &app.settings {
        Some(st) => st.core_log_enabled,
        None => true,
    };
    let mut v = to_chars("日志：");
    push_usize(&mut v, app.logs.len());
    push_str(&mut v, " | 显示：");
    push_usize(&mut v, indices.len());
    push_str(&mut v, " | 错误：");
    push_usize(&mut v, summary.errors);
    push_str(&mut v, " | 警告：");
    push_usize(&mut v, summary.warnings);
    push_str(&mut v, " | 核心日志：");
    push_str(&mut v, bool_label(core_log));
    push_str(&mut v, " | 等级：");
    push_str(&mut v, app.log_level_filter.title());
    push_str(&mut v, " | 跟随：");
    push_str(&mut v, bool_label(app.log_follow));
    let lines = vec![
        from_chars(&v),
        owned("操作：↑↓滚动 | PgUp/PgDn 翻页 | Enter 详情 | f 跟随 | L 等级 | / 过滤 | x 清屏"),
        String::new(),
    ];
    proof {
        assert(views(lines@) =~= logs_head_lines(*app));
    }
    let header: Vec<&'static str> = vec!["", "等级", "时间", "摘要"];
    proof {
        assert(str_views(header@) =~= seq![""@, "等级"@, "时间"@, "摘要"@]);
    }
    let empty: Option<&'static str> = if indices.len() > 0 {
        None
    } else if core_log {
        Some("没有匹配当前过滤条件的核心日志")
    } else {
        Some("核心日志已关闭；旧日志可清空，重新开启并重启 Core 后继续记录")
    };
    let win = visible_indices(indices.as_slice(), app.log_index, content_rows(area, 3));
    proof {
        crate::navigation::lemma_log_indices_in_range(*app);
    }
    let mut rows: Vec<Vec<String>> = Vec::new();
    let mut k: usize = 0;
    while k < win.len()
        invariant
            k <= win.len(),
            win@ == window_of(log_indices(*app), app.log_index, content_rows_of(area, 3) as nat),
            forall|j: int| 0 <= j < win@.len() ==> #[trigger] win@[j] < app.logs@.len(),
            rows@.len() == k,
            forall|j: int| 0 <= j < k ==> views(#[trigger] rows@[j]@) == log_row_cells(*app, win@[j]),
        decreases win.len() - k,
    {
        let i = win[k];
        let row = LogRow::from_log(app.logs[i].as_str());
        let marker = if i == app.log_index {
            owned(">")
        } else {
            owned(" ")
        };
        let cells = vec![
            marker,
            table_cell_text(row.level),
            table_cell_text(row.time.as_str()),
            table_cell_text(row.message.as_str()),
        ];
        proof {
            assert(views(cells@) =~= log_row_cells(*app, i));
        }
        rows.push(cells);
        k += 1;
    }
    TablePage { lines, header, rows, selected: None, empty }
}

} // verus!
