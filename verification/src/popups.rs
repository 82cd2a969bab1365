//! The dashboard's group and node popups: their title, the window of rows
//! they show and what each row says.
use vstd::prelude::*;
use crate::frame::Rect;
use crate::panels::{max_int, proxy_delay_tone, delay_tone_of, sat_sub, Tone};
use crate::selection::{index_position, position, visible_indices_with_offset, window_start};
use crate::state::TuiApp;
use crate::strs::{dec, from_chars, owned, push_str, push_usize, to_chars, views};
use crate::layout::{delay_text, fit_display_width, fit_text, format_proxy_delay, stable_text, table_cell_text, table_text};
use crate::proxy_select::{dashboard_group, dashboard_group_indices, dashboard_node_indices};
use crate::controller::{meta_views, table_get};
use crate::models::ProxyNodeMeta;
use crate::dashboard::selected_position;

verus! {

/// A row of a popup table: whether it is the selected one, its cells and
/// the tone of its last cell.
#[derive(Debug, Clone, PartialEq, Eq)]
pub struct PopupRow {
    pub selected: bool,
    pub cells: Vec<String>,
    pub tone: Option<Tone>,
}

pub type RowModel = (bool, Seq<Seq<char>>, Option<Tone>);

pub open spec fn row_model(r: PopupRow) -> RowModel {
    (r.selected, views(r.cells@), r.tone)
}

pub open spec fn rows_model(rs: Seq<PopupRow>) -> Seq<RowModel> {
    rs.map_values(|r: PopupRow| row_model(r))
}

/// What a popup shows: the title line, the rows of its window, the
/// window's selected row and first position, and the footer.
#[derive(Debug, Clone, PartialEq, Eq)]
pub struct PopupTable {
    pub title: String,
    pub rows: Vec<PopupRow>,
    pub selected: Option<usize>,
    pub offset: usize,
    pub footer: String,
}

/// The rows of a popup: the box's height less the title, header and
/// footer lines, at least one.
pub open spec fn row_count_of(inner: Rect) -> int {
    max_int(sat_sub(inner.height as int, 3), 1)
}

/// The positions a window of `rows` rows shows.
pub open spec fn window_of(indices: Seq<usize>, selected: usize, rows: nat) -> Seq<usize> {
    if indices.len() <= rows {
        indices
    } else {
        let start = window_start(indices, selected, rows);
        indices.subrange(start, start + rows)
    }
}

/// The group rows of the window: marker, name, current node and node count.
pub open spec fn group_rows_of(s: TuiApp, visible: Seq<usize>) -> Seq<RowModel>
    decreases visible.len(),
{
    if visible.len() == 0 {
        Seq::empty()
    } else {
        let prev = group_rows_of(s, visible.drop_last());
        let i = visible.last();
        if i < s.proxy_groups@.len() {
            let g = s.proxy_groups@[i as int];
            prev.push(
                (
                    i == s.dashboard_proxy_group_index,
                    seq![stable_text(g.name@), stable_text(g.now@), dec(g.nodes@.len())],
                    None,
                ),
            )
        } else {
            prev
        }
    }
}

/// The recorded delay of a node.
pub open spec fn node_delay(s: TuiApp, node: Seq<char>) -> Option<i64> {
    match table_get(meta_views(s.proxy_node_meta@), node) {
        Some(m) => m.1,
        None => None,
    }
}

/// The node rows of the window: marker, node and delay, toned by delay.
pub open spec fn node_rows_of(s: TuiApp, nodes: Seq<String>, visible: Seq<usize>) -> Seq<RowModel>
    decreases visible.len(),
{
    if visible.len() == 0 {
        Seq::empty()
    } else {
        let prev = node_rows_of(s, nodes, visible.drop_last());
        let i = visible.last();
        if i < nodes.len() {
            let d = node_delay(s, nodes[i as int]@);
            prev.push(
                (
                    i == s.dashboard_proxy_node_index,
                    seq![stable_text(nodes[i as int]@), stable_text(delay_text(d))],
                    Some(delay_tone_of(d)),
                ),
            )
        } else {
            prev
        }
    }
}

pub open spec fn pos_number(indices: Seq<usize>, selected: usize) -> nat {
    match position(indices, selected) {
        Some(p) => (p + 1) as nat,
        None => 0,
    }
}

fn delay_of(t: &Vec<(String, ProxyNodeMeta)>, node: &str) -> (r: Option<i64>)
    ensures
        r == (match table_get(meta_views(t@), node@) {
            Some(m) => m.1,
            None => None,
        }),
{
    let mut i: usize = 0;
    proof {
        assert(meta_views(t@).skip(0) =~= meta_views(t@));
    }
    while i < t.len()
        invariant
            i <= t.len(),
            table_get(meta_views(t@), node@) == table_get(meta_views(t@).skip(i as int), node@),
        decreases t.len() - i,
    {
        proof {
            assert(meta_views(t@).skip(i as int).skip(1) =~= meta_views(t@).skip(i + 1));
        }
        if crate::strs::str_eq(t[i].0.as_str(), node) {
            return t[i].1.delay_ms;
        }
        i += 1;
    }
    None
}

fn row_count(inner: Rect) -> (r: usize)
    ensures
        r == row_count_of(inner),
{
    let h = inner.height.saturating_sub(3);
    if h >= 1 { h as usize } else { 1 }
}

/// The dashboard's group popup in a box whose inside is `inner`.
pub fn group_popup(app: &TuiApp, inner: Rect) -> (r: PopupTable)
    ensures
        ({
            let indices = dashboard_group_indices(*app);
            let rc = row_count_of(inner) as nat;
            let visible = window_of(indices, app.dashboard_proxy_group_index, rc);
            let total = if indices.len() >= app.proxy_groups@.len() { indices.len() } else { app.proxy_groups@.len() };
            &&& r.title@ == fit_text(
                "选择代理组  "@ + dec(pos_number(indices, app.dashboard_proxy_group_index)) + "/"@ + dec(total),
                max_int(inner.width as int, 1) as nat,
            )
            &&& rows_model(r.rows@) == group_rows_of(*app, visible)
            &&& r.offset == window_start(indices, app.dashboard_proxy_group_index, rc)
            &&& r.selected == (match position(visible, app.dashboard_proxy_group_index) {
                Some(p) => Some(p as usize),
                None => None,
            })
            &&& r.footer@ == "Enter 定位节点；Esc 收起。"@
        }),
{
    let indices = app.filtered_dashboard_proxy_group_indices();
    let rc = row_count(inner);
    let (visible, offset) = visible_indices_with_offset(indices.as_slice(), app.dashboard_proxy_group_index, rc);
    proof {
        assert(visible@ == window_of(indices@, app.dashboard_proxy_group_index, rc as nat));
    }
    let width: usize = if inner.width >= 1 { inner.width as usize } else { 1 };
    let total = if indices.len() >= app.proxy_groups.len() { indices.len() } else { app.proxy_groups.len() };
    let mut t = to_chars("选择代理组  ");
    push_usize(&mut t, selected_position(indices.as_slice(), app.dashboard_proxy_group_index));
    push_str(&mut t, "/");
    push_usize(&mut t, total);
    let title_text = from_chars(&t);
    let title = fit_display_width(title_text.as_str(), width);
    let mut rows: Vec<PopupRow> = Vec::new();
    let mut i: usize = 0;
    while i < visible.len()
        invariant
            i <= visible.len(),
            rows_model(rows@) == group_rows_of(*app, visible@.take(i as int)),
        decreases visible.len() - i,
    {
        proof {
            assert(visible@.take(i + 1).drop_last() =~= visible@.take(i as int));
            assert(visible@.take(i + 1).last() == visible@[i as int]);
        }
        let k = visible[i];
        if k < app.proxy_groups.len() {
            let g = &app.proxy_groups[k];
            let cells = vec![table_cell_text(g.name.as_str()), table_cell_text(g.now.as_str()), crate::strs::dec_string(g.nodes.len() as u64)];
            let row = PopupRow { selected: k == app.dashboard_proxy_group_index, cells, tone: None };
            let ghost before = rows_model(rows@);
            rows.push(row);
            proof {
                assert(views(row.cells@) =~= seq![stable_text(g.name@), stable_text(g.now@), dec(g.nodes@.len())]);
                assert(rows_model(rows@) =~= before.push(row_model(row)));
            }
        }
        i += 1;
    }
    proof {
        assert(visible@.take(visible.len() as int) =~= visible@);
    }
    let selected = index_position(visible.as_slice(), app.dashboard_proxy_group_index);
    PopupTable { title, rows, selected, offset, footer: owned("Enter 定位节点；Esc 收起。") }
}

/// The dashboard's node popup in a box whose inside is `inner`, `None`
/// when no group is selected (the popup then says so).
pub fn node_popup(app: &TuiApp, inner: Rect) -> (r: Option<PopupTable>)
    ensures
        match dashboard_group(*app) {
            None => r is None,
            Some(g) => r matches Some(p) && {
                let indices = dashboard_node_indices(*app);
                let rc = row_count_of(inner) as nat;
                let visible = window_of(indices, app.dashboard_proxy_node_index, rc);
                &&& p.title@ == fit_text(
                    fit_text(stable_text(g.name@), 18) + " / 选择节点  "@ + dec(pos_number(indices, app.dashboard_proxy_node_index))
                        + "/"@ + dec(g.nodes@.len()),
                    max_int(inner.width as int, 1) as nat,
                )
                &&& rows_model(p.rows@) == node_rows_of(*app, g.nodes@, visible)
                &&& p.offset == window_start(indices, app.dashboard_proxy_node_index, rc)
                &&& p.selected == (match position(visible, app.dashboard_proxy_node_index) {
                    Some(x) => Some(x as usize),
                    None => None,
                })
                &&& p.footer@ == "Enter "@ + (if g.offline { "预选节点"@ } else { "应用节点"@ }) + "；Esc 收起。"@
            },
        },
{
    let g = match app.dashboard_proxy_group() {
        Some(g) => g,
        None => {
            return None;
        },
    };
    let indices = app.filtered_dashboard_proxy_node_indices();
    let rc = row_count(inner);
    let (visible, offset) = visible_indices_with_offset(indices.as_slice(), app.dashboard_proxy_node_index, rc);
    proof {
        assert(visible@ == window_of(indices@, app.dashboard_proxy_node_index, rc as nat));
    }
    let width: usize = if inner.width >= 1 { inner.width as usize } else { 1 };
    let name = table_text(g.name.as_str(), 18);
    let mut t = to_chars(name.as_str());
    push_str(&mut t, " / 选择节点  ");
    push_usize(&mut t, selected_position(indices.as_slice(), app.dashboard_proxy_node_index));
    push_str(&mut t, "/");
    push_usize(&mut t, g.nodes.len());
    let title_text = from_chars(&t);
    let title = fit_display_width(title_text.as_str(), width);
    let mut rows: Vec<PopupRow> = Vec::new();
    let mut i: usize = 0;
    while i < visible.len()
        invariant
            i <= visible.len(),
            dashboard_group(*app) == Some(*g),
            rows_model(rows@) == node_rows_of(*app, g.nodes@, visible@.take(i as int)),
        decreases visible.len() - i,
    {
        proof {
            assert(visible@.take(i + 1).drop_last() =~= visible@.take(i as int));
            assert(visible@.take(i + 1).last() == visible@[i as int]);
        }
        let k = visible[i];
        if k < g.nodes.len() {
            let node = &g.nodes[k];
            let d = delay_of(&app.proxy_node_meta, node.as_str());
            let shown = format_proxy_delay(d);
            let cells = vec![table_cell_text(node.as_str()), table_cell_text(shown.as_str())];
            let row = PopupRow { selected: k == app.dashboard_proxy_node_index, cells, tone: Some(proxy_delay_tone(d)) };
            let ghost before = rows_model(rows@);
            rows.push(row);
            proof {
                assert(views(row.cells@) =~= seq![stable_text(node@), stable_text(delay_text(d))]);
                assert(rows_model(rows@) =~= before.push(row_model(row)));
            }
        }
        i += 1;
    }
    proof {
        assert(visible@.take(visible.len() as int) =~= visible@);
    }
    let selected = index_position(visible.as_slice(), app.dashboard_proxy_node_index);
    let mut f = to_chars("Enter ");
    if g.offline {
        push_str(&mut f, "预选节点");
    } else {
        push_str(&mut f, "应用节点");
    }
    push_str(&mut f, "；Esc 收起。");
    Some(PopupTable { title, rows, selected, offset, footer: from_chars(&f) })
}

} // verus!
