//! The transient box drawn over a page: work in progress, a question, an
//! input, a detail pane, the provider dialog or an error, in that order.
use vstd::prelude::*;
use crate::frame::{
    error_status, input_display_text, input_display_value, input_target_title, input_title_text, modal_rect,
    modal_rect_spec, status_is_error, status_line_text, terminal_status_line, Rect,
};
use crate::panels::{max_int, min_int, sat_sub};
use crate::state::TuiApp;
use crate::strs::{dec, owned, push_dec, push_str, to_chars, from_chars, views};

use crate::navigation::view_title;
use crate::models::{MIN_TUI_HEIGHT, MIN_TUI_WIDTH};
use crate::xtask::str_views;

verus! {

/// Which box is drawn over the page.
#[derive(Debug, Clone, Copy, PartialEq, Eq, Structural)]
pub enum ModalKind {
    Busy,
    Confirm,
    Input,
    Detail,
    /// The provider dialog, which draws itself over the whole area.
    ProviderDialog,
    Error,
}

/// The box drawn over the page: none while help is open; else the first
/// of work in progress, a question, an input, a detail pane, the provider
/// dialog and an error status.
pub open spec fn modal_kind_of(app: TuiApp) -> Option<ModalKind> {
    if app.show_help {
        None
    } else if app.busy is Some {
        Some(ModalKind::Busy)
    } else if app.confirm is Some {
        Some(ModalKind::Confirm)
    } else if app.input is Some {
        Some(ModalKind::Input)
    } else if app.detail is Some {
        Some(ModalKind::Detail)
    } else if app.provider_dialog is Some {
        Some(ModalKind::ProviderDialog)
    } else if error_status(app.status@) {
        Some(ModalKind::Error)
    } else {
        None
    }
}

/// A text fitted to one line of a box: four cells narrower than the box.
pub open spec fn modal_text(value: Seq<char>, r: Rect) -> Seq<char> {
    status_line_text(value, max_int(sat_sub(r.width as int, 4), 1) as nat)
}

/// The lines of a detail pane in a box: as many as fit in the box less
/// four rows (at least one), an ellipsis when some are left out, then the
/// closing hint.
pub open spec fn detail_lines_of(lines: Seq<Seq<char>>, r: Rect) -> Seq<Seq<char>> {
    let max = max_int(sat_sub(r.height as int, 4), 1);
    let shown = lines.take(min_int(max, lines.len() as int)).map_values(|l: Seq<char>| modal_text(l, r));
    let with_more = if lines.len() > max {
        shown.push("..."@)
    } else {
        shown
    };
    with_more.push(Seq::empty()).push("按 Esc/Enter 关闭详情，按 q 退出。"@)
}

/// The rows of a detail box: the area's height less four, kept between
/// 18 and 26.
pub open spec fn detail_height_of(area: Rect) -> int {
    let h = sat_sub(area.height as int, 4);
    if h < 18 {
        18
    } else if h > 26 {
        26
    } else {
        h
    }
}

/// A box drawn over the page: what it is, its title, where it goes, its
/// lines, and whether the first line is shown as an alert.
#[derive(Debug, Clone, PartialEq, Eq)]
pub struct ModalBox {
    pub kind: ModalKind,
    pub title: String,
    pub area: Rect,
    pub lines: Vec<String>,
    pub alert: bool,
}

/// The box over the page as values: kind, title, area, lines, alert.
pub open spec fn modal_box_of(app: TuiApp, area: Rect) -> Option<(ModalKind, Seq<char>, Rect, Seq<Seq<char>>, bool)> {
    match modal_kind_of(app) {
        None => None,
        Some(ModalKind::Busy) => {
            let m = modal_rect_spec(area, 74, 7);
            Some(
                (
                    ModalKind::Busy,
                    "处理中"@,
                    m,
                    seq![modal_text(app.busy->0.message@, m), Seq::empty(), "正在处理，请稍候。完成后会自动刷新结果。"@],
                    false,
                ),
            )
        },
        Some(ModalKind::Confirm) => {
            let m = modal_rect_spec(area, 74, 7);
            Some(
                (
                    ModalKind::Confirm,
                    "确认操作"@,
                    m,
                    seq![modal_text(app.confirm->0.prompt@, m), Seq::empty(), "按 y 确认，按 n 或 Esc 取消。"@],
                    false,
                ),
            )
        },
        Some(ModalKind::Input) => {
            let m = modal_rect_spec(area, 74, 8);
            let input = app.input->0;
            Some(
                (
                    ModalKind::Input,
                    "输入"@,
                    m,
                    seq![
                        input_title_text(input.target),
                        modal_text(input_display_text(input), m),
                        Seq::empty(),
                        "输入或粘贴文本，Enter 应用，Backspace 删除，Esc 取消。"@,
                    ],
                    false,
                ),
            )
        },
        Some(ModalKind::Detail) => {
            let m = modal_rect_spec(area, 82, detail_height_of(area) as u16);
            let d = app.detail->0;
            Some((ModalKind::Detail, d.title@, m, detail_lines_of(views(d.lines@), m), false))
        },
        Some(ModalKind::ProviderDialog) => Some((ModalKind::ProviderDialog, Seq::empty(), area, Seq::empty(), false)),
        Some(ModalKind::Error) => {
            let m = modal_rect_spec(area, 74, 7);
            Some(
                (
                    ModalKind::Error,
                    "错误提示"@,
                    m,
                    seq![modal_text(app.status@, m), Seq::empty(), "可以继续切页、刷新或按 ? 查看帮助。"@],
                    true,
                ),
            )
        },
    }
}

/// Fits a text to one line of a box.
pub fn modal_line_text(value: &str, r: Rect) -> (s: String)
    ensures
        s@ == modal_text(value@, r),
{
    let w = r.width.saturating_sub(4);
    let width: usize = if w >= 1 { w as usize } else { 1 };
    terminal_status_line(value, width)
}

fn three_lines(a: String, b: String, c: String) -> (r: Vec<String>)
    ensures
        views(r@) == seq![a@, b@, c@],
{
    let r = vec![a, b, c];
    proof {
        assert(views(r@) =~= seq![a@, b@, c@]);
    }
    r
}

fn detail_lines(lines: &Vec<String>, r: Rect) -> (out: Vec<String>)
    ensures
        views(out@) == detail_lines_of(views(lines@), r),
{
    let h = r.height.saturating_sub(4);
    let max: usize = if h >= 1 { h as usize } else { 1 };
    let n: usize = if max <= lines.len() { max } else { lines.len() };
    let ghost lv = views(lines@);
    let ghost target = lv.take(n as int).map_values(|l: Seq<char>| modal_text(l, r));
    let mut out: Vec<String> = Vec::new();
    let mut i: usize = 0;
    while i < n
        invariant
            i <= n <= lines.len(),
            lv == views(lines@),
            target == lv.take(n as int).map_values(|l: Seq<char>| modal_text(l, r)),
            views(out@) == target.take(i as int),
        decreases n - i,
    {
        let t = modal_line_text(lines[i].as_str(), r);
        let ghost before = views(out@);
        out.push(t);
        proof {
            assert(lv[i as int] == lines@[i as int]@);
            assert(views(out@) =~= before.push(t@));
            assert(views(out@) =~= target.take(i + 1));
        }
        i += 1;
    }
    proof {
        assert(target.take(n as int) =~= target);
    }
    if lines.len() > max {
        let ghost before = views(out@);
        out.push(owned("..."));
        proof {
            assert(views(out@) =~= before.push("..."@));
        }
    }
    let ghost before = views(out@);
    out.push(String::new());
    out.push(owned("按 Esc/Enter 关闭详情，按 q 退出。"));
    proof {
        assert(views(out@) =~= before.push(Seq::empty()).push("按 Esc/Enter 关闭详情，按 q 退出。"@));
    }
    out
}

/// The box to draw over the page in `area`, if any.
pub fn transient_modal(app: &TuiApp, area: Rect) -> (r: Option<ModalBox>)
    requires
        area.width >= 44,
        area.x + area.width <= u16::MAX,
        area.y + area.height <= u16::MAX,
    ensures
        match modal_box_of(*app, area) {
            None => r is None,
            Some((kind, title, rect, lines, alert)) => r matches Some(b) && b.kind == kind && b.title@ == title
                && b.area == rect && views(b.lines@) == lines && b.alert == alert,
        },
{
    if app.show_help {
        return None;
    }
    if let Some(busy) = &app.busy {
        let m = modal_rect(area, 74, 7);
        let lines = three_lines(
            modal_line_text(busy.message.as_str(), m),
            String::new(),
            owned("正在处理，请稍候。完成后会自动刷新结果。"),
        );
        return Some(ModalBox { kind: ModalKind::Busy, title: owned("处理中"), area: m, lines, alert: false });
    }
    if let Some(confirm) = &app.confirm {
        let m = modal_rect(area, 74, 7);
        let lines = three_lines(
            modal_line_text(confirm.prompt.as_str(), m),
            String::new(),
            owned("按 y 确认，按 n 或 Esc 取消。"),
        );
        return Some(ModalBox { kind: ModalKind::Confirm, title: owned("确认操作"), area: m, lines, alert: false });
    }
    if let Some(input) = &app.input {
        let m = modal_rect(area, 74, 8);
        let value = input_display_value(input);
        let a = owned(input_target_title(input.target));
        let b = modal_line_text(value.as_str(), m);
        let lines = vec![a, b, String::new(), owned("输入或粘贴文本，Enter 应用，Backspace 删除，Esc 取消。")];
        proof {
            assert(views(lines@) =~= seq![
                input_title_text(input.target),
                modal_text(input_display_text(*input), m),
                Seq::<char>::empty(),
                "输入或粘贴文本，Enter 应用，Backspace 删除，Esc 取消。"@,
            ]);
        }
        return Some(ModalBox { kind: ModalKind::Input, title: owned("输入"), area: m, lines, alert: false });
    }
    if let Some(detail) = &app.detail {
        let h = area.height.saturating_sub(4);
        let detail_height: u16 = if h < 18 {
            18
        } else if h > 26 {
            26
        } else {
            h
        };
        let m = modal_rect(area, 82, detail_height);
        let lines = detail_lines(&detail.lines, m);
        return Some(
            ModalBox { kind: ModalKind::Detail, title: owned(detail.title.as_str()), area: m, lines, alert: false },
        );
    }
    if app.provider_dialog.is_some() {
        let lines: Vec<String> = Vec::new();
        proof {
            assert(views(lines@) =~= Seq::<Seq<char>>::empty());
        }
        return Some(ModalBox { kind: ModalKind::ProviderDialog, title: String::new(), area, lines, alert: false });
    }
    if status_is_error(app.status.as_str()) {
        let m = modal_rect(area, 74, 7);
        let lines = three_lines(
            modal_line_text(app.status.as_str(), m),
            String::new(),
            owned("可以继续切页、刷新或按 ? 查看帮助。"),
        );
        return Some(ModalBox { kind: ModalKind::Error, title: owned("错误提示"), area: m, lines, alert: true });
    }
    None
}

/// The lines of the full key help.
pub open spec fn help_lines_of() -> Seq<Seq<char>> {
    seq![
        "当前：完整键位帮助。Esc 或 ? 关闭帮助，q 退出程序。"@,
        ""@,
        "全局：1-8 直达页面 | Tab/←→/h/l 切页 | s 启停核心 | r 刷新 | D 诊断 | E 导出诊断快照 | n 消息历史 | ↑↓/j/k 选择 | Home/End 到首尾 | / 过滤"@,
        "粘贴：任意页面直接粘贴 http(s) 订阅链接，确认后导入并激活。"@,
        "总览：s 启停核心 | Enter 展开/应用节点 | g 展开代理组 | P 系统代理 | T TUN | d DNS | R 重启核心 | m 模式"@,
        "订阅：Enter 切换 | i 手动输入订阅链接 | o 导入本地配置文件 | u 更新选中 | a 更新全部 | d/Delete 删除"@,
        "代理：左侧代理组、右侧节点 | f 切焦点 | Enter 在组上定位节点、在节点上应用 | S 排序 | p Provider | m 切模式 | / 过滤"@,
        "日志：↑↓ 查看历史 | f 开关跟随 | L 循环等级 | / 按日志内容过滤 | x 清屏"@,
        "设置：Enter 切换/循环选中项 | e 编辑混合端口 | TUN/系统代理会二次确认"@,
        "规则：↑↓ 浏览 | p Provider | / 按类型、内容、代理过滤"@,
        "连接：Enter 查看详情 | d/Delete 关闭选中连接 | c 关闭全部连接"@,
        "任务：Enter 查看详情 | R 重试订阅更新任务 | c 取消运行中任务"@,
        "输入模式：直接粘贴或输入文本，Enter 应用，Backspace 删除，Esc 取消。"@,
        "确认模式：y 确认，n 或 Esc 取消。"@,
    ]
}

/// The full key help: its title names the current page.
pub fn help_screen(current: crate::models::View) -> (r: (String, Vec<&'static str>))
    ensures
        r.0@ == "帮助 - "@ + view_title(current),
        str_views(r.1@) == help_lines_of(),
{
    let mut t = to_chars("帮助 - ");
    push_str(&mut t, current.title());
    let lines = vec![
        "当前：完整键位帮助。Esc 或 ? 关闭帮助，q 退出程序。",
        "",
        "全局：1-8 直达页面 | Tab/←→/h/l 切页 | s 启停核心 | r 刷新 | D 诊断 | E 导出诊断快照 | n 消息历史 | ↑↓/j/k 选择 | Home/End 到首尾 | / 过滤",
        "粘贴：任意页面直接粘贴 http(s) 订阅链接，确认后导入并激活。",
        "总览：s 启停核心 | Enter 展开/应用节点 | g 展开代理组 | P 系统代理 | T TUN | d DNS | R 重启核心 | m 模式",
        "订阅：Enter 切换 | i 手动输入订阅链接 | o 导入本地配置文件 | u 更新选中 | a 更新全部 | d/Delete 删除",
        "代理：左侧代理组、右侧节点 | f 切焦点 | Enter 在组上定位节点、在节点上应用 | S 排序 | p Provider | m 切模式 | / 过滤",
        "日志：↑↓ 查看历史 | f 开关跟随 | L 循环等级 | / 按日志内容过滤 | x 清屏",
        "设置：Enter 切换/循环选中项 | e 编辑混合端口 | TUN/系统代理会二次确认",
        "规则：↑↓ 浏览 | p Provider | / 按类型、内容、代理过滤",
        "连接：Enter 查看详情 | d/Delete 关闭选中连接 | c 关闭全部连接",
        "任务：Enter 查看详情 | R 重试订阅更新任务 | c 取消运行中任务",
        "输入模式：直接粘贴或输入文本，Enter 应用，Backspace 删除，Esc 取消。",
        "确认模式：y 确认，n 或 Esc 取消。",
    ];
    proof {
        assert(str_views(lines@) =~= help_lines_of());
    }
    (from_chars(&t), lines)
}

/// A terminal narrower or lower than the minimum shows only a size hint.
pub fn terminal_too_small(area: Rect) -> (r: bool)
    ensures
        r == (area.width < MIN_TUI_WIDTH || area.height < MIN_TUI_HEIGHT),
{
    area.width < MIN_TUI_WIDTH || area.height < MIN_TUI_HEIGHT
}

/// The size hint of a terminal that is too small: its title, and lines
/// giving the current and the minimum size.
pub fn too_small_screen(area: Rect) -> (r: (String, Vec<String>))
    ensures
        r.0@ == "终端尺寸不足"@,
        views(r.1@) == seq![
            "当前终端："@ + dec(area.width as nat) + "x"@ + dec(area.height as nat),
            "建议至少："@ + dec(MIN_TUI_WIDTH as nat) + "x"@ + dec(MIN_TUI_HEIGHT as nat),
            "请放大终端窗口后继续，SSH 会话需要设置有效 rows/cols。"@,
            "按 q 退出。"@,
        ],
{
    let mut a = to_chars("当前终端：");
    push_dec(&mut a, area.width as u64);
    push_str(&mut a, "x");
    push_dec(&mut a, area.height as u64);
    let mut b = to_chars("建议至少：");
    push_dec(&mut b, MIN_TUI_WIDTH as u64);
    push_str(&mut b, "x");
    push_dec(&mut b, MIN_TUI_HEIGHT as u64);
    let lines = vec![
        from_chars(&a),
        from_chars(&b),
        owned("请放大终端窗口后继续，SSH 会话需要设置有效 rows/cols。"),
        owned("按 q 退出。"),
    ];
    proof {
        assert(views(lines@) =~= seq![
            "当前终端："@ + dec(area.width as nat) + "x"@ + dec(area.height as nat),
            "建议至少："@ + dec(MIN_TUI_WIDTH as nat) + "x"@ + dec(MIN_TUI_HEIGHT as nat),
            "请放大终端窗口后继续，SSH 会话需要设置有效 rows/cols。"@,
            "按 q 退出。"@,
        ]);
    }
    (owned("终端尺寸不足"), lines)
}

/// What fills the band between the tabs and the footer.
#[derive(Debug, Clone, Copy, PartialEq, Eq, Structural)]
pub enum ScreenBody {
    /// The full key help.
    Help,
    /// The page of the current view.
    Page(crate::models::View),
}

/// A screen large enough to use: the tabs band (three rows on top), the
/// body, the footer band (three rows at the bottom), what the body shows,
/// and the box drawn over the page.
#[derive(Debug)]
pub struct ScreenLayout {
    pub tabs: Rect,
    pub body: Rect,
    pub footer: Rect,
    pub content: ScreenBody,
    pub modal: Option<ModalBox>,
}

/// What one frame draws. `None`: the terminal is below the minimum size
/// and the frame shows only the size hint of `too_small_screen`.
pub fn screen_plan(app: &TuiApp, area: Rect) -> (r: Option<ScreenLayout>)
    requires
        area.x + area.width <= u16::MAX,
        area.y + area.height <= u16::MAX,
    ensures
        r is None <==> (area.width < MIN_TUI_WIDTH || area.height < MIN_TUI_HEIGHT),
        r matches Some(p) ==> {
            &&& p.tabs == (Rect { x: area.x, y: area.y, width: area.width, height: 3 })
            &&& p.body == (Rect {
                x: area.x,
                y: (area.y + 3) as u16,
                width: area.width,
                height: (area.height - 6) as u16,
            })
            &&& p.footer == (Rect {
                x: area.x,
                y: (area.y + area.height - 3) as u16,
                width: area.width,
                height: 3,
            })
            &&& p.content == (if app.show_help {
                ScreenBody::Help
            } else {
                ScreenBody::Page(app.view)
            })
            &&& match modal_box_of(*app, area) {
                None => p.modal is None,
                Some((kind, title, rect, lines, alert)) => p.modal matches Some(b) && b.kind == kind
                    && b.title@ == title && b.area == rect && views(b.lines@) == lines && b.alert == alert,
            }
        },
{
    if terminal_too_small(area) {
        return None;
    }
    let tabs = Rect { x: area.x, y: area.y, width: area.width, height: 3 };
    let body = Rect { x: area.x, y: area.y + 3, width: area.width, height: area.height - 6 };
    let footer = Rect { x: area.x, y: area.y + area.height - 3, width: area.width, height: 3 };
    let content = if app.show_help {
        ScreenBody::Help
    } else {
        ScreenBody::Page(app.view)
    };
    let modal = transient_modal(app, area);
    Some(ScreenLayout { tabs, body, footer, content, modal })
}

} // verus!
