//! Text of the frame around the pages: status lines, modal boxes, the key
//! hint line and the punctuation test page.
use vstd::prelude::*;
use vstd::string::*;
use vstd::view::View as _;
use crate::layout::{display_width, fit_display_width, fit_text, span_width};
use crate::models::{ConfirmAction, DashboardProxyPopup, InputState, InputTarget, SettingRow, View};
use crate::strs::{
    chars_contains_str, chars_ends_with, chars_starts_with, contains, dec, ends_with, from_chars,
    join, owned, push_str, push_usize, starts_with, to_chars,
};
use crate::text::{link_marker, redact, safe_text, status_history_text, terminal_safe_text};

verus! {

/// One sample line of the punctuation test page.
#[derive(Debug, Clone, Copy, PartialEq, Eq)]
pub struct PunctuationTestSample {
    pub title: &'static str,
    pub value: &'static str,
}

/// The samples of the punctuation test page, as (title, text) pairs.
pub open spec fn punctuation_samples_spec() -> Seq<(Seq<char>, Seq<char>)> {
    seq![
        ("冒号"@, "A：B"@),
        ("逗号"@, "A，B"@),
        ("分号"@, "A；B"@),
        ("句号"@, "A。B"@),
        ("问号"@, "A？B"@),
        ("感叹"@, "A！B"@),
        ("顿号"@, "A、B"@),
        ("括号"@, "A（B）C"@),
        ("方括"@, "A【B】C"@),
        ("引号"@, "A“B”C"@),
        ("单引"@, "A‘B’C"@),
        ("书名"@, "A《B》C"@),
        ("线条"@, "A｜B／C＼D"@),
        ("破折"@, "A—B–C－D"@),
        ("省略"@, "A…B"@),
        ("空格"@, "A　B"@),
    ]
}

pub open spec fn sample_views(v: Seq<PunctuationTestSample>) -> Seq<(Seq<char>, Seq<char>)> {
    v.map_values(|s: PunctuationTestSample| (s.title@, s.value@))
}

/// The samples of the punctuation test page.
pub fn punctuation_test_samples() -> (r: Vec<PunctuationTestSample>)
    ensures
        sample_views(r@) == punctuation_samples_spec(),
{
    let r = vec![
        PunctuationTestSample { title: "冒号", value: "A：B" },
        PunctuationTestSample { title: "逗号", value: "A，B" },
        PunctuationTestSample { title: "分号", value: "A；B" },
        PunctuationTestSample { title: "句号", value: "A。B" },
        PunctuationTestSample { title: "问号", value: "A？B" },
        PunctuationTestSample { title: "感叹", value: "A！B" },
        PunctuationTestSample { title: "顿号", value: "A、B" },
        PunctuationTestSample { title: "括号", value: "A（B）C" },
        PunctuationTestSample { title: "方括", value: "A【B】C" },
        PunctuationTestSample { title: "引号", value: "A“B”C" },
        PunctuationTestSample { title: "单引", value: "A‘B’C" },
        PunctuationTestSample { title: "书名", value: "A《B》C" },
        PunctuationTestSample { title: "线条", value: "A｜B／C＼D" },
        PunctuationTestSample { title: "破折", value: "A—B–C－D" },
        PunctuationTestSample { title: "省略", value: "A…B" },
        PunctuationTestSample { title: "空格", value: "A　B" },
    ];
    proof {
        assert(sample_views(r@) =~= punctuation_samples_spec());
    }
    r
}

/// How many samples one page of the punctuation test shows.
pub const PUNCTUATION_TEST_PAGE_SIZE: usize = 8;

/// The number of pages of the punctuation test: the samples divided into
/// pages, rounded up, and at least one.
pub fn punctuation_test_page_count() -> (r: usize)
    ensures
        r == 2,
        r * PUNCTUATION_TEST_PAGE_SIZE >= punctuation_samples_spec().len(),
        (r - 1) * PUNCTUATION_TEST_PAGE_SIZE < punctuation_samples_spec().len(),
{
    let samples = punctuation_test_samples();
    let n = samples.len();
    proof {
        assert(sample_views(samples@).len() == 16);
    }
    let pages = (n + PUNCTUATION_TEST_PAGE_SIZE - 1) / PUNCTUATION_TEST_PAGE_SIZE;
    if pages < 1 {
        1
    } else {
        pages
    }
}

/// A status line: URLs hidden, made terminal-safe and fitted to `width`.
pub open spec fn status_line_text(value: Seq<char>, width: nat) -> Seq<char> {
    fit_text(safe_text(redact(value, link_marker())), width)
}

/// Fits a status message into one terminal line.
pub fn terminal_status_line(value: &str, width: usize) -> (r: String)
    ensures
        r@ == status_line_text(value@, width as nat),
{
    let clean = status_history_text(value);
    fit_display_width(clean.as_str(), width)
}

/// A rectangle of terminal cells.
#[derive(Debug, Clone, Copy, PartialEq, Eq, Structural)]
pub struct Rect {
    pub x: u16,
    pub y: u16,
    pub width: u16,
    pub height: u16,
}

/// The rows a table can show in an area: its height less the border (two
/// rows) and `reserved` rows, at least one.
pub open spec fn content_rows_of(area: Rect, reserved: u16) -> int {
    if area.height >= 2 + reserved + 1 {
        area.height - 2 - reserved
    } else {
        1
    }
}

/// Rows of a table in `area` (see `content_rows_of`).
pub fn content_rows(area: Rect, reserved: u16) -> (r: usize)
    requires
        reserved <= u16::MAX - 2,
    ensures
        r == content_rows_of(area, reserved),
{
    let used: u16 = 2 + reserved;
    if area.height > used {
        (area.height - used) as usize
    } else {
        1
    }
}

/// The width lines of a page may take: the area's width less the border
/// and padding (four cells), at least 32.
pub open spec fn page_width_of(area: Rect) -> int {
    if area.width >= 36 {
        area.width - 4
    } else {
        32
    }
}

/// See `page_width_of`.
pub fn page_content_width(area: Rect) -> (r: usize)
    ensures
        r == page_width_of(area),
{
    if area.width >= 36 {
        (area.width - 4) as usize
    } else {
        32
    }
}

pub open spec fn clamp_spec(v: int, lo: int, hi: int) -> int {
    if v < lo {
        lo
    } else if v > hi {
        hi
    } else {
        v
    }
}

/// The box of a centred modal: `width_percent` of the area's width, kept
/// between 40 cells and the area's width less 4, and at most `height` rows
/// (but no more than the area's height less 2, and at least one row).
pub open spec fn modal_rect_spec(area: Rect, width_percent: u16, height: u16) -> Rect {
    let scaled = if area.width * width_percent > 65535 {
        65535
    } else {
        area.width * width_percent
    };
    let max_width = if area.width >= 5 {
        area.width - 4
    } else {
        1
    };
    let width = clamp_spec(scaled / 100, 40, max_width);
    let max_height = if area.height >= 3 {
        area.height - 2
    } else {
        1
    };
    let h = if height <= max_height {
        height as int
    } else {
        max_height
    };
    let free_height = if area.height >= h {
        area.height - h
    } else {
        0
    };
    Rect {
        x: (area.x + (area.width - width) / 2) as u16,
        y: (area.y + free_height / 2) as u16,
        width: width as u16,
        height: h as u16,
    }
}

/// Places a modal box in the middle of `area`.
pub fn modal_rect(area: Rect, width_percent: u16, height: u16) -> (r: Rect)
    requires
        area.width >= 44,
        area.x + area.width <= u16::MAX,
        area.y + area.height <= u16::MAX,
    ensures
        r == modal_rect_spec(area, width_percent, height),
        r.x + r.width <= area.x + area.width,
        r.width <= area.width,
        r.height <= area.height || r.height == 1,
{
    let w32 = area.width as u32;
    let p32 = width_percent as u32;
    assert(w32 * p32 <= 65535 * 65535) by (nonlinear_arith)
        requires
            w32 <= 65535,
            p32 <= 65535,
    ;
    let product: u32 = w32 * p32;
    let scaled: u16 = if product > 65535 {
        65535
    } else {
        product as u16
    };
    let max_width: u16 = if area.width >= 5 {
        area.width - 4
    } else {
        1
    };
    let quotient = scaled / 100;
    let width: u16 = if quotient < 40 {
        40
    } else if quotient > max_width {
        max_width
    } else {
        quotient
    };
    let max_height: u16 = if area.height >= 3 {
        area.height - 2
    } else {
        1
    };
    let h: u16 = if height <= max_height {
        height
    } else {
        max_height
    };
    let free_height: u16 = if area.height >= h {
        area.height - h
    } else {
        0
    };
    Rect {
        x: area.x + (area.width - width) / 2,
        y: area.y + free_height / 2,
        width,
        height: h,
    }
}

/// The title of an input box.
pub open spec fn input_title_text(target: InputTarget) -> Seq<char> {
    match target {
        InputTarget::Search(_) => "过滤条件"@,
        InputTarget::MixedPort => "混合端口"@,
        InputTarget::ExternalControllerPort => "外部控制端口"@,
        InputTarget::ImportLocalProfilePath => "本地配置路径"@,
        InputTarget::ImportSubscriptionUrl => "订阅链接"@,
    }
}

/// The title of an input box.
pub fn input_target_title(target: InputTarget) -> (r: &'static str)
    ensures
        r@ == input_title_text(target),
{
    match target {
        InputTarget::Search(_) => "过滤条件",
        InputTarget::MixedPort => "混合端口",
        InputTarget::ExternalControllerPort => "外部控制端口",
        InputTarget::ImportLocalProfilePath => "本地配置路径",
        InputTarget::ImportSubscriptionUrl => "订阅链接",
    }
}

/// What an input box shows of its value: a subscription link only by its
/// length, anything else made terminal-safe.
pub open spec fn input_display_text(input: InputState) -> Seq<char> {
    if input.value@.len() == 0 {
        "当前输入：空"@
    } else {
        match input.target {
            InputTarget::ImportSubscriptionUrl => "当前输入：[订阅链接已输入，"@ + dec(
                input.value@.len(),
            ) + " 个字符]"@,
            _ => "当前输入："@ + safe_text(input.value@),
        }
    }
}

/// What an input box shows of what was typed.
pub fn input_display_value(input: &InputState) -> (r: String)
    ensures
        r@ == input_display_text(*input),
{
    let chars = to_chars(input.value.as_str());
    if chars.len() == 0 {
        return owned("当前输入：空");
    }
    let mut v: Vec<char> = Vec::new();
    match input.target {
        InputTarget::ImportSubscriptionUrl => {
            push_str(&mut v, "当前输入：[订阅链接已输入，");
            push_usize(&mut v, chars.len());
            push_str(&mut v, " 个字符]");
        },
        _ => {
            push_str(&mut v, "当前输入：");
            let safe = terminal_safe_text(input.value.as_str());
            push_str(&mut v, safe.as_str());
        },
    }
    from_chars(&v)
}

/// The message shown while the value of an input box is applied.
pub open spec fn input_busy_text(target: InputTarget) -> Option<Seq<char>> {
    match target {
        InputTarget::Search(_) => None,
        InputTarget::MixedPort => Some("正在保存混合端口设置..."@),
        InputTarget::ExternalControllerPort => Some("正在保存外部控制端口..."@),
        InputTarget::ImportLocalProfilePath => Some("正在导入本地配置..."@),
        InputTarget::ImportSubscriptionUrl => Some("正在导入订阅并等待代理组加载..."@),
    }
}

/// The message shown while the value of an input box is applied; none for
/// a search, which is applied at once.
pub fn input_target_busy_message(target: InputTarget) -> (r: Option<&'static str>)
    ensures
        match r {
            Some(m) => input_busy_text(target) == Some(m@),
            None => input_busy_text(target) is None,
        },
{
    match target {
        InputTarget::Search(_) => None,
        InputTarget::MixedPort => Some("正在保存混合端口设置..."),
        InputTarget::ExternalControllerPort => Some("正在保存外部控制端口..."),
        InputTarget::ImportLocalProfilePath => Some("正在导入本地配置..."),
        InputTarget::ImportSubscriptionUrl => Some("正在导入订阅并等待代理组加载..."),
    }
}

/// The message shown while a confirmed action runs.
pub open spec fn confirm_busy_text(action: ConfirmAction) -> Seq<char> {
    match action {
        ConfirmAction::SwitchProfile { .. } => "正在切换订阅并刷新 runtime..."@,
        ConfirmAction::DeleteProfile { .. } => "正在删除订阅..."@,
        ConfirmAction::CloseConnection { .. } => "正在关闭连接..."@,
        ConfirmAction::CloseAllConnections => "正在关闭全部连接..."@,
        ConfirmAction::ClearLogs => "正在清空日志..."@,
        ConfirmAction::ToggleTun { .. } => "正在切换 TUN 并刷新 runtime..."@,
        ConfirmAction::ToggleSystemProxy { .. } => "正在切换系统代理..."@,
        ConfirmAction::ToggleExternalController { .. } => "正在切换外部控制器并刷新 runtime..."@,
        ConfirmAction::SetExternalControllerPort { .. } => "正在修改外部控制端口并刷新 runtime..."@,
        ConfirmAction::ToggleCoreLog { .. } => "正在切换核心日志并重启 Core..."@,
    }
}

/// The message shown while a confirmed action runs.
pub fn confirm_action_busy_message(action: &ConfirmAction) -> (r: &'static str)
    ensures
        r@ == confirm_busy_text(*action),
{
    match action {
        ConfirmAction::SwitchProfile { .. } => "正在切换订阅并刷新 runtime...",
        ConfirmAction::DeleteProfile { .. } => "正在删除订阅...",
        ConfirmAction::CloseConnection { .. } => "正在关闭连接...",
        ConfirmAction::CloseAllConnections => "正在关闭全部连接...",
        ConfirmAction::ClearLogs => "正在清空日志...",
        ConfirmAction::ToggleTun { .. } => "正在切换 TUN 并刷新 runtime...",
        ConfirmAction::ToggleSystemProxy { .. } => "正在切换系统代理...",
        ConfirmAction::ToggleExternalController { .. } => "正在切换外部控制器并刷新 runtime...",
        ConfirmAction::SetExternalControllerPort { .. } => "正在修改外部控制端口并刷新 runtime...",
        ConfirmAction::ToggleCoreLog { .. } => "正在切换核心日志并重启 Core...",
    }
}

/// The settings rows that apply at once show a busy message; the others
/// ask for input or confirmation first.
pub open spec fn setting_busy_text(row: SettingRow) -> Option<Seq<char>> {
    match row {
        SettingRow::Dns | SettingRow::Ipv6 | SettingRow::AllowLan | SettingRow::UnifiedDelay
        | SettingRow::TuiTheme | SettingRow::TuiDisplayMode | SettingRow::TuiPunctuationMode
        | SettingRow::LogLevel | SettingRow::RuleProviderDownloadProxy => Some(
            "正在应用设置..."@,
        ),
        SettingRow::MixedPort | SettingRow::CoreLog | SettingRow::ExternalController
        | SettingRow::ExternalControllerPort | SettingRow::Tun | SettingRow::SystemProxy => None,
    }
}

/// The busy message of a settings row that applies at once.
pub fn settings_row_busy_message(row: SettingRow) -> (r: Option<&'static str>)
    ensures
        match r {
            Some(m) => setting_busy_text(row) == Some(m@),
            None => setting_busy_text(row) is None,
        },
{
    match row {
        SettingRow::Dns | SettingRow::Ipv6 | SettingRow::AllowLan | SettingRow::UnifiedDelay
        | SettingRow::TuiTheme | SettingRow::TuiDisplayMode | SettingRow::TuiPunctuationMode
        | SettingRow::LogLevel | SettingRow::RuleProviderDownloadProxy => Some("正在应用设置..."),
        SettingRow::MixedPort | SettingRow::CoreLog | SettingRow::ExternalController
        | SettingRow::ExternalControllerPort | SettingRow::Tun | SettingRow::SystemProxy => None,
    }
}

/// A status message that reports an error.
pub open spec fn error_status(s: Seq<char>) -> bool {
    starts_with(s, "错误："@) || contains(s, "失败："@) || contains(s, "失败；"@) || contains(
        s,
        "失败，"@,
    ) || ends_with(s, "失败"@)
}

/// Whether a status message reports an error (and is shown in a modal).
pub fn status_is_error(status: &str) -> (b: bool)
    ensures
        b == error_status(status@),
{
    let s = to_chars(status);
    chars_starts_with(&s, "错误：") || chars_contains_str(&s, "失败：") || chars_contains_str(
        &s,
        "失败；",
    ) || chars_contains_str(&s, "失败，") || chars_ends_with(&s, "失败")
}

pub open spec fn str_views(v: Seq<&str>) -> Seq<Seq<char>> {
    v.map_values(|s: &str| s@)
}

/// The key hint line of the given segments, with `…更多` at the end when
/// some were left out.
pub open spec fn seg_line(segs: Seq<Seq<char>>, more: bool) -> Seq<char> {
    "键位："@ + join(
        if more {
            segs.push("…更多"@)
        } else {
            segs
        },
        "  "@,
    )
}

fn join_strs(parts: &Vec<&str>, sep: &str) -> (out: String)
    ensures
        out@ == join(str_views(parts@), sep@),
{
    let mut out: Vec<char> = Vec::new();
    let mut i: usize = 0;
    while i < parts.len()
        invariant
            i <= parts.len(),
            out@ == join(str_views(parts@.take(i as int)), sep@),
        decreases parts.len() - i,
    {
        proof {
            assert(str_views(parts@.take(i + 1)).drop_last() =~= str_views(parts@.take(i as int)));
            assert(str_views(parts@.take(i + 1)).last() == parts@[i as int]@);
        }
        if i > 0 {
            push_str(&mut out, sep);
        }
        push_str(&mut out, parts[i]);
        i += 1;
        proof {
            if i == 1 {
                assert(str_views(parts@.take(0)).len() == 0);
                assert(out@ =~= join(str_views(parts@.take(i as int)), sep@));
            }
        }
    }
    proof {
        assert(parts@.take(parts.len() as int) =~= parts@);
    }
    from_chars(&out)
}

fn copy_strs<'a>(v: &[&'a str]) -> (r: Vec<&'a str>)
    ensures
        r@ == v@,
{
    let mut r: Vec<&'a str> = Vec::new();
    let mut i: usize = 0;
    while i < v.len()
        invariant
            i <= v.len(),
            r@ == v@.take(i as int),
        decreases v.len() - i,
    {
        r.push(v[i]);
        i += 1;
        proof {
            assert(r@ =~= v@.take(i as int));
        }
    }
    proof {
        assert(v@.take(v.len() as int) =~= v@);
    }
    r
}

/// The key hint line: `键位：` and the segments two spaces apart, with
/// `…更多` at the end when `more`.
pub fn key_segments_line(segments: &[&str], more: bool) -> (r: String)
    ensures
        r@ == seg_line(str_views(segments@), more),
{
    let mut parts = copy_strs(segments);
    if more {
        parts.push("…更多");
    }
    proof {
        assert(str_views(parts@) =~= (if more {
            str_views(segments@).push("…更多"@)
        } else {
            str_views(segments@)
        }));
    }
    let joined = join_strs(&parts, "  ");
    let mut v = to_chars("键位：");
    push_str(&mut v, joined.as_str());
    from_chars(&v)
}

/// Adds the candidates in order, each one only if the line still fits in
/// `width`; also says whether any was left out.
pub open spec fn greedy_segments(segs: Seq<Seq<char>>, cands: Seq<Seq<char>>, width: nat) -> (
    Seq<Seq<char>>,
    bool,
)
    decreases cands.len(),
{
    if cands.len() == 0 {
        (segs, false)
    } else {
        let prev = greedy_segments(segs, cands.drop_last(), width);
        let next = prev.0.push(cands.last());
        if span_width(seg_line(next, false)) <= width {
            (next, prev.1)
        } else {
            (prev.0, true)
        }
    }
}

proof fn lemma_greedy_keeps_required(segs: Seq<Seq<char>>, cands: Seq<Seq<char>>, width: nat)
    ensures
        greedy_segments(segs, cands, width).0.len() >= segs.len(),
    decreases cands.len(),
{
    if cands.len() > 0 {
        lemma_greedy_keeps_required(segs, cands.drop_last(), width);
    }
}

/// Drops segments from the end, down to `min`, while the line with
/// `…更多` does not fit.
pub open spec fn trim_for_more(segs: Seq<Seq<char>>, min: nat, width: nat) -> Seq<Seq<char>>
    decreases segs.len(),
{
    if segs.len() > min && span_width(seg_line(segs, true)) > width {
        trim_for_more(segs.drop_last(), min, width)
    } else {
        segs
    }
}

/// The key hint line for `width` cells: the required segments, then every
/// preferred and secondary one that still fits; when some did not fit,
/// `…更多` is shown if room can be made for it by dropping optional
/// segments; a line that still does not fit is cut.
pub open spec fn compact_line(
    required: Seq<Seq<char>>,
    optional: Seq<Seq<char>>,
    width: nat,
) -> Seq<char> {
    let greedy = greedy_segments(required, optional, width);
    let trimmed = trim_for_more(greedy.0, required.len(), width);
    if greedy.1 && span_width(seg_line(trimmed, true)) <= width {
        seg_line(trimmed, true)
    } else {
        let segs = if greedy.1 {
            trimmed
        } else {
            greedy.0
        };
        let line = seg_line(segs, false);
        if span_width(line) <= width {
            line
        } else {
            fit_text(line, width)
        }
    }
}

/// Builds the key hint line that fits in `width` cells.
pub fn compact_key_segments(
    required: &[&str],
    preferred: &[&str],
    secondary: &[&str],
    width: usize,
) -> (r: String)
    ensures
        r@ == compact_line(
            str_views(required@),
            str_views(preferred@) + str_views(secondary@),
            width as nat,
        ),
{
    let ghost req = str_views(required@);
    let mut all = copy_strs(preferred);
    let mut k: usize = 0;
    while k < secondary.len()
        invariant
            k <= secondary.len(),
            all@ == preferred@ + secondary@.take(k as int),
        decreases secondary.len() - k,
    {
        all.push(secondary[k]);
        k += 1;
        proof {
            assert(all@ =~= preferred@ + secondary@.take(k as int));
        }
    }
    proof {
        assert(secondary@.take(secondary.len() as int) =~= secondary@);
        assert(str_views(all@) =~= str_views(preferred@) + str_views(secondary@));
    }
    let ghost opt = str_views(all@);
    let mut segments = copy_strs(required);
    let minimum = segments.len();
    let mut hidden = false;
    let mut i: usize = 0;
    while i < all.len()
        invariant
            i <= all.len(),
            opt == str_views(all@),
            minimum == req.len(),
            req == str_views(required@),
            (str_views(segments@), hidden) == greedy_segments(req, opt.take(i as int), width as nat),
        decreases all.len() - i,
    {
        let segment = all[i];
        let mut candidate = copy_strs(&segments);
        candidate.push(segment);
        let line = key_segments_line(&candidate, false);
        proof {
            assert(opt.take(i + 1).drop_last() =~= opt.take(i as int));
            assert(opt.take(i + 1).last() == segment@);
            assert(str_views(candidate@) =~= str_views(segments@).push(segment@));
        }
        if display_width(line.as_str()) <= width {
            segments.push(segment);
            proof {
                assert(str_views(segments@) =~= str_views(candidate@));
            }
        } else {
            hidden = true;
        }
        i += 1;
    }
    proof {
        assert(opt.take(all.len() as int) =~= opt);
        lemma_greedy_keeps_required(req, opt, width as nat);
    }
    let ghost greedy_segs = str_views(segments@);
    if hidden {
        while segments.len() > minimum && display_width(
            key_segments_line(&segments, true).as_str(),
        ) > width
            invariant
                minimum == req.len(),
                minimum <= segments.len(),
                trim_for_more(str_views(segments@), minimum as nat, width as nat) == trim_for_more(
                    greedy_segs,
                    req.len(),
                    width as nat,
                ),
            decreases segments.len(),
        {
            let ghost before = str_views(segments@);
            segments.pop();
            proof {
                assert(str_views(segments@) =~= before.drop_last());
            }
        }
        let line = key_segments_line(&segments, true);
        if display_width(line.as_str()) <= width {
            return line;
        }
    }
    let line = key_segments_line(&segments, false);
    if display_width(line.as_str()) <= width {
        line
    } else {
        fit_display_width(line.as_str(), width)
    }
}

/// What the footer depends on besides the status texts.
#[derive(Debug, Clone, Copy, PartialEq, Eq, Structural)]
pub struct FooterState {
    pub view: View,
    pub dashboard_proxy_popup: DashboardProxyPopup,
    pub show_help: bool,
    pub confirm_open: bool,
    pub input_open: bool,
    pub provider_dialog_open: bool,
    pub has_proxy_providers: bool,
    pub has_rule_providers: bool,
}

/// The key hints that are always shown.
pub open spec fn required_segments() -> Seq<Seq<char>> {
    seq!["1-8/Tab 切页"@, "r 刷新"@, "? 帮助"@]
}

/// The key hints shown after the required ones when they fit.
pub open spec fn secondary_segments() -> Seq<Seq<char>> {
    seq!["s Core"@, "D 诊断"@, "E 快照"@, "n 消息"@, "q 退出"@]
}

/// The key hints of the current page, in order of preference.
pub open spec fn preferred_segments(s: FooterState) -> Seq<Seq<char>> {
    match s.view {
        View::Dashboard => match s.dashboard_proxy_popup {
            DashboardProxyPopup::Groups => seq!["↑↓选组"@, "Enter 定位节点"@, "Esc 收起"@, "3 代理页"@],
            DashboardProxyPopup::Nodes => seq![
                "↑↓选节点"@,
                "Enter 应用"@,
                "Esc 收起"@,
                "g 代理组"@,
                "3 代理页"@,
            ],
            DashboardProxyPopup::Closed => seq![
                "Enter 节点"@,
                "g 代理组"@,
                "P 系统代理"@,
                "T TUN"@,
                "d DNS"@,
                "m 模式"@,
            ],
        },
        View::Profiles => seq![
            "↑↓选择"@,
            "Enter 切换"@,
            "i 输入URL"@,
            "o 本地导入"@,
            "u 更新"@,
            "a 全部更新"@,
            "d 删除"@,
            "/ 过滤"@,
        ],
        View::Proxies => if s.has_proxy_providers {
            seq!["f 切焦点"@, "Enter 应用"@, "S 排序"@, "p Provider"@, "m 模式"@, "/ 过滤"@]
        } else {
            seq!["f 切焦点"@, "Enter 应用"@, "S 排序"@, "m 模式"@, "/ 过滤"@]
        },
        View::Logs => seq!["↑↓滚动"@, "f 跟随"@, "L 等级"@, "/ 过滤"@, "x 清屏"@],
        View::Settings => seq!["↑↓选择"@, "Enter 切换"@, "e 编辑"@],
        View::Rules => if s.has_rule_providers {
            seq!["↑↓查看"@, "p Provider"@, "/ 过滤"@]
        } else {
            seq!["↑↓查看"@, "/ 过滤"@]
        },
        View::Connections => seq!["↑↓选择"@, "Enter 详情"@, "d 关闭"@, "c 全部关闭"@, "/ 过滤"@],
        View::Jobs => seq!["↑↓选择"@, "Enter 详情"@, "R 重试"@, "c 取消"@, "/ 过滤"@],
    }
}

fn preferred_exec(s: &FooterState) -> (r: Vec<&'static str>)
    ensures
        str_views(r@) == preferred_segments(*s),
{
    let r: Vec<&'static str> = match s.view {
        View::Dashboard => match s.dashboard_proxy_popup {
            DashboardProxyPopup::Groups => vec!["↑↓选组", "Enter 定位节点", "Esc 收起", "3 代理页"],
            DashboardProxyPopup::Nodes => vec!["↑↓选节点", "Enter 应用", "Esc 收起", "g 代理组", "3 代理页"],
            DashboardProxyPopup::Closed => vec![
                "Enter 节点",
                "g 代理组",
                "P 系统代理",
                "T TUN",
                "d DNS",
                "m 模式",
            ],
        },
        View::Profiles => vec![
            "↑↓选择",
            "Enter 切换",
            "i 输入URL",
            "o 本地导入",
            "u 更新",
            "a 全部更新",
            "d 删除",
            "/ 过滤",
        ],
        View::Proxies => if s.has_proxy_providers {
            vec!["f 切焦点", "Enter 应用", "S 排序", "p Provider", "m 模式", "/ 过滤"]
        } else {
            vec!["f 切焦点", "Enter 应用", "S 排序", "m 模式", "/ 过滤"]
        },
        View::Logs => vec!["↑↓滚动", "f 跟随", "L 等级", "/ 过滤", "x 清屏"],
        View::Settings => vec!["↑↓选择", "Enter 切换", "e 编辑"],
        View::Rules => if s.has_rule_providers {
            vec!["↑↓查看", "p Provider", "/ 过滤"]
        } else {
            vec!["↑↓查看", "/ 过滤"]
        },
        View::Connections => vec!["↑↓选择", "Enter 详情", "d 关闭", "c 全部关闭", "/ 过滤"],
        View::Jobs => vec!["↑↓选择", "Enter 详情", "R 重试", "c 取消", "/ 过滤"],
    };
    proof {
        assert(str_views(r@) =~= preferred_segments(*s));
    }
    r
}

/// The compact key hint line of the current page for `width` cells.
pub fn compact_help_line(state: &FooterState, width: usize) -> (r: String)
    ensures
        r@ == compact_line(
            required_segments(),
            preferred_segments(*state) + secondary_segments(),
            width as nat,
        ),
{
    let required = vec!["1-8/Tab 切页", "r 刷新", "? 帮助"];
    let secondary = vec!["s Core", "D 诊断", "E 快照", "n 消息", "q 退出"];
    let preferred = preferred_exec(state);
    proof {
        assert(str_views(required@) =~= required_segments());
        assert(str_views(secondary@) =~= secondary_segments());
    }
    compact_key_segments(required.as_slice(), preferred.as_slice(), secondary.as_slice(), width)
}

/// The third footer line: the keys of an open help, confirmation, input or
/// provider dialog, else the compact key hints of the page.
pub open spec fn help_line_text(s: FooterState, width: nat) -> Seq<char> {
    if s.show_help {
        status_line_text("键位：Esc/? 关闭帮助  q 退出"@, width)
    } else if s.confirm_open {
        status_line_text("键位：y 确认  n/Esc 取消"@, width)
    } else if s.input_open {
        status_line_text("键位：输入/粘贴文本  Backspace 删除  Enter 应用  Esc 取消"@, width)
    } else if s.provider_dialog_open {
        status_line_text("键位：↑↓选择  Enter/u 更新  a 全部更新  r 刷新  Esc 关闭"@, width)
    } else {
        compact_line(required_segments(), preferred_segments(s) + secondary_segments(), width)
    }
}

/// The third footer line.
pub fn help_status_line(state: &FooterState, width: usize) -> (r: String)
    ensures
        r@ == help_line_text(*state, width as nat),
{
    if state.show_help {
        return terminal_status_line("键位：Esc/? 关闭帮助  q 退出", width);
    }
    if state.confirm_open {
        return terminal_status_line("键位：y 确认  n/Esc 取消", width);
    }
    if state.input_open {
        return terminal_status_line("键位：输入/粘贴文本  Backspace 删除  Enter 应用  Esc 取消", width);
    }
    if state.provider_dialog_open {
        return terminal_status_line("键位：↑↓选择  Enter/u 更新  a 全部更新  r 刷新  Esc 关闭", width);
    }
    compact_help_line(state, width)
}

/// The three footer lines: the status, the interaction line and the key
/// hints, each fitted to `width` (the first two made safe, URLs hidden).
pub fn footer_line_strings(status: &str, interaction: &str, state: &FooterState, width: usize) -> (r:
    Vec<String>)
    ensures
        r@.len() == 3,
        r@[0]@ == status_line_text(status@, width as nat),
        r@[1]@ == status_line_text(interaction@, width as nat),
        r@[2]@ == help_line_text(*state, width as nat),
{
    let mut r: Vec<String> = Vec::new();
    r.push(terminal_status_line(status, width));
    r.push(terminal_status_line(interaction, width));
    r.push(help_status_line(state, width));
    r
}

} // verus!
