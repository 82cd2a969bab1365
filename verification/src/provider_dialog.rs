//! Cells of the provider dialog: type, update time, subscription traffic and
//! expiry, and byte sizes.
use vstd::prelude::*;
use vstd::string::*;
use crate::frame::Rect;
use crate::controller::table_get;
use crate::layout::{fit_display_width, fit_text, stable_text, table_cell_text};
use crate::pages::{text_or_dash, window_of};
use crate::panes::{feedback_key, feedback_views, provider_count, selected_proxy_provider, selected_rule_provider};
use crate::refresh_state::key_view;
use crate::selection::{index_position, position, visible_indices_with_offset, window_start};
use crate::state::TuiApp;
use crate::xtask::str_views;
use crate::models::{ProviderDialogKind, ProviderSubscriptionInfoRow};
use crate::strs::{
    chars_starts_with, dec, digit, from_chars, owned, push_dec, push_str, push_usize, views,
    starts_with, str_blank, str_eq, to_chars, trim, blank,
};

verus! {

/// `1024` to the power `k`.
pub open spec fn pow1024(k: nat) -> nat
    decreases k,
{
    if k == 0 {
        1
    } else {
        1024 * pow1024((k - 1) as nat)
    }
}

/// The unit a byte count is shown in: the largest of B, KB, MB, GB and TB
/// that it reaches.
pub open spec fn byte_unit(v: nat) -> nat {
    if v >= 1099511627776 {
        4
    } else if v >= 1073741824 {
        3
    } else if v >= 1048576 {
        2
    } else if v >= 1024 {
        1
    } else {
        0
    }
}

pub open spec fn unit_name(k: nat) -> Seq<char> {
    if k == 0 {
        "B"@
    } else if k == 1 {
        "KB"@
    } else if k == 2 {
        "MB"@
    } else if k == 3 {
        "GB"@
    } else {
        "TB"@
    }
}

/// `num / den` in tenths, rounded to the nearest tenth, ties to even.
pub open spec fn tenths(num: nat, den: nat) -> nat
    recommends
        den > 0,
{
    let q = (num * 10) / den;
    let r = (num * 10) % den;
    if 2 * r > den || (2 * r == den && q % 2 == 1) {
        q + 1
    } else {
        q
    }
}

/// A number of tenths written with one decimal.
pub open spec fn one_decimal(t: nat) -> Seq<char> {
    dec(t / 10) + "."@ + seq![digit(t % 10)]
}

/// A byte count for people: whole bytes below 1 KB, else one decimal of
/// the largest unit reached, up to TB.
pub open spec fn bytes_text(v: nat) -> Seq<char> {
    let k = byte_unit(v);
    if k == 0 {
        dec(v) + " B"@
    } else {
        one_decimal(tenths(v, pow1024(k))) + " "@ + unit_name(k)
    }
}

/// `t` tenths is `v / d` to the nearest tenth, a tie going to the even one.
pub open spec fn nearest_tenth(v: nat, d: nat, t: nat) -> bool {
    let diff = 10 * v - t * d;
    ||| 2 * diff < d && -d < 2 * diff
    ||| (2 * diff == d || 2 * diff == -d) && t % 2 == 0
}

/// Whole bytes below 1024; from there on the count in the largest of KB
/// (1024), MB (1024²), GB (1024³) and TB (1024⁴) that it reaches, to the
/// nearest tenth.
pub proof fn law_bytes_text_units(v: nat, t: nat)
    ensures
        v < 1024 ==> bytes_text(v) == dec(v) + " B"@,
        1024 <= v < 1048576 && nearest_tenth(v, 1024, t)
            ==> bytes_text(v) == one_decimal(t) + " KB"@,
        1048576 <= v < 1073741824 && nearest_tenth(v, 1048576, t)
            ==> bytes_text(v) == one_decimal(t) + " MB"@,
        1073741824 <= v < 1099511627776 && nearest_tenth(v, 1073741824, t)
            ==> bytes_text(v) == one_decimal(t) + " GB"@,
        1099511627776 <= v && nearest_tenth(v, 1099511627776, t)
            ==> bytes_text(v) == one_decimal(t) + " TB"@,
{
    reveal_with_fuel(pow1024, 5);
    reveal_strlit(" ");
    reveal_strlit(" B");
    reveal_strlit(" KB");
    reveal_strlit(" MB");
    reveal_strlit(" GB");
    reveal_strlit(" TB");
    reveal_strlit("B");
    reveal_strlit("KB");
    reveal_strlit("MB");
    reveal_strlit("GB");
    reveal_strlit("TB");
    lemma_nearest_tenth(v, 1024, t);
    lemma_nearest_tenth(v, 1048576, t);
    lemma_nearest_tenth(v, 1073741824, t);
    lemma_nearest_tenth(v, 1099511627776, t);
    if 1024 <= v {
        let k = byte_unit(v);
        assert(" "@ + unit_name(k) =~= (if k == 1 { " KB"@ } else if k == 2 { " MB"@ } else if k == 3 {
            " GB"@
        } else {
            " TB"@
        }));
        assert(bytes_text(v) =~= one_decimal(tenths(v, pow1024(k))) + (" "@ + unit_name(k)));
    }
}

/// The nearest tenth is the one `tenths` picks.
proof fn lemma_nearest_tenth(v: nat, d: nat, t: nat)
    requires
        d > 0,
    ensures
        nearest_tenth(v, d, t) ==> tenths(v, d) == t,
{
    if nearest_tenth(v, d, t) {
        let q = (v * 10) / d;
        let r = (v * 10) % d;
        assert(v * 10 == q * d + r && 0 <= r < d) by (nonlinear_arith)
            requires
                d > 0,
                q == (v * 10) / d,
                r == (v * 10) % d,
        ;
        let diff = 10 * v - t * d;
        assert(diff == (q - t) * d + r) by (nonlinear_arith)
            requires
                v * 10 == q * d + r,
                diff == 10 * v - t * d,
        ;
        if t + 1 <= q {
            assert(diff >= d) by (nonlinear_arith)
                requires
                    q - t >= 1,
                    d > 0,
                    r >= 0,
                    diff == (q - t) * d + r,
            ;
        } else if t >= q + 2 {
            assert(diff <= -2 * d + r) by (nonlinear_arith)
                requires
                    t - q >= 2,
                    d > 0,
                    diff == (q - t) * d + r,
            ;
        }
        assert(t == q || t == q + 1);
        if t == q {
            assert(diff == r) by (nonlinear_arith)
                requires
                    t == q,
                    diff == (q - t) * d + r,
            ;
        } else {
            assert(diff == r - d) by (nonlinear_arith)
                requires
                    t == q + 1,
                    diff == (q - t) * d + r,
            ;
        }
    }
}

fn push_one_decimal(out: &mut Vec<char>, t: u128)
    requires
        t <= 10 * (u64::MAX as u128),
    ensures
        final(out)@ == old(out)@ + one_decimal(t as nat),
{
    let whole = t / 10;
    let frac = t % 10;
    push_dec(out, whole as u64);
    out.push('.');
    let d = match crate::strs::char_from_u32(frac as u32 + 48) {
        Some(c) => c,
        None => '0',
    };
    proof {
        assert(d == digit((t % 10) as nat));
    }
    out.push(d);
    proof {
        reveal_strlit(".");
        assert(out@ =~= old(out)@ + one_decimal(t as nat));
    }
}

/// Writes a byte count with a unit.
pub fn format_bytes(value: u64) -> (r: String)
    ensures
        r@ == bytes_text(value as nat),
{
    let mut unit: u32 = 0;
    let mut den: u128 = 1;
    while unit < 4 && (value as u128) >= den * 1024
        invariant
            unit <= 4,
            den == pow1024(unit as nat),
            unit > 0 ==> value as nat >= den,
            unit == 1 ==> den == 1024,
            unit == 2 ==> den == 1048576,
            unit == 3 ==> den == 1073741824,
            unit == 4 ==> den == 1099511627776,
        decreases 4 - unit,
    {
        den = den * 1024;
        unit += 1;
    }
    proof {
        assert(unit as nat == byte_unit(value as nat));
    }
    let mut out: Vec<char> = Vec::new();
    if unit == 0 {
        push_dec(&mut out, value);
        push_str(&mut out, " B");
    } else {
        let num = (value as u128) * 10;
        let q = num / den;
        let rem = num % den;
        let t = if 2 * rem > den || (2 * rem == den && q % 2 == 1) {
            q + 1
        } else {
            q
        };
        proof {
            assert(t == tenths(value as nat, den as nat));
            assert(q <= num / 1024) by (nonlinear_arith)
                requires
                    q == num / den,
                    den >= 1024,
            ;
        }
        push_one_decimal(&mut out, t);
        push_str(&mut out, " ");
        let name = if unit == 1 {
            "KB"
        } else if unit == 2 {
            "MB"
        } else if unit == 3 {
            "GB"
        } else {
            "TB"
        };
        push_str(&mut out, name);
    }
    from_chars(&out)
}

/// The type column of a provider: its vehicle type, or its provider type
/// when the vehicle type is blank or `-`.
pub open spec fn display_type_text(vehicle_type: Seq<char>, provider_type: Seq<char>) -> Seq<
    char,
> {
    if blank(vehicle_type) || vehicle_type == "-"@ {
        provider_type
    } else {
        vehicle_type
    }
}

/// The type column of a provider.
pub fn provider_display_type(vehicle_type: &str, provider_type: &str) -> (r: String)
    ensures
        r@ == display_type_text(vehicle_type@, provider_type@),
{
    if str_blank(vehicle_type) || str_eq(vehicle_type, "-") {
        owned(provider_type)
    } else {
        owned(vehicle_type)
    }
}

/// The update column of a provider: the trimmed time, or `-` when it is
/// missing, blank or the zero time `0001-01-01…`.
pub open spec fn updated_at_text(updated_at: Option<Seq<char>>) -> Seq<char> {
    match updated_at {
        Some(v) => if trim(v).len() > 0 && !starts_with(trim(v), "0001-01-01"@) {
            trim(v)
        } else {
            "-"@
        },
        None => "-"@,
    }
}

/// The update column of a provider.
pub fn display_updated_at(updated_at: Option<&str>) -> (r: String)
    ensures
        r@ == updated_at_text(
            match updated_at {
                Some(v) => Some(v@),
                None => None,
            },
        ),
{
    match updated_at {
        Some(v) => {
            let t = crate::strs::str_trim(v);
            if t.len() > 0 && !chars_starts_with(&t, "0001-01-01") {
                from_chars(&t)
            } else {
                owned("-")
            }
        },
        None => owned("-"),
    }
}

pub open spec fn opt_or_zero(v: Option<u64>) -> nat {
    match v {
        Some(x) => x as nat,
        None => 0,
    }
}

/// `a + b`, at most `u64::MAX`.
pub open spec fn sat_add(a: nat, b: nat) -> nat {
    if a + b > u64::MAX {
        u64::MAX as nat
    } else {
        a + b
    }
}

/// The traffic column: used bytes (upload and download), and against a
/// total the share used in tenths of a percent.
pub open spec fn traffic_text(sub: Option<ProviderSubscriptionInfoRow>) -> Seq<char> {
    match sub {
        None => "-"@,
        Some(s) => {
            let used = sat_add(opt_or_zero(s.upload), opt_or_zero(s.download));
            let total = opt_or_zero(s.total);
            if total == 0 && used == 0 {
                "-"@
            } else if total == 0 {
                bytes_text(used)
            } else {
                let scaled = if used * 1000 > u64::MAX {
                    u64::MAX as nat
                } else {
                    used * 1000
                };
                bytes_text(used) + "/"@ + bytes_text(total) + " "@ + one_decimal(scaled / total)
                    + "%"@
            }
        },
    }
}

/// The traffic column counts upload and download together as used: with a
/// total it reads `used/total share%`, where the share is the used amount
/// in thousandths of the total, rounded down (used at most `u64::MAX`, the
/// product at most `u64::MAX`); without one it reads the used amount.
pub proof fn law_traffic_counts_upload_and_download(up: u64, down: u64, total: u64, expire: Option<u64>)
    ensures
        ({
            let used: nat = if up + down > u64::MAX { u64::MAX as nat } else { (up + down) as nat };
            let s = ProviderSubscriptionInfoRow {
                upload: Some(up),
                download: Some(down),
                total: Some(total),
                expire,
            };
            &&& total > 0 ==> traffic_text(Some(s)) == bytes_text(used) + "/"@ + bytes_text(total as nat) + " "@
                + one_decimal((if used * 1000 > u64::MAX { u64::MAX as nat } else { used * 1000 }) / (total as nat))
                + "%"@
            &&& total == 0 && used > 0 ==> traffic_text(Some(s)) == bytes_text(used)
            &&& total == 0 && used == 0 ==> traffic_text(Some(s)) == "-"@
        }),
{
}

/// Upload and download count alike: swapping them keeps the column.
pub proof fn law_traffic_symmetric(up: Option<u64>, down: Option<u64>, total: Option<u64>, expire: Option<u64>)
    ensures
        traffic_text(Some(ProviderSubscriptionInfoRow { upload: up, download: down, total, expire }))
            == traffic_text(Some(ProviderSubscriptionInfoRow { upload: down, download: up, total, expire })),
{
}

/// The traffic column of a provider.
pub fn format_provider_traffic(subscription: Option<ProviderSubscriptionInfoRow>) -> (r: String)
    ensures
        r@ == traffic_text(subscription),
{
    let s = match subscription {
        None => {
            return owned("-");
        },
        Some(s) => s,
    };
    let up: u64 = match s.upload {
        Some(x) => x,
        None => 0,
    };
    let down: u64 = match s.download {
        Some(x) => x,
        None => 0,
    };
    let used: u64 = if up as u128 + down as u128 > u64::MAX as u128 {
        u64::MAX
    } else {
        up + down
    };
    let total: u64 = match s.total {
        Some(x) => x,
        None => 0,
    };
    if total == 0 && used == 0 {
        return owned("-");
    }
    if total == 0 {
        return format_bytes(used);
    }
    let scaled: u128 = if used as u128 * 1000 > u64::MAX as u128 {
        u64::MAX as u128
    } else {
        used as u128 * 1000
    };
    let share = scaled / total as u128;
    proof {
        assert(share <= scaled) by (nonlinear_arith)
            requires
                share == scaled / (total as u128),
                total >= 1,
        ;
    }
    let mut out = to_chars(format_bytes(used).as_str());
    push_str(&mut out, "/");
    push_str(&mut out, format_bytes(total).as_str());
    push_str(&mut out, " ");
    push_one_decimal(&mut out, share);
    push_str(&mut out, "%");
    from_chars(&out)
}

/// The expiry column at time `now_secs`: `-` without an expiry, `已到期`
/// once passed, else the whole days left (`今天`, or `长期有效` beyond
/// ten years).
pub open spec fn expire_text(sub: Option<ProviderSubscriptionInfoRow>, now: nat) -> Seq<char> {
    let expire = match sub {
        Some(s) => opt_or_zero(s.expire),
        None => 0,
    };
    if expire == 0 {
        "-"@
    } else if expire <= now {
        "已到期"@
    } else {
        let days = ((expire - now) as nat) / 86400;
        if days == 0 {
            "今天"@
        } else if days > 3650 {
            "长期有效"@
        } else {
            dec(days) + "天"@
        }
    }
}

/// The expiry column of a provider at time `now_secs`.
pub fn format_provider_expire(subscription: Option<ProviderSubscriptionInfoRow>, now_secs: u64) -> (r:
    String)
    ensures
        r@ == expire_text(subscription, now_secs as nat),
{
    let expire: u64 = match subscription {
        Some(s) => match s.expire {
            Some(e) => e,
            None => 0,
        },
        None => 0,
    };
    if expire == 0 {
        return owned("-");
    }
    if expire <= now_secs {
        return owned("已到期");
    }
    let days = (expire - now_secs) / 86400;
    if days == 0 {
        owned("今天")
    } else if days > 3650 {
        owned("长期有效")
    } else {
        let mut out: Vec<char> = Vec::new();
        push_dec(&mut out, days);
        push_str(&mut out, "天");
        from_chars(&out)
    }
}

/// The box of the provider dialog inside `area`: 88% of the width, at least
/// 78 cells where the area allows and at most the width less 4; the height
/// less 4, kept between 16 and 28 rows.
pub open spec fn dialog_rect_spec(area: Rect) -> Rect {
    let max_width: int = if area.width >= 5 {
        area.width - 4
    } else {
        1
    };
    let min_width: int = if 78 <= max_width {
        78
    } else {
        max_width
    };
    let scaled: int = if area.width * 88 > 65535 {
        65535
    } else {
        area.width * 88
    };
    let w0 = scaled / 100;
    let width: int = if w0 < min_width {
        min_width
    } else if w0 > max_width {
        max_width
    } else {
        w0
    };
    let h0: int = if area.height >= 4 {
        area.height - 4
    } else {
        0
    };
    let height: int = if h0 < 16 {
        16
    } else if h0 > 28 {
        28
    } else {
        h0
    };
    let free_w: int = if area.width >= width {
        area.width - width
    } else {
        0
    };
    let free_h: int = if area.height >= height {
        area.height - height
    } else {
        0
    };
    Rect {
        x: (area.x + free_w / 2) as u16,
        y: (area.y + free_h / 2) as u16,
        width: width as u16,
        height: height as u16,
    }
}

/// Places the provider dialog in the middle of `area`.
pub fn modal_rect(area: Rect) -> (r: Rect)
    requires
        area.x + area.width <= u16::MAX,
        area.y + area.height <= u16::MAX,
    ensures
        r == dialog_rect_spec(area),
{
    let max_width: u16 = if area.width >= 5 {
        area.width - 4
    } else {
        1
    };
    let min_width: u16 = if 78 <= max_width {
        78
    } else {
        max_width
    };
    let product: u32 = area.width as u32 * 88;
    let scaled: u16 = if product > 65535 {
        65535
    } else {
        product as u16
    };
    let w0 = scaled / 100;
    let width: u16 = if w0 < min_width {
        min_width
    } else if w0 > max_width {
        max_width
    } else {
        w0
    };
    let h0: u16 = if area.height >= 4 {
        area.height - 4
    } else {
        0
    };
    let height: u16 = if h0 < 16 {
        16
    } else if h0 > 28 {
        28
    } else {
        h0
    };
    let free_w: u16 = if area.width >= width {
        area.width - width
    } else {
        0
    };
    let free_h: u16 = if area.height >= height {
        area.height - height
    } else {
        0
    };
    Rect { x: area.x + free_w / 2, y: area.y + free_h / 2, width, height }
}

/// The rows a provider table can show in `area`: its height less the
/// header, at least one.
pub fn table_row_count(area: Rect) -> (r: usize)
    ensures
        r == (if area.height >= 2 {
            area.height - 1
        } else {
            1
        }),
{
    if area.height >= 2 {
        (area.height - 1) as usize
    } else {
        1
    }
}

/// What is done to a provider.
#[derive(Debug, Clone, Copy, PartialEq, Eq, Structural)]
pub enum ProviderOperation {
    Update,
    Healthcheck,
}

/// The word for a provider operation.
pub fn provider_operation_label(operation: ProviderOperation) -> (r: &'static str)
    ensures
        r@ == (match operation {
            ProviderOperation::Update => "更新"@,
            ProviderOperation::Healthcheck => "测速"@,
        }),
{
    match operation {
        ProviderOperation::Update => "更新",
        ProviderOperation::Healthcheck => "测速",
    }
}

/// The key under which feedback about a provider is kept: the dialog
/// kind's prefix, a colon and the provider's name.
pub fn provider_feedback_key(kind: ProviderDialogKind, provider: &str) -> (r: String)
    ensures
        r@ == (match kind {
            ProviderDialogKind::Proxy => "proxy"@,
            ProviderDialogKind::Rule => "rule"@,
        }) + ":"@ + provider@,
{
    let mut v = to_chars(kind.feedback_prefix());
    push_str(&mut v, ":");
    push_str(&mut v, provider);
    from_chars(&v)
}

/// The provider dialog as values: its box, title, the three lines above
/// the table, the table's header and rows, which shown row is selected,
/// the text shown in place of an empty table, and the scrollbar's total,
/// shown rows and first shown row.
#[derive(Debug)]
pub struct ProviderDialogPage {
    pub area: Rect,
    pub title: &'static str,
    pub lines: Vec<String>,
    pub header: Vec<&'static str>,
    pub rows: Vec<Vec<String>>,
    pub selected: Option<usize>,
    pub empty: Option<&'static str>,
    pub scroll: (usize, usize, usize),
}

/// The rows the dialog's table shows: the box less its border (two rows),
/// the three lines and the header row.
pub open spec fn dialog_table_rows(m: Rect) -> int {
    if m.height >= 7 {
        m.height - 6
    } else {
        1
    }
}

/// The width of the lines above the table: the box less its border, at
/// least one cell.
pub open spec fn dialog_line_width(m: Rect) -> int {
    if m.width >= 3 {
        m.width - 2
    } else {
        1
    }
}

/// The name of the provider under the cursor, or `未选择`.
pub open spec fn selected_provider_text(app: TuiApp, kind: ProviderDialogKind) -> Seq<char> {
    match (match kind {
        ProviderDialogKind::Proxy => selected_proxy_provider(app),
        ProviderDialogKind::Rule => selected_rule_provider(app),
    }) {
        Some(n) => n@,
        None => "未选择"@,
    }
}

pub open spec fn kind_label_text(kind: ProviderDialogKind) -> Seq<char> {
    match kind {
        ProviderDialogKind::Proxy => "代理 Provider"@,
        ProviderDialogKind::Rule => "规则 Provider"@,
    }
}

/// The lines above the dialog's table.
pub open spec fn dialog_head_lines(app: TuiApp, kind: ProviderDialogKind, w: nat) -> Seq<Seq<char>> {
    seq![
        fit_text(
            kind_label_text(kind) + "："@ + dec(provider_count(app, kind)) + " 个 | 当前："@
                + selected_provider_text(app, kind),
            w,
        ),
        fit_text("操作：↑↓ 选择 | Enter/u 更新选中 | a 更新全部 | r 刷新 | Esc 关闭"@, w),
        Seq::empty(),
    ]
}

/// The feedback column of a provider: its last recorded outcome, or `-`.
pub open spec fn feedback_text(app: TuiApp, kind: ProviderDialogKind, name: Seq<char>) -> Seq<char> {
    text_or_dash(table_get(feedback_views(app.provider_operation_feedback@), feedback_key(kind, name)), "-"@)
}

/// The cells of proxy provider `i` at time `now`.
pub open spec fn proxy_provider_cells(app: TuiApp, i: usize, now: nat) -> Seq<Seq<char>> {
    let p = app.proxy_providers@[i as int];
    seq![
        if i == app.proxy_provider_index {
            ">"@
        } else {
            " "@
        },
        stable_text(p.name@),
        dec(p.proxy_count as nat),
        stable_text(display_type_text(p.vehicle_type@, p.provider_type@)),
        stable_text(traffic_text(p.subscription)),
        stable_text(expire_text(p.subscription, now)),
        stable_text(updated_at_text(crate::navigation::opt_view(p.updated_at))),
        stable_text(feedback_text(app, ProviderDialogKind::Proxy, p.name@)),
    ]
}

/// The cells of rule provider `i`.
pub open spec fn rule_provider_cells(app: TuiApp, i: usize) -> Seq<Seq<char>> {
    let p = app.rule_providers@[i as int];
    seq![
        if i == app.rule_provider_index {
            ">"@
        } else {
            " "@
        },
        stable_text(p.name@),
        dec(p.rule_count as nat),
        stable_text(display_type_text(p.vehicle_type@, p.provider_type@)),
        stable_text(p.behavior@),
        stable_text(p.format@),
        stable_text(updated_at_text(crate::navigation::opt_view(p.updated_at))),
        stable_text(feedback_text(app, ProviderDialogKind::Rule, p.name@)),
    ]
}

/// The positions `0..n`.
pub open spec fn positions(n: nat) -> Seq<usize> {
    Seq::new(n, |i: int| i as usize)
}

/// The cursor of the dialog's list.
pub open spec fn dialog_cursor(app: TuiApp, kind: ProviderDialogKind) -> usize {
    match kind {
        ProviderDialogKind::Proxy => app.proxy_provider_index,
        ProviderDialogKind::Rule => app.rule_provider_index,
    }
}

fn all_positions(n: usize) -> (r: Vec<usize>)
    ensures
        r@ == positions(n as nat),
{
    let mut v: Vec<usize> = Vec::new();
    let mut i: usize = 0;
    while i < n
        invariant
            i <= n,
            v@ == positions(i as nat),
        decreases n - i,
    {
        v.push(i);
        proof {
            assert(v@ =~= positions((i + 1) as nat));
        }
        i += 1;
    }
    v
}

fn feedback_cell(app: &TuiApp, kind: ProviderDialogKind, name: &str) -> (r: String)
    ensures
        r@ == stable_text(feedback_text(*app, kind, name@)),
{
    match app.provider_feedback(kind, name) {
        Some(f) => table_cell_text(f.as_str()),
        None => table_cell_text("-"),
    }
}

fn updated_cell(updated_at: &Option<String>) -> (r: String)
    ensures
        r@ == stable_text(updated_at_text(crate::navigation::opt_view(*updated_at))),
{
    let u: Option<&str> = match updated_at {
        Some(t) => Some(t.as_str()),
        None => None,
    };
    let shown = display_updated_at(u);
    table_cell_text(shown.as_str())
}

/// The provider dialog of `app` in `area` at time `now_secs`; `None` while
/// no dialog is open.
pub fn provider_dialog_page(app: &TuiApp, area: Rect, now_secs: u64) -> (r: Option<ProviderDialogPage>)
    requires
        area.x + area.width <= u16::MAX,
        area.y + area.height <= u16::MAX,
    ensures
        r is None <==> app.provider_dialog is None,
        r matches Some(p) ==> app.provider_dialog matches Some(kind) && {
            let m = dialog_rect_spec(area);
            let n = provider_count(*app, kind);
            let max = dialog_table_rows(m) as nat;
            let win = window_of(positions(n), dialog_cursor(*app, kind), max);
            &&& p.area == m
            &&& p.title@ == (match kind {
                ProviderDialogKind::Proxy => "Proxy Provider"@,
                ProviderDialogKind::Rule => "Rule Provider"@,
            })
            &&& views(p.lines@) == dialog_head_lines(*app, kind, dialog_line_width(m) as nat)
            &&& str_views(p.header@) == (match kind {
                ProviderDialogKind::Proxy => seq![""@, "名称"@, "节点"@, "类型"@, "流量"@, "到期"@, "更新"@, "状态"@],
                ProviderDialogKind::Rule => seq![""@, "名称"@, "规则"@, "类型"@, "行为"@, "格式"@, "更新"@, "状态"@],
            })
            &&& p.rows@.len() == win.len()
            &&& forall|k: int|
                0 <= k < win.len() ==> views(#[trigger] p.rows@[k]@) == (match kind {
                    ProviderDialogKind::Proxy => proxy_provider_cells(*app, win[k], now_secs as nat),
                    ProviderDialogKind::Rule => rule_provider_cells(*app, win[k]),
                })
            &&& match position(win, dialog_cursor(*app, kind)) {
                Some(k) => p.selected == Some(k as usize),
                None => p.selected is None,
            }
            &&& p.scroll == (n as usize, max as usize, window_start(positions(n), dialog_cursor(*app, kind), max) as usize)
            &&& if n == 0 {
                p.empty matches Some(e) && e@ == (match kind {
                    ProviderDialogKind::Proxy => "当前配置没有 Proxy Provider"@,
                    ProviderDialogKind::Rule => "当前配置没有 Rule Provider"@,
                })
            } else {
                p.empty is None
            }
        },
{
    let kind = match app.provider_dialog {
        Some(k) => k,
        None => {
            return None;
        },
    };
    let m = modal_rect(area);
    let width: usize = if m.width >= 3 {
        (m.width - 2) as usize
    } else {
        1
    };
    let selected_name = match app.selected_provider_name(kind) {
        Some(n) => n,
        None => owned("未选择"),
    };
    let count = app.provider_len(kind);
    let mut v = to_chars(kind.label());
    push_str(&mut v, "：");
    push_usize(&mut v, count);
    push_str(&mut v, " 个 | 当前：");
    push_str(&mut v, selected_name.as_str());
    let first = from_chars(&v);
    let lines = vec![
        fit_display_width(first.as_str(), width),
        fit_display_width("操作：↑↓ 选择 | Enter/u 更新选中 | a 更新全部 | r 刷新 | Esc 关闭", width),
        String::new(),
    ];
    proof {
        assert(views(lines@) =~= dialog_head_lines(*app, kind, width as nat));
    }
    let header: Vec<&'static str> = match kind {
        ProviderDialogKind::Proxy => vec!["", "名称", "节点", "类型", "流量", "到期", "更新", "状态"],
        ProviderDialogKind::Rule => vec!["", "名称", "规则", "类型", "行为", "格式", "更新", "状态"],
    };
    proof {
        assert(str_views(header@) =~= (match kind {
            ProviderDialogKind::Proxy => seq![""@, "名称"@, "节点"@, "类型"@, "流量"@, "到期"@, "更新"@, "状态"@],
            ProviderDialogKind::Rule => seq![""@, "名称"@, "规则"@, "类型"@, "行为"@, "格式"@, "更新"@, "状态"@],
        }));
    }
    let max_rows: usize = if m.height >= 7 {
        (m.height - 6) as usize
    } else {
        1
    };
    let cursor = match kind {
        ProviderDialogKind::Proxy => app.proxy_provider_index,
        ProviderDialogKind::Rule => app.rule_provider_index,
    };
    let all = all_positions(count);
    let (win, offset) = visible_indices_with_offset(all.as_slice(), cursor, max_rows);
    let mut rows: Vec<Vec<String>> = Vec::new();
    let mut k: usize = 0;
    while k < win.len()
        invariant
            k <= win.len(),
            count == provider_count(*app, kind),
            cursor == dialog_cursor(*app, kind),
            app.provider_dialog == Some(kind),
            win@ == window_of(positions(count as nat), cursor, max_rows as nat),
            forall|j: int| 0 <= j < win@.len() ==> #[trigger] win@[j] < count,
            rows@.len() == k,
            forall|j: int|
                0 <= j < k ==> views(#[trigger] rows@[j]@) == (match kind {
                    ProviderDialogKind::Proxy => proxy_provider_cells(*app, win@[j], now_secs as nat),
                    ProviderDialogKind::Rule => rule_provider_cells(*app, win@[j]),
                }),
        decreases win.len() - k,
    {
        let i = win[k];
        let marker = if i == cursor {
            owned(">")
        } else {
            owned(" ")
        };
        let cells = match kind {
            ProviderDialogKind::Proxy => {
                let p = &app.proxy_providers[i];
                let kind_text = provider_display_type(p.vehicle_type.as_str(), p.provider_type.as_str());
                let traffic = format_provider_traffic(p.subscription);
                let expire = format_provider_expire(p.subscription, now_secs);
                let cells = vec![
                    marker,
                    table_cell_text(p.name.as_str()),
                    crate::strs::dec_string(p.proxy_count as u64),
                    table_cell_text(kind_text.as_str()),
                    table_cell_text(traffic.as_str()),
                    table_cell_text(expire.as_str()),
                    updated_cell(&p.updated_at),
                    feedback_cell(app, ProviderDialogKind::Proxy, p.name.as_str()),
                ];
                proof {
                    assert(views(cells@) =~= proxy_provider_cells(*app, i, now_secs as nat));
                }
                cells
            },
            ProviderDialogKind::Rule => {
                let p = &app.rule_providers[i];
                let kind_text = provider_display_type(p.vehicle_type.as_str(), p.provider_type.as_str());
                let cells = vec![
                    marker,
                    table_cell_text(p.name.as_str()),
                    crate::strs::dec_string(p.rule_count as u64),
                    table_cell_text(kind_text.as_str()),
                    table_cell_text(p.behavior.as_str()),
                    table_cell_text(p.format.as_str()),
                    updated_cell(&p.updated_at),
                    feedback_cell(app, ProviderDialogKind::Rule, p.name.as_str()),
                ];
                proof {
                    assert(views(cells@) =~= rule_provider_cells(*app, i));
                }
                cells
            },
        };
        rows.push(cells);
        k += 1;
    }
    let selected = index_position(win.as_slice(), cursor);
    let empty: Option<&'static str> = if count > 0 {
        None
    } else {
        match kind {
            ProviderDialogKind::Proxy => Some("当前配置没有 Proxy Provider"),
            ProviderDialogKind::Rule => Some("当前配置没有 Rule Provider"),
        }
    };
    Some(ProviderDialogPage {
        area: m,
        title: kind.title(),
        lines,
        header,
        rows,
        selected,
        empty,
        scroll: (count, max_rows, offset),
    })
}

} // verus!
