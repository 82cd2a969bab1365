//! Where the dashboard's panels and popups go, and the tone in which a
//! node's delay and liveness are shown.
use vstd::prelude::*;
use crate::frame::Rect;

verus! {

pub open spec fn sat_add(a: int, b: int) -> int {
    if a + b > 65535 {
        65535
    } else {
        a + b
    }
}

pub open spec fn sat_sub(a: int, b: int) -> int {
    if a >= b {
        a - b
    } else {
        0
    }
}

pub open spec fn min_int(a: int, b: int) -> int {
    if a <= b {
        a
    } else {
        b
    }
}

pub open spec fn max_int(a: int, b: int) -> int {
    if a >= b {
        a
    } else {
        b
    }
}

/// A rectangle whose width and height are cut so that its right and
/// bottom edges stay within `u16` (ratatui's `Rect::new`).
pub open spec fn rect_of(x: int, y: int, width: int, height: int) -> Rect {
    Rect {
        x: x as u16,
        y: y as u16,
        width: min_int(width, 65535 - x) as u16,
        height: min_int(height, 65535 - y) as u16,
    }
}

pub fn rect_new(x: u16, y: u16, width: u16, height: u16) -> (r: Rect)
    ensures
        r == rect_of(x as int, y as int, width as int, height as int),
{
    let max_width = u16::MAX - x;
    let max_height = u16::MAX - y;
    Rect {
        x,
        y,
        width: if width > max_width { max_width } else { width },
        height: if height > max_height { max_height } else { height },
    }
}

/// The node popup of the dashboard: from one cell left of the proxy
/// panel (but inside the bounds) to the right edge of the bounds, from
/// five rows below the panel's top (raised to leave seven rows where it
/// can) down at most `desired_height` rows, and at least seven where
/// there is room.
pub open spec fn popup_rect_of(bounds: Rect, proxy_area: Rect, desired_height: int) -> Rect {
    let x = max_int(sat_sub(proxy_area.x as int, 1), sat_add(bounds.x as int, 1));
    let max_right = sat_add(bounds.x as int, bounds.width as int);
    let width = max_int(sat_sub(max_right, x), 1);
    let max_bottom = sat_add(bounds.y as int, bounds.height as int);
    let y = min_int(sat_add(proxy_area.y as int, 5), sat_sub(max_bottom, 7));
    let available_height = max_int(sat_sub(max_bottom, y), 1);
    let height = max_int(min_int(desired_height, available_height), min_int(available_height, 7));
    rect_of(x, y, width, height)
}

pub fn popup_rect(bounds: Rect, proxy_area: Rect, desired_height: u16) -> (r: Rect)
    ensures
        r == popup_rect_of(bounds, proxy_area, desired_height as int),
{
    let min_width: u16 = 36;
    let min_height: u16 = 7;
    let left = proxy_area.x.saturating_sub(1);
    let inner_left = bounds.x.saturating_add(1);
    let x = if left >= inner_left { left } else { inner_left };
    let max_right = bounds.x.saturating_add(bounds.width);
    let available_width = max_right.saturating_sub(x);
    let width = if available_width >= min_width {
        available_width
    } else if available_width >= 1 {
        available_width
    } else {
        1
    };
    let preferred_y = proxy_area.y.saturating_add(5);
    let max_bottom = bounds.y.saturating_add(bounds.height);
    let lowest = max_bottom.saturating_sub(min_height);
    let y = if preferred_y <= lowest { preferred_y } else { lowest };
    let below = max_bottom.saturating_sub(y);
    let available_height = if below >= 1 { below } else { 1 };
    let wanted = if desired_height <= available_height { desired_height } else { available_height };
    let floor = if available_height <= min_height { available_height } else { min_height };
    let height = if wanted >= floor { wanted } else { floor };
    rect_new(x, y, width, height)
}

/// The node popup stays inside its bounds: it ends at their right edge,
/// does not reach below their bottom, and is at least one row high, as
/// long as the bounds are two cells wide and seven rows high and the
/// proxy panel starts left of their right edge.
pub proof fn law_popup_inside_bounds(bounds: Rect, proxy_area: Rect, desired_height: u16)
    requires
        bounds.x + bounds.width <= u16::MAX,
        bounds.y + bounds.height <= u16::MAX,
        bounds.width >= 2,
        bounds.height >= 7,
        proxy_area.x < bounds.x + bounds.width,
    ensures
        ({
            let r = popup_rect_of(bounds, proxy_area, desired_height as int);
            &&& r.x + r.width == bounds.x + bounds.width
            &&& r.y + r.height <= bounds.y + bounds.height
            &&& r.height >= 1
        }),
{
}

/// A dashboard panel: its whole box and the body inside its border and
/// title.
#[derive(Debug, Clone, Copy, PartialEq, Eq, Structural)]
pub struct DashboardSection {
    pub raw: Rect,
    pub body: Rect,
}

pub open spec fn section_of(raw: Rect) -> DashboardSection {
    DashboardSection {
        raw,
        body: rect_of(
            sat_add(raw.x as int, 2),
            sat_add(raw.y as int, 2),
            sat_sub(raw.width as int, 4),
            sat_sub(raw.height as int, 3),
        ),
    }
}

/// The body of a panel: two cells in from the left and top, four
/// narrower and three lower.
pub fn dashboard_section(raw: Rect) -> (r: DashboardSection)
    ensures
        r == section_of(raw),
{
    DashboardSection {
        raw,
        body: rect_new(
            raw.x.saturating_add(2),
            raw.y.saturating_add(2),
            raw.width.saturating_sub(4),
            raw.height.saturating_sub(3),
        ),
    }
}

/// The row at which the dashboard's cross lies below the top: three
/// fifths of the height, kept between 5 and the height less 3.
pub open spec fn top_height_of(height: int) -> int {
    let h = height * 3 / 5;
    let hi = max_int(sat_sub(height, 3), 1);
    if h < 5 {
        5
    } else if h > hi {
        hi
    } else {
        h
    }
}

/// The four panels of the dashboard around a cross: the vertical line at
/// half the width, the horizontal one at `top_height_of` rows.
pub open spec fn dashboard_cells_of(inner: Rect) -> (DashboardSection, DashboardSection, DashboardSection, DashboardSection) {
    let left_width = max_int(inner.width as int / 2, 1);
    let cross_x = inner.x + left_width;
    let cross_y = inner.y + top_height_of(inner.height as int);
    let left_w = sat_sub(cross_x, inner.x as int);
    let right_w = sat_sub(sat_add(inner.x as int, inner.width as int), sat_add(cross_x, 1));
    let top_h = sat_sub(cross_y, inner.y as int);
    let bottom_h = sat_sub(sat_add(inner.y as int, inner.height as int), sat_add(cross_y, 1));
    (
        section_of(rect_of(inner.x as int, inner.y as int, left_w, top_h)),
        section_of(rect_of(sat_add(cross_x, 1), inner.y as int, right_w, top_h)),
        section_of(rect_of(inner.x as int, sat_add(cross_y, 1), left_w, bottom_h)),
        section_of(rect_of(sat_add(cross_x, 1), sat_add(cross_y, 1), right_w, bottom_h)),
    )
}

/// Splits the dashboard into its four panels. The area must be at least
/// 8 rows high (below that the row clamp has no range) and its cross must
/// lie within `u16`.
pub fn dashboard_cells(inner: Rect) -> (r: (DashboardSection, DashboardSection, DashboardSection, DashboardSection))
    requires
        inner.height >= 8,
        inner.x + inner.width / 2 + 1 <= u16::MAX,
        inner.y + inner.height <= u16::MAX,
    ensures
        r == dashboard_cells_of(inner),
{
    let half = inner.width / 2;
    let left_width: u16 = if half >= 1 { half } else { 1 };
    let scaled: u32 = (inner.height as u32) * 3 / 5;
    let top: u16 = scaled as u16;
    let hi_raw = inner.height.saturating_sub(3);
    let hi: u16 = if hi_raw >= 1 { hi_raw } else { 1 };
    let top_height: u16 = if top < 5 {
        5
    } else if top > hi {
        hi
    } else {
        top
    };
    assert(top_height == top_height_of(inner.height as int));
    let cross_x = inner.x + left_width;
    let cross_y = inner.y + top_height;
    let left_w = cross_x.saturating_sub(inner.x);
    let right_w = inner.x.saturating_add(inner.width).saturating_sub(cross_x.saturating_add(1));
    let top_h = cross_y.saturating_sub(inner.y);
    let bottom_h = inner.y.saturating_add(inner.height).saturating_sub(cross_y.saturating_add(1));
    (
        dashboard_section(rect_new(inner.x, inner.y, left_w, top_h)),
        dashboard_section(rect_new(cross_x.saturating_add(1), inner.y, right_w, top_h)),
        dashboard_section(rect_new(inner.x, cross_y.saturating_add(1), left_w, bottom_h)),
        dashboard_section(rect_new(cross_x.saturating_add(1), cross_y.saturating_add(1), right_w, bottom_h)),
    )
}

/// The title line of a split proxy page widened by one cell on each side
/// (within `u16`).
pub fn split_title_line_rect(inner_title_line: Rect) -> (r: Rect)
    ensures
        r == rect_of(
            sat_sub(inner_title_line.x as int, 1),
            inner_title_line.y as int,
            sat_sub(
                sat_add(sat_add(inner_title_line.x as int, inner_title_line.width as int), 1),
                sat_sub(inner_title_line.x as int, 1),
            ),
            inner_title_line.height as int,
        ),
{
    let left = inner_title_line.x.saturating_sub(1);
    let right = inner_title_line.x.saturating_add(inner_title_line.width).saturating_add(1);
    rect_new(left, inner_title_line.y, right.saturating_sub(left), inner_title_line.height)
}

/// The tone in which a value is shown.
#[derive(Debug, Clone, Copy, PartialEq, Eq, Structural)]
pub enum Tone {
    Good,
    Slow,
    Muted,
}

/// A delay under 180 ms is good, a positive one below 10 s slow, zero or
/// 10 s and more too; a negative or unknown delay is muted.
pub open spec fn delay_tone_of(delay: Option<i64>) -> Tone {
    match delay {
        Some(v) => if 0 < v < 180 {
            Tone::Good
        } else if v >= 0 {
            Tone::Slow
        } else {
            Tone::Muted
        },
        None => Tone::Muted,
    }
}

pub fn proxy_delay_tone(delay: Option<i64>) -> (r: Tone)
    ensures
        r == delay_tone_of(delay),
{
    match delay {
        Some(value) => {
            if value > 0 && value < 180 {
                Tone::Good
            } else if value > 0 && value < 10_000 {
                Tone::Slow
            } else if value == 0 || value >= 10_000 {
                Tone::Slow
            } else {
                Tone::Muted
            }
        },
        None => Tone::Muted,
    }
}

/// A live node is good, a dead one a warning, an unknown one muted.
pub fn alive_tone(alive: Option<bool>) -> (r: Tone)
    ensures
        r == (match alive {
            Some(true) => Tone::Good,
            Some(false) => Tone::Slow,
            None => Tone::Muted,
        }),
{
    match alive {
        Some(true) => Tone::Good,
        Some(false) => Tone::Slow,
        None => Tone::Muted,
    }
}

} // verus!
