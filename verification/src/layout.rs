//! Fitting text into terminal cells, table text, symbols and theme colours.
use vstd::prelude::*;
use vstd::string::*;
use crate::strs::{chars_sub, from_chars, is_ws, owned, push_str, push_dec_i64, dec_int, to_chars, char_is_ws};
use crate::text::{safe_text, terminal_safe_text};

verus! {

/// The display width (terminal cells) that `ratatui::text::Span::width`
/// gives for a text.
pub uninterp spec fn span_width(text: Seq<char>) -> usize;

/// Calls `ratatui::text::Span::width` on a raw span of the text. The width
/// itself comes from the Unicode width tables; the contract only names it.
#[verifier::external_body]
fn span_width_of(value: &str) -> (w: usize)
    ensures
        w == span_width(value@),
{
    ratatui::text::Span::raw(value).width()
}

/// The text as the terminal shows it.
pub fn display_text(value: &str) -> (r: String)
    ensures
        r@ == value@,
{
    owned(value)
}

/// Display width of a text in terminal cells.
pub fn display_width(value: &str) -> (w: usize)
    ensures
        w == span_width(value@),
{
    let shown = display_text(value);
    span_width_of(shown.as_str())
}

/// How many leading characters of `s`, scanning from `i`, keep the display
/// width within `width`: the scan stops at the first prefix that is wider.
pub open spec fn kept_chars(s: Seq<char>, width: nat, i: nat) -> nat
    decreases s.len() - i,
{
    if i >= s.len() {
        s.len()
    } else if span_width(s.take(i + 1 as int)) > width {
        i
    } else {
        kept_chars(s, width, i + 1)
    }
}

/// The longest prefix whose every shorter-or-equal prefix fits `width`.
pub open spec fn take_width(s: Seq<char>, width: nat) -> Seq<char> {
    s.take(kept_chars(s, width, 0) as int)
}

/// The leading characters of `value` that fit in `width` cells.
pub fn take_display_width(value: &str, width: usize) -> (r: String)
    ensures
        r@ == take_width(value@, width as nat),
{
    let chars = to_chars(value);
    let mut i: usize = 0;
    while i < chars.len()
        invariant
            i <= chars.len(),
            chars@ == value@,
            kept_chars(value@, width as nat, 0) == kept_chars(value@, width as nat, i as nat),
        decreases chars.len() - i,
    {
        let prefix = from_chars(&chars_sub(&chars, 0, i + 1));
        if display_width(prefix.as_str()) > width {
            return from_chars(&chars_sub(&chars, 0, i));
        }
        i += 1;
    }
    from_chars(&chars_sub(&chars, 0, i))
}

proof fn lemma_kept_chars(s: Seq<char>, width: nat, i: nat)
    requires
        i <= s.len(),
    ensures
        i <= kept_chars(s, width, i) <= s.len(),
        kept_chars(s, width, i) > i ==> span_width(s.take(kept_chars(s, width, i) as int))
            <= width,
    decreases s.len() - i,
{
    if i < s.len() && span_width(s.take(i + 1 as int)) <= width {
        lemma_kept_chars(s, width, i + 1);
    }
}

/// What `take_display_width` keeps is a prefix of the text, and, unless it
/// is empty, its display width is within the limit.
pub proof fn law_take_display_width_fits(s: Seq<char>, width: nat)
    ensures
        s.len() >= take_width(s, width).len(),
        take_width(s, width) == s.take(take_width(s, width).len() as int),
        take_width(s, width).len() > 0 ==> span_width(take_width(s, width)) <= width,
{
    lemma_kept_chars(s, width, 0);
}

/// `value` fitted into `width` cells: unchanged when it fits, else cut,
/// with `...` at the end when there are more than three cells.
pub open spec fn fit_text(s: Seq<char>, width: nat) -> Seq<char> {
    if span_width(s) <= width {
        s
    } else if width <= 3 {
        take_width(s, width)
    } else {
        take_width(s, (width - 3) as nat) + "..."@
    }
}

/// Fits a text into `width` terminal cells.
pub fn fit_display_width(value: &str, width: usize) -> (r: String)
    ensures
        r@ == fit_text(value@, width as nat),
{
    let shown = display_text(value);
    if display_width(shown.as_str()) <= width {
        return shown;
    }
    if width <= 3 {
        return take_display_width(shown.as_str(), width);
    }
    let cut = take_display_width(shown.as_str(), width - 3);
    let mut v = to_chars(cut.as_str());
    push_str(&mut v, "...");
    from_chars(&v)
}

pub open spec fn spaces(n: nat) -> Seq<char> {
    Seq::new(n, |_i: int| ' ')
}

/// `value` padded with spaces to `width` cells, or fitted when it is not
/// narrower.
pub open spec fn pad_text(s: Seq<char>, width: nat) -> Seq<char> {
    if span_width(s) >= width {
        fit_text(s, width)
    } else {
        s + spaces((width - span_width(s)) as nat)
    }
}

/// Pads a text with spaces on the right to `width` terminal cells.
pub fn pad_right_display(value: &str, width: usize) -> (r: String)
    ensures
        r@ == pad_text(value@, width as nat),
{
    let shown = display_text(value);
    let w = display_width(shown.as_str());
    if w >= width {
        return fit_display_width(shown.as_str(), width);
    }
    let mut v = to_chars(shown.as_str());
    let ghost start = v@;
    let mut k: usize = 0;
    while k < width - w
        invariant
            k <= width - w,
            v@ == start + spaces(k as nat),
        decreases width - w - k,
    {
        v.push(' ');
        k += 1;
        proof {
            assert(v@ =~= start + spaces(k as nat));
        }
    }
    from_chars(&v)
}

/// Characters that terminals draw with unpredictable widths (emoji,
/// variation selectors, joiners, regional indicators).
pub open spec fn unstable_icon(c: char) -> bool {
    let u = c as u32;
    ||| u == 0x200d
    ||| 0xfe00 <= u <= 0xfe0f
    ||| 0x2600 <= u <= 0x27bf
    ||| 0x1f1e6 <= u <= 0x1f1ff
    ||| 0x1f300 <= u <= 0x1faff
}

/// Whether a character is one terminals draw with unpredictable width.
pub fn is_unstable_terminal_icon(ch: char) -> (b: bool)
    ensures
        b == unstable_icon(ch),
{
    let u = ch as u32;
    u == 0x200d || (0xfe00 <= u && u <= 0xfe0f) || (0x2600 <= u && u <= 0x27bf) || (0x1f1e6 <= u
        && u <= 0x1f1ff) || (0x1f300 <= u && u <= 0x1faff)
}

/// The text without unstable icons.
pub open spec fn without_icons(s: Seq<char>) -> Seq<char> {
    s.filter(|c: char| !unstable_icon(c))
}

/// The words of `s` (maximal runs without whitespace) joined by one space
/// (`split_whitespace().join(" ")`): a character that follows whitespace
/// starts a new word, separated by a space from what came before.
pub open spec fn squash_ws(s: Seq<char>) -> Seq<char>
    decreases s.len(),
{
    if s.len() == 0 {
        s
    } else if is_ws(s.last()) {
        squash_ws(s.drop_last())
    } else if s.len() >= 2 && is_ws(s[s.len() - 2]) && squash_ws(s.drop_last()).len() > 0 {
        squash_ws(s.drop_last()).push(' ').push(s.last())
    } else {
        squash_ws(s.drop_last()).push(s.last())
    }
}

/// Table text: terminal-safe, without unstable icons, whitespace runs
/// squashed to one space, and `-` when nothing is left.
pub open spec fn stable_text(s: Seq<char>) -> Seq<char> {
    let compact = squash_ws(without_icons(safe_text(s)));
    if compact.len() == 0 {
        "-"@
    } else {
        compact
    }
}

fn chars_without_icons(s: &[char]) -> (r: Vec<char>)
    ensures
        r@ == without_icons(s@),
{
    let mut r: Vec<char> = Vec::new();
    let mut i: usize = 0;
    while i < s.len()
        invariant
            i <= s.len(),
            r@ == without_icons(s@.take(i as int)),
        decreases s.len() - i,
    {
        proof {
            assert(s@.take(i + 1).drop_last() =~= s@.take(i as int));
            reveal_with_fuel(Seq::filter, 1);
        }
        if !is_unstable_terminal_icon(s[i]) {
            r.push(s[i]);
        }
        i += 1;
        proof {
            assert(r@ =~= without_icons(s@.take(i as int)));
        }
    }
    proof {
        assert(s@.take(s.len() as int) =~= s@);
    }
    r
}

fn chars_squash_ws(s: &[char]) -> (r: Vec<char>)
    ensures
        r@ == squash_ws(s@),
{
    let mut r: Vec<char> = Vec::new();
    let mut i: usize = 0;
    while i < s.len()
        invariant
            i <= s.len(),
            r@ == squash_ws(s@.take(i as int)),
        decreases s.len() - i,
    {
        let c = s[i];
        proof {
            assert(s@.take(i + 1).drop_last() =~= s@.take(i as int));
        }
        if !char_is_ws(c) {
            if i >= 1 && char_is_ws(s[i - 1]) && r.len() > 0 {
                r.push(' ');
            }
            r.push(c);
        }
        i += 1;
        proof {
            assert(r@ =~= squash_ws(s@.take(i as int)));
        }
    }
    proof {
        assert(s@.take(s.len() as int) =~= s@);
    }
    r
}

/// Text for a table cell: terminal-safe, icons removed, whitespace squashed,
/// `-` when empty.
pub fn stable_table_text(value: &str) -> (r: String)
    ensures
        r@ == stable_text(value@),
{
    let sanitized = terminal_safe_text(value);
    let chars = to_chars(sanitized.as_str());
    let kept = chars_without_icons(&chars);
    let compact = chars_squash_ws(&kept);
    if compact.len() == 0 {
        owned("-")
    } else {
        from_chars(&compact)
    }
}

/// Table text fitted to `width` cells.
pub fn table_text(value: &str, width: usize) -> (r: String)
    ensures
        r@ == fit_text(stable_text(value@), width as nat),
{
    let stable = stable_table_text(value);
    fit_display_width(stable.as_str(), width)
}

/// Table text shown without a width limit.
pub fn table_cell_text(value: &str) -> (r: String)
    ensures
        r@ == stable_text(value@),
{
    let stable = stable_table_text(value);
    display_text(stable.as_str())
}

/// How a measured proxy delay reads: `-2` is a running test, other negative
/// values and no value are `-`, `0` and values of ten seconds or more are
/// timeouts, values above 100000 are errors.
pub open spec fn delay_text(delay: Option<i64>) -> Seq<char> {
    match delay {
        None => "-"@,
        Some(v) => if v == -2 {
            "testing"@
        } else if v < 0 {
            "-"@
        } else if v == 0 {
            "Timeout"@
        } else if v > 100_000 {
            "Error"@
        } else if v >= 10_000 {
            "Timeout"@
        } else {
            dec_int(v as int) + "ms"@
        },
    }
}

/// Formats a proxy delay in milliseconds.
pub fn format_proxy_delay(delay: Option<i64>) -> (r: String)
    ensures
        r@ == delay_text(delay),
{
    match delay {
        None => owned("-"),
        Some(v) => {
            if v == -2 {
                owned("testing")
            } else if v < 0 {
                owned("-")
            } else if v == 0 {
                owned("Timeout")
            } else if v > 100_000 {
                owned("Error")
            } else if v >= 10_000 {
                owned("Timeout")
            } else {
                let mut out: Vec<char> = Vec::new();
                push_dec_i64(&mut out, v);
                push_str(&mut out, "ms");
                from_chars(&out)
            }
        },
    }
}

/// Horizontal line piece: ASCII in basic display mode.
pub fn horizontal_symbol(basic: bool) -> (r: &'static str)
    ensures
        r@ == (if basic { "-"@ } else { "─"@ }),
{
    if basic {
        "-"
    } else {
        "─"
    }
}

/// Vertical line piece: ASCII in basic display mode.
pub fn vertical_symbol(basic: bool) -> (r: &'static str)
    ensures
        r@ == (if basic { "|"@ } else { "│"@ }),
{
    if basic {
        "|"
    } else {
        "│"
    }
}

/// Crossing piece: ASCII in basic display mode.
pub fn cross_symbol(basic: bool) -> (r: &'static str)
    ensures
        r@ == (if basic { "+"@ } else { "┼"@ }),
{
    if basic {
        "+"
    } else {
        "┼"
    }
}

/// Tee opening to the right (left edge): ASCII in basic display mode.
pub fn tee_left_symbol(basic: bool) -> (r: &'static str)
    ensures
        r@ == (if basic { "+"@ } else { "├"@ }),
{
    if basic {
        "+"
    } else {
        "├"
    }
}

/// Tee opening to the left (right edge): ASCII in basic display mode.
pub fn tee_right_symbol(basic: bool) -> (r: &'static str)
    ensures
        r@ == (if basic { "+"@ } else { "┤"@ }),
{
    if basic {
        "+"
    } else {
        "┤"
    }
}

/// Tee opening downwards: ASCII in basic display mode.
pub fn tee_top_symbol(basic: bool) -> (r: &'static str)
    ensures
        r@ == (if basic { "+"@ } else { "┬"@ }),
{
    if basic {
        "+"
    } else {
        "┬"
    }
}

/// Tee opening upwards: ASCII in basic display mode.
pub fn tee_bottom_symbol(basic: bool) -> (r: &'static str)
    ensures
        r@ == (if basic { "+"@ } else { "┴"@ }),
{
    if basic {
        "+"
    } else {
        "┴"
    }
}

/// Filled and empty progress cells: ASCII in basic display mode.
pub fn progress_symbols(basic: bool) -> (r: (&'static str, &'static str))
    ensures
        r.0@ == (if basic { "#"@ } else { "█"@ }),
        r.1@ == (if basic { "."@ } else { "░"@ }),
{
    if basic {
        ("#", ".")
    } else {
        ("█", "░")
    }
}

/// A colour given by its red, green and blue parts.
#[derive(Debug, Clone, Copy, PartialEq, Eq, Structural)]
pub struct Rgb(pub u8, pub u8, pub u8);

/// The colour themes of the client.
#[derive(Debug, Clone, Copy, PartialEq, Eq, Structural)]
pub enum TuiTheme {
    Blue,
    Orange,
}

/// The colours a theme assigns to each part of the interface.
#[derive(Debug, Clone, Copy, PartialEq, Eq, Structural)]
pub struct ThemeTokens {
    pub canvas: Rgb,
    pub text: Rgb,
    pub muted_text: Rgb,
    pub dim_text: Rgb,
    pub border: Rgb,
    pub title: Rgb,
    pub accent: Rgb,
    pub accent_text: Rgb,
    pub selection_bg: Rgb,
    pub selection_text: Rgb,
    pub success: Rgb,
    pub warning: Rgb,
    pub danger: Rgb,
    pub progress_empty: Rgb,
    pub scrollbar_track: Rgb,
    pub scrollbar_thumb: Rgb,
}

/// The colours of each theme.
pub open spec fn theme_spec(theme: TuiTheme) -> ThemeTokens {
    match theme {
        TuiTheme::Blue => ThemeTokens {
            canvas: Rgb(31, 42, 58),
            text: Rgb(216, 226, 239),
            muted_text: Rgb(151, 163, 184),
            dim_text: Rgb(117, 132, 154),
            border: Rgb(54, 70, 95),
            title: Rgb(116, 204, 244),
            accent: Rgb(116, 204, 244),
            accent_text: Rgb(4, 12, 25),
            selection_bg: Rgb(116, 204, 244),
            selection_text: Rgb(4, 12, 25),
            success: Rgb(45, 212, 143),
            warning: Rgb(250, 204, 21),
            danger: Rgb(248, 113, 113),
            progress_empty: Rgb(71, 86, 112),
            scrollbar_track: Rgb(54, 70, 95),
            scrollbar_thumb: Rgb(116, 204, 244),
        },
        TuiTheme::Orange => ThemeTokens {
            canvas: Rgb(32, 24, 18),
            text: Rgb(242, 231, 219),
            muted_text: Rgb(188, 164, 139),
            dim_text: Rgb(145, 118, 96),
            border: Rgb(94, 66, 45),
            title: Rgb(255, 162, 86),
            accent: Rgb(244, 128, 55),
            accent_text: Rgb(24, 13, 6),
            selection_bg: Rgb(244, 128, 55),
            selection_text: Rgb(24, 13, 6),
            success: Rgb(70, 211, 145),
            warning: Rgb(245, 183, 77),
            danger: Rgb(248, 113, 113),
            progress_empty: Rgb(82, 58, 41),
            scrollbar_track: Rgb(94, 66, 45),
            scrollbar_thumb: Rgb(244, 128, 55),
        },
    }
}

/// The colours of a theme.
pub fn theme_tokens_for(theme: TuiTheme) -> (t: ThemeTokens)
    ensures
        t == theme_spec(theme),
{
    match theme {
        TuiTheme::Blue => ThemeTokens {
            canvas: Rgb(31, 42, 58),
            text: Rgb(216, 226, 239),
            muted_text: Rgb(151, 163, 184),
            dim_text: Rgb(117, 132, 154),
            border: Rgb(54, 70, 95),
            title: Rgb(116, 204, 244),
            accent: Rgb(116, 204, 244),
            accent_text: Rgb(4, 12, 25),
            selection_bg: Rgb(116, 204, 244),
            selection_text: Rgb(4, 12, 25),
            success: Rgb(45, 212, 143),
            warning: Rgb(250, 204, 21),
            danger: Rgb(248, 113, 113),
            progress_empty: Rgb(71, 86, 112),
            scrollbar_track: Rgb(54, 70, 95),
            scrollbar_thumb: Rgb(116, 204, 244),
        },
        TuiTheme::Orange => ThemeTokens {
            canvas: Rgb(32, 24, 18),
            text: Rgb(242, 231, 219),
            muted_text: Rgb(188, 164, 139),
            dim_text: Rgb(145, 118, 96),
            border: Rgb(94, 66, 45),
            title: Rgb(255, 162, 86),
            accent: Rgb(244, 128, 55),
            accent_text: Rgb(24, 13, 6),
            selection_bg: Rgb(244, 128, 55),
            selection_text: Rgb(24, 13, 6),
            success: Rgb(70, 211, 145),
            warning: Rgb(245, 183, 77),
            danger: Rgb(248, 113, 113),
            progress_empty: Rgb(82, 58, 41),
            scrollbar_track: Rgb(94, 66, 45),
            scrollbar_thumb: Rgb(244, 128, 55),
        },
    }
}

/// Every theme highlights a selection in its accent colour.
pub proof fn law_selection_uses_accent(theme: TuiTheme)
    ensures
        theme_spec(theme).selection_bg == theme_spec(theme).accent,
        theme_spec(theme).selection_text == theme_spec(theme).accent_text,
{
}

/// A remembered proxy selection still names the current entry: the same
/// text, or the same table text (icons and spacing aside) unless that is
/// empty.
pub open spec fn selection_key_match(current: Seq<char>, remembered: Seq<char>) -> bool {
    current == remembered || (stable_text(current) != "-"@ && stable_text(current) == stable_text(
        remembered,
    ))
}

/// Whether a remembered proxy selection names the current entry.
pub fn proxy_selection_key_matches(current: &str, remembered: &str) -> (b: bool)
    ensures
        b == selection_key_match(current@, remembered@),
{
    if crate::strs::str_eq(current, remembered) {
        return true;
    }
    let c = stable_table_text(current);
    let r = stable_table_text(remembered);
    !crate::strs::str_eq(c.as_str(), "-") && crate::strs::str_eq(c.as_str(), r.as_str())
}

} // verus!
