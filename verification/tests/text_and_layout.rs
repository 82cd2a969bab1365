use clash_tui::layout::{
    cross_symbol, display_width, fit_display_width, format_proxy_delay, horizontal_symbol,
    is_unstable_terminal_icon, pad_right_display, progress_symbols, proxy_selection_key_matches,
    stable_table_text, table_cell_text, table_text, take_display_width, tee_bottom_symbol,
    tee_left_symbol, tee_right_symbol, tee_top_symbol, theme_tokens_for, vertical_symbol, TuiTheme,
};
use clash_tui::text::{
    log_has_level, next_url_offset, normalize_pasted_text, pasted_subscription_url,
    profile_update_message_label, redact_urls, sanitize_url_error, status_history_text,
    terminal_safe_log_text, terminal_safe_text, validate_subscription_url,
};

#[test]
fn terminal_safe_text_replaces_breaks_tabs_and_controls() {
    assert_eq!(terminal_safe_text("a\nb\tc\u{7}d\re"), "a <换行> b c d <换行> e");
    assert_eq!(terminal_safe_text(""), "");
    let safe = terminal_safe_text("x\u{1b}[31my\u{9f}");
    assert!(safe.chars().all(|c| !c.is_control()));
}

#[test]
fn redact_urls_replaces_each_url_and_keeps_bare_schemes() {
    assert_eq!(
        redact_urls("see https://x.y/a?b=c, and http://k.z)", "[链接]"),
        "see [链接], and [链接])"
    );
    assert_eq!(redact_urls("plain http:// text", "[链接]"), "plain http:// text");
    assert_eq!(redact_urls("ends with https://", "[链接]"), "ends with https://");
    assert_eq!(redact_urls("no link here", "[链接]"), "no link here");
    assert_eq!(redact_urls("x https://a.b/c", "[订阅链接]"), "x [订阅链接]");
}

#[test]
fn redacted_text_holds_no_followable_scheme() {
    let redacted = redact_urls(
        "a https://one.invalid/x?token=secret b http://two.invalid c http://",
        "[链接]",
    );
    assert!(!redacted.contains("token=secret"));
    assert!(!redacted.contains("one.invalid"));
    assert!(!redacted.contains("two.invalid"));
    assert!(redacted.ends_with("http://"));
}

#[test]
fn log_and_history_text_are_redacted_and_safe() {
    assert_eq!(terminal_safe_log_text("x https://a.b/c\nnext"), "x [链接] <换行> next");
    assert_eq!(status_history_text("y http://q.r"), "y [链接]");
}

#[test]
fn sanitize_url_error_hides_urls_and_names_blank_errors() {
    assert_eq!(sanitize_url_error("   "), "未知错误");
    assert_eq!(sanitize_url_error("https://a.b/c"), "[订阅链接]");
    assert_eq!(sanitize_url_error("fetch http://x.y failed"), "fetch [订阅链接] failed");
}

#[test]
fn profile_update_messages_map_to_one_wording() {
    assert_eq!(profile_update_message_label(""), "");
    assert_eq!(profile_update_message_label("  profile updated "), "订阅已更新");
    assert_eq!(
        profile_update_message_label("profile updated; runtime refresh needs attention"),
        "订阅已更新；运行配置刷新需要处理"
    );
    assert_eq!(profile_update_message_label("custom https://a.b"), "custom [订阅链接]");
}

#[test]
fn subscription_urls_are_parsed_and_checked() {
    assert_eq!(validate_subscription_url("https://example.com/sub"), Ok(()));
    assert_eq!(
        validate_subscription_url("not a url"),
        Err("订阅链接格式不正确".to_owned())
    );
    assert_eq!(
        validate_subscription_url("ftp://example.com/sub"),
        Err("订阅链接必须以 http:// 或 https:// 开头".to_owned())
    );
    assert_eq!(
        pasted_subscription_url("  https://example.com/x \n"),
        Some("https://example.com/x".to_owned())
    );
    assert_eq!(pasted_subscription_url("hello"), None);
}

#[test]
fn pasted_text_loses_line_breaks() {
    assert_eq!(normalize_pasted_text("a\r\nb\nc"), "abc");
}

#[test]
fn log_levels_are_found_case_insensitively() {
    assert!(log_has_level("time=1 Level=Error msg=x", &["error"]));
    assert!(log_has_level("[WARN] disk", &["warn", "warning"]));
    assert!(!log_has_level("all good", &["error"]));
}

#[test]
fn url_offsets_count_bytes() {
    assert_eq!(next_url_offset("xx https://a"), Some((3, 8)));
    assert_eq!(next_url_offset("中 http://a https://b"), Some((4, 7)));
    assert_eq!(next_url_offset("none"), None);
}

#[test]
fn display_width_counts_wide_characters() {
    assert_eq!(display_width("🇺🇸"), 2);
    assert_eq!(display_width("🚀"), 2);
    assert_eq!(display_width("中文"), 4);
    assert_eq!(display_width("abc"), 3);
}

#[test]
fn stable_table_text_drops_icons_and_squashes_spaces() {
    assert_eq!(stable_table_text("🚀节点选择"), "节点选择");
    assert_eq!(stable_table_text("🇺🇸美国节点"), "美国节点");
    assert_eq!(stable_table_text("  a \n b  "), "a <换行> b");
    assert_eq!(stable_table_text(""), "-");
    assert_eq!(stable_table_text("🚀"), "-");
    assert_eq!(table_cell_text("x\ty"), "x y");
    assert_eq!(table_text("🚀很长的节点名称", 7), "很长...");
}

#[test]
fn fitting_and_padding_respect_cell_widths() {
    assert_eq!(fit_display_width("abcdef", 5), "ab...");
    assert_eq!(fit_display_width("abc", 5), "abc");
    assert_eq!(fit_display_width("abcdef", 3), "abc");
    assert_eq!(fit_display_width("中文字符", 5), "中...");
    assert_eq!(pad_right_display("ab", 4), "ab  ");
    assert_eq!(pad_right_display("abcdef", 4), "a...");
    assert_eq!(pad_right_display("中", 3), "中 ");
}

#[test]
fn taken_prefix_never_exceeds_the_width() {
    assert_eq!(take_display_width("中文", 3), "中");
    assert_eq!(take_display_width("中文", 1), "");
    assert_eq!(take_display_width("abc", 10), "abc");
    for width in 0..8 {
        let kept = take_display_width("a中b文c", width);
        assert!("a中b文c".starts_with(&kept));
        assert!(kept.is_empty() || display_width(&kept) <= width);
    }
}

#[test]
fn proxy_delays_read_as_words_or_milliseconds() {
    assert_eq!(format_proxy_delay(None), "-");
    assert_eq!(format_proxy_delay(Some(-2)), "testing");
    assert_eq!(format_proxy_delay(Some(-1)), "-");
    assert_eq!(format_proxy_delay(Some(0)), "Timeout");
    assert_eq!(format_proxy_delay(Some(100_001)), "Error");
    assert_eq!(format_proxy_delay(Some(10_000)), "Timeout");
    assert_eq!(format_proxy_delay(Some(88)), "88ms");
}

#[test]
fn basic_mode_uses_ascii_symbols() {
    assert_eq!(horizontal_symbol(true), "-");
    assert_eq!(horizontal_symbol(false), "─");
    assert_eq!(vertical_symbol(true), "|");
    assert_eq!(cross_symbol(false), "┼");
    assert_eq!(tee_left_symbol(false), "├");
    assert_eq!(tee_right_symbol(false), "┤");
    assert_eq!(tee_top_symbol(false), "┬");
    assert_eq!(tee_bottom_symbol(true), "+");
    assert_eq!(progress_symbols(true), ("#", "."));
    assert_eq!(progress_symbols(false), ("█", "░"));
}

#[test]
fn unstable_icons_are_recognised() {
    assert!(is_unstable_terminal_icon('🚀'));
    assert!(is_unstable_terminal_icon('\u{200d}'));
    assert!(is_unstable_terminal_icon('\u{fe0f}'));
    assert!(!is_unstable_terminal_icon('a'));
    assert!(!is_unstable_terminal_icon('中'));
}

#[test]
fn remembered_selection_matches_through_icon_changes() {
    assert!(proxy_selection_key_matches("🚀节点选择", "节点选择"));
    assert!(proxy_selection_key_matches("", ""));
    assert!(!proxy_selection_key_matches("🚀", "🇺🇸"));
    assert!(!proxy_selection_key_matches("香港", "日本"));
}

#[test]
fn every_theme_selects_with_its_accent() {
    for theme in [TuiTheme::Blue, TuiTheme::Orange] {
        let tokens = theme_tokens_for(theme);
        assert_eq!(tokens.selection_bg, tokens.accent);
        assert_eq!(tokens.selection_text, tokens.accent_text);
    }
}

#[test]
fn redaction_with_a_slash_free_replacement_leaves_no_url() {
    let out = redact_urls("go https://a.b/c;http://x.y/z and http://", "http:");
    assert_eq!(out, "go http:;http: and http://");
    assert!(!out.contains("http://x"));
    assert!(!out.contains("https://"));
    let out = redact_urls("a http://h.t/p \"https://s.t\"", "ttps:");
    assert_eq!(out, "a ttps: \"ttps:\"");
}
