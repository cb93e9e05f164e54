use rustfetch::memory::{format_gib, gib_tenths, memory_field};
use rustfetch::probe::Platform;
use rustfetch::text::{basename, join_with, num_to_string, or_placeholder, split_lines, trim_str};
use rustfetch::uptime::format_uptime;

#[test]
fn uptime_zero_is_under_a_minute() {
    assert_eq!(format_uptime(0), "<1 dk");
    assert_eq!(format_uptime(59), "<1 dk");
}

#[test]
fn uptime_ninety_seconds_is_one_minute() {
    assert_eq!(format_uptime(90), "1 dk");
}

#[test]
fn uptime_hour_and_minute_drop_seconds() {
    assert_eq!(format_uptime(3661), "1 saat, 1 dk");
}

#[test]
fn uptime_beyond_a_day_includes_days() {
    assert_eq!(format_uptime(90000), "1 gün, 1 saat");
}

#[test]
fn uptime_all_three_components() {
    assert_eq!(format_uptime(90060), "1 gün, 1 saat, 1 dk");
}

#[test]
fn uptime_never_shows_zero_components() {
    assert_eq!(format_uptime(3600), "1 saat");
    assert_eq!(format_uptime(86400), "1 gün");
    assert_eq!(format_uptime(86400 + 120), "1 gün, 2 dk");
}

#[test]
fn one_gib_renders_as_one_point_zero() {
    assert_eq!(gib_tenths(1073741824), 10);
    assert_eq!(format_gib(1073741824), "1.0");
}

#[test]
fn gib_rounds_to_nearest_tenth() {
    assert_eq!(format_gib(0), "0.0");
    assert_eq!(format_gib(536870912), "0.5");
    assert_eq!(format_gib(1073741824 + 536870912), "1.5");
}

#[test]
fn memory_field_shows_used_and_total() {
    assert_eq!(memory_field(1073741824, 2147483648), "1.0 GiB / 2.0 GiB");
}

#[test]
fn numbers_render_in_decimal() {
    assert_eq!(num_to_string(0), "0");
    assert_eq!(num_to_string(42), "42");
    assert_eq!(num_to_string(1234567890), "1234567890");
}

#[test]
fn trim_removes_surrounding_whitespace() {
    assert_eq!(trim_str("  a b \r\n"), "a b");
    assert_eq!(trim_str("plain"), "plain");
    assert_eq!(trim_str(" \t\n"), "");
}

#[test]
fn trim_agrees_with_std_on_unicode_whitespace() {
    for s in ["6.1\u{b}\n", "\u{a0}x\u{a0}", "\u{2028}y\u{3000}", " z\u{85}", "\u{2003}w "] {
        assert_eq!(trim_str(s), s.trim());
    }
}

#[test]
fn basename_keeps_the_final_component() {
    assert_eq!(basename("/bin/zsh", Platform::Linux), "zsh");
    assert_eq!(basename("zsh", Platform::Linux), "zsh");
    assert_eq!(basename("usr/local/bin/fish", Platform::MacOs), "fish");
    assert_eq!(basename("C:\\WINDOWS\\system32\\cmd.exe", Platform::Windows), "cmd.exe");
}

#[test]
fn basename_agrees_with_std_file_name() {
    for p in [
        "a/b/", "a/b//", "/bin/zsh", "zsh", "a/..", "..", "a/.", ".", "./a", "/", "", "a.",
        "a/...", "x/./.", "a\\b",
    ] {
        let expected = std::path::Path::new(p)
            .file_name()
            .and_then(|s| s.to_str())
            .unwrap_or(p)
            .to_string();
        assert_eq!(basename(p, Platform::Linux), expected, "path {:?}", p);
    }
}

#[test]
fn basename_splits_on_backslash_only_on_windows() {
    assert_eq!(basename("a\\b", Platform::Linux), "a\\b");
    assert_eq!(basename("a\\b", Platform::Windows), "b");
    assert_eq!(basename("a\\b\\", Platform::Windows), "b");
}

#[test]
fn or_placeholder_fills_empty_values() {
    assert_eq!(or_placeholder(String::new()), "-");
    assert_eq!(or_placeholder(String::from("x")), "x");
}

#[test]
fn split_lines_matches_line_semantics() {
    let v = split_lines("a\r\nb\nc");
    assert_eq!(v, vec!["a", "b", "c"]);
    let w = split_lines("one\n\ntwo\n");
    assert_eq!(w, vec!["one", "", "two"]);
    let e = split_lines("");
    assert_eq!(e.len(), 0);
}

#[test]
fn join_with_puts_separator_between() {
    let parts = vec![String::from("a"), String::from("b"), String::from("c")];
    assert_eq!(join_with(&parts, ", "), "a, b, c");
    let one = vec![String::from("solo")];
    assert_eq!(join_with(&one, ", "), "solo");
    let none: Vec<String> = Vec::new();
    assert_eq!(join_with(&none, ", "), "");
}
