use voicefox::text::{contains_str, enabled, normalize, shorten_source, trim, truncate_chars};

#[test]
fn shortens_unicode_source_path_on_character_boundaries() {
    let path = "/home/user/音乐音源/这是一个很长的第三方音源脚本文件名/latest.js";
    let shortened = shorten_source(path, 24);

    assert_eq!(shortened.chars().count(), 24);
    assert!(shortened.ends_with("..."));
}

#[test]
fn short_sources_are_kept_and_tiny_limits_give_dots() {
    assert_eq!(shorten_source("abc", 8), "abc");
    assert_eq!(shorten_source("abcdef", 3), "...");
    assert_eq!(shorten_source("abcdef", 0), "");
    assert_eq!(shorten_source("abcdefgh", 5), "ab...");
}

#[test]
fn truncation_marks_the_cut() {
    assert_eq!(truncate_chars("飙升榜", 5), "飙升榜");
    assert_eq!(truncate_chars("abcdef", 4), "abc…");
    assert_eq!(truncate_chars("abcdef", 1), "…");
    assert_eq!(truncate_chars("abcdef", 0), "");
}

#[test]
fn normalization_keeps_lowercased_alphanumerics() {
    assert_eq!(normalize("晴天 (Live)"), "晴天live");
    assert_eq!(normalize("A-B c!"), "abc");
    assert_eq!(normalize("!!!"), "");
}

#[test]
fn substring_search_and_trim() {
    assert!(contains_str("周杰伦", "杰"));
    assert!(contains_str("abc", ""));
    assert!(!contains_str("abc", "abcd"));
    assert!(!contains_str("abc", "ac"));
    assert_eq!(trim("  晴天 \t"), "晴天");
    assert_eq!(trim("   "), "");
    assert_eq!(enabled(true), "开启");
    assert_eq!(enabled(false), "关闭");
}

#[test]
fn trimming_drops_every_unicode_space_and_keeps_the_rest() {
    assert_eq!(trim("\u{3000}周杰伦\u{a0}"), "周杰伦");
    assert_eq!(trim("\u{85}\u{2028}a b\u{202f}\u{205f}\u{1680}"), "a b");
    assert_eq!(trim("\u{2000}\u{200a}x\u{2029}\r\n\u{b}\u{c}"), "x");
    // Zero-width space and the byte order mark are not White_Space.
    assert_eq!(trim("\u{200b}x\u{feff}"), "\u{200b}x\u{feff}");
    for c in (0u32..=0x10FFFF).filter_map(char::from_u32) {
        let s = c.to_string();
        assert_eq!(trim(&s).is_empty(), c.is_whitespace(), "{:?}", c);
    }
}
