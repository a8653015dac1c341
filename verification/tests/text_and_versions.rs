use reims_vgpu_gui::text::{
    decimal_string, first_word_str, signed_decimal_string, str_eq, trim_str,
};
use reims_vgpu_gui::versions::{latest_version_from_tags, parse_version};

#[test]
fn trim_removes_unicode_white_space() {
    assert_eq!(trim_str(" \t hi there \n"), "hi there");
    assert_eq!(trim_str("\u{3000}x\u{a0}"), "x");
    assert_eq!(trim_str("   "), "");
    assert_eq!(trim_str(""), "");
}

#[test]
fn first_word_skips_leading_space() {
    assert_eq!(first_word_str("  abc123\trefs/heads/master\n"), Some("abc123".to_string()));
    assert_eq!(first_word_str(" \n\t "), None);
    assert_eq!(first_word_str(""), None);
}

#[test]
fn decimal_strings() {
    assert_eq!(decimal_string(0), "0");
    assert_eq!(decimal_string(42), "42");
    assert_eq!(decimal_string(u64::MAX), "18446744073709551615");
    assert_eq!(signed_decimal_string(-5), "-5");
    assert_eq!(signed_decimal_string(i32::MIN), "-2147483648");
    assert_eq!(signed_decimal_string(7), "7");
}

#[test]
fn characters_round_trip() {
    let s = "héllo wörld";
    assert_eq!(trim_str(&format!(" {} ", s)), s);
    assert!(str_eq("abc", "abc"));
    assert!(!str_eq("abc", "abd"));
    assert!(!str_eq("abc", "ab"));
}

#[test]
fn parse_version_reads_three_numbers() {
    assert_eq!(parse_version("1.2.3"), Some((1, 2, 3)));
    assert_eq!(parse_version("v1.2.3"), Some((1, 2, 3)));
    assert_eq!(parse_version("  v0.10.20 \n"), Some((0, 10, 20)));
    assert_eq!(parse_version("vv2.0.1"), Some((2, 0, 1)));
    assert_eq!(parse_version("1.2.3.4"), Some((1, 2, 3)));
    assert_eq!(parse_version("+1.2.3"), Some((1, 2, 3)));
}

#[test]
fn parse_version_rejects_other_text() {
    assert_eq!(parse_version("1.2"), None);
    assert_eq!(parse_version("1.2.x"), None);
    assert_eq!(parse_version("1..3"), None);
    assert_eq!(parse_version("-1.2.3"), None);
    assert_eq!(parse_version("1.2.3-beta"), None);
    assert_eq!(parse_version("18446744073709551616.0.0"), None);
    assert_eq!(parse_version("18446744073709551615.0.0"), Some((u64::MAX, 0, 0)));
    assert_eq!(parse_version(""), None);
    assert_eq!(parse_version("nightly"), None);
}

#[test]
fn parse_version_reads_back_written_versions() {
    for v in [(0u64, 0u64, 0u64), (1, 2, 3), (10, 200, 3000), (u64::MAX, 7, u64::MAX)] {
        let text = format!("{}.{}.{}", v.0, v.1, v.2);
        assert_eq!(parse_version(&text), Some(v));
    }
}

#[test]
fn latest_tag_is_the_greatest_version() {
    let out = "1111\trefs/tags/v0.1.0\n2222\trefs/tags/v0.10.0\n3333\trefs/tags/v0.9.9\n4444\trefs/tags/nightly\n";
    assert_eq!(latest_version_from_tags(out), Some("v0.10.0".to_string()));
}

#[test]
fn latest_tag_prefers_the_last_of_equal_versions() {
    let out = "a\trefs/tags/v1.0.0\nb\trefs/tags/1.0.0\r\nc\trefs/tags/v0.5.0";
    assert_eq!(latest_version_from_tags(out), Some("1.0.0".to_string()));
}

#[test]
fn latest_tag_needs_a_tab_and_the_tags_prefix() {
    assert_eq!(latest_version_from_tags(""), None);
    assert_eq!(latest_version_from_tags("refs/tags/v1.0.0\n"), None);
    assert_eq!(latest_version_from_tags("x\trefs/heads/v1.0.0\n"), None);
    assert_eq!(latest_version_from_tags("x\ty\trefs/tags/v2.0.0\n"), Some("v2.0.0".to_string()));
    assert_eq!(latest_version_from_tags("x\trefs/tags/v1.0\n"), None);
}
