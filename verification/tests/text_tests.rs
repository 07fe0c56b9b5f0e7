use unsafe_analysis::build_flags::{analysis_rustflags, ANALYSIS_RUSTFLAGS};
use unsafe_analysis::text::{ends_with, replace_all_str, starts_with, str_less, u32_to_decimal};

#[test]
fn prefix_and_suffix() {
    assert!(starts_with("30_unsafe_fn_1", "30_unsafe_fn"));
    assert!(!starts_with("3", "30"));
    assert!(starts_with("abc", ""));
    assert!(ends_with("core::ptr::read", "ptr::read"));
    assert!(!ends_with("read", "ptr::read"));
    assert!(ends_with("", ""));
}

#[test]
fn replace_removes_every_occurrence() {
    assert_eq!(replace_all_str("libc::libc::free", "libc::", "").as_str(), "free");
    assert_eq!(replace_all_str("a::b::c", "::", "/").as_str(), "a/b/c");
    assert_eq!(replace_all_str("aaa", "aa", "b").as_str(), "ba");
    assert_eq!(replace_all_str("xyz", "q", "r").as_str(), "xyz");
}

#[test]
fn lexicographic_order() {
    assert!(str_less("0.1.0", "0.2.0"));
    assert!(str_less("1.0", "1.0.1"));
    assert!(!str_less("1.0", "1.0"));
    assert!(!str_less("b", "a"));
    assert!(str_less("", "a"));
}

#[test]
fn decimal_text() {
    assert_eq!(u32_to_decimal(0).as_str(), "0");
    assert_eq!(u32_to_decimal(7).as_str(), "7");
    assert_eq!(u32_to_decimal(1024).as_str(), "1024");
    assert_eq!(u32_to_decimal(u32::MAX).as_str(), "4294967295");
}

#[test]
fn rustflags_keep_the_previous_value() {
    assert_eq!(analysis_rustflags(None).as_str(), ANALYSIS_RUSTFLAGS);
    assert_eq!(
        analysis_rustflags(Some("-C debuginfo=2")).as_str(),
        " -C relocation-model=dynamic-no-pic -C link-dead-code -C opt-level=0 -C debuginfo=2"
    );
}
