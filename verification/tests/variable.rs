use mew_css::text::Render;
use mew_css::variable::{normalize, starts_with_dashes, var, CssVar};

#[test]
fn names_get_their_dashes() {
    assert_eq!(CssVar::new("primary-color").raw_name(), "--primary-color");
    assert_eq!(CssVar::new("--primary-color").raw_name(), "--primary-color");
    assert_eq!(var("spacing").raw_name(), "--spacing");
    assert_eq!(var("").raw_name(), "--");
    assert_eq!(var("-x").raw_name(), "---x");
    assert_eq!(var("--").raw_name(), "--");
}

#[test]
fn names_are_trimmed_before_the_dashes_are_added() {
    assert_eq!(var("  primary  ").raw_name(), "--primary");
    assert_eq!(var("\t--primary\n").raw_name(), "--primary");
    assert_eq!(var("   ").raw_name(), "--");
    assert_eq!(var(" a b ").raw_name(), "--a b");
}

#[test]
fn normalizing_twice_changes_nothing() {
    for name in ["primary", "--primary", "  x ", "", "-", "--", "---", " - - ", "a--b", "\u{a0}é"] {
        let once = CssVar::new(name);
        let twice = CssVar::new(once.raw_name());
        assert_eq!(once.raw_name(), twice.raw_name(), "{:?}", name);
        assert_eq!(once, twice);
        assert!(!once.raw_name().starts_with("----") || name.contains("--"));
    }
}

#[test]
fn references_are_written_as_var() {
    assert_eq!(var("primary-color").render(), "var(--primary-color)");
    assert_eq!(var("--gap").render(), "var(--gap)");
    assert_eq!(var("").render(), "var(--)");
}

#[test]
fn clones_are_equal() {
    let v = var("accent");
    let c = v.clone();
    assert_eq!(v, c);
    assert_eq!(c.render(), "var(--accent)");
}

#[test]
fn normalize_and_dash_test() {
    assert_eq!(normalize(" a "), "--a");
    assert_eq!(normalize("--a"), "--a");
    assert!(starts_with_dashes("--"));
    assert!(starts_with_dashes("--x"));
    assert!(!starts_with_dashes("-"));
    assert!(!starts_with_dashes("-x-"));
    assert!(!starts_with_dashes(""));
    assert!(!starts_with_dashes("x--"));
}
