use padm_exporter::metrics::label::{normalize_label, sanitize_label};
use padm_exporter::text::decimal;

#[test]
fn sanitize_label_examples() {
    assert_eq!(sanitize_label("Low (Auto)".to_string()), "low_auto");
    assert_eq!(sanitize_label("Medium High (Auto)".to_string()), "medium_high_auto");
    assert_eq!(sanitize_label("Not Connected".to_string()), "not_connected");
    assert_eq!(sanitize_label("Off".to_string()), "off");
    assert_eq!(sanitize_label("1.2.3-rc1".to_string()), "1.2.3_rc1");
}

#[test]
fn sanitize_label_is_idempotent() {
    for text in [
        "Low (Auto)",
        "Medium High (Auto)",
        "Fan Speed - Auto",
        "Cooling",
        "a_b",
        "x-y z",
        "___a",
        "a___",
        "_ - _(x)__y--",
        "1.2/a",
        "",
    ] {
        let once = sanitize_label(text.to_string());
        let twice = sanitize_label(once.clone());
        assert_eq!(once, twice);
        assert!(!once.ends_with('_'));
        assert!(!once.contains("__"));
        assert!(!once.contains(|c| c == ' ' || c == '-' || c == '(' || c == ')'));
    }
}

#[test]
fn sanitize_label_of_plain_text_holds_label_characters_only() {
    for text in ["Low (Auto)", "Fan Speed - Auto", "A_b-C (9)", "__X__"] {
        let label = sanitize_label(text.to_string());
        assert!(label
            .chars()
            .all(|c| c.is_ascii_lowercase() || c.is_ascii_digit() || c == '_'));
    }
    assert_eq!(sanitize_label("1.2/a".to_string()), "1.2/a");
}

#[test]
fn sanitize_label_collapses_every_run_of_underscores() {
    assert_eq!(sanitize_label("Fan Speed - Auto".to_string()), "fan_speed_auto");
    assert_eq!(sanitize_label("a____b".to_string()), "a_b");
    assert_eq!(sanitize_label("a___b".to_string()), "a_b");
    assert_eq!(sanitize_label("a__b".to_string()), "a_b");
    assert_eq!(sanitize_label("___a".to_string()), "_a");
    assert_eq!(sanitize_label("a (b) - c".to_string()), "a_b_c");
}

#[test]
fn sanitize_label_drops_the_underscore_at_the_end() {
    assert_eq!(sanitize_label("High (Auto)  ".to_string()), "high_auto");
    assert_eq!(sanitize_label("abc_".to_string()), "abc");
    assert_eq!(sanitize_label("___".to_string()), "");
    assert_eq!(sanitize_label("_a".to_string()), "_a");
    assert_eq!(sanitize_label("".to_string()), "");
}

#[test]
fn sanitize_label_is_idempotent_beyond_ascii() {
    for text in ["ÉTÉ Mode", "ÄÖÜ - (ß)", "ΟΔΟΣ ΑΣ", "İstanbul__X"] {
        let once = sanitize_label(text.to_string());
        assert_eq!(sanitize_label(once.clone()), once);
        assert!(!once.contains("__"));
        assert!(!once.ends_with('_'));
    }
}

#[test]
fn sanitize_label_lowers_letters_beyond_ascii() {
    assert_eq!(sanitize_label("ÉTÉ Mode".to_string()), "été_mode");
    assert_eq!(sanitize_label("ÄÖÜ".to_string()), "äöü");
}

#[test]
fn normalize_label_keeps_case() {
    assert_eq!(normalize_label("Low (Auto)"), "Low_Auto");
    assert_eq!(normalize_label("a-b"), "a_b");
    assert_eq!(normalize_label("A - B___"), "A_B");
}

#[test]
fn decimal_notation() {
    assert_eq!(decimal(0), "0");
    assert_eq!(decimal(7), "7");
    assert_eq!(decimal(10), "10");
    assert_eq!(decimal(8080), "8080");
    assert_eq!(decimal(65535), "65535");
    assert_eq!(decimal(u64::MAX), "18446744073709551615");
}

#[test]
fn lists_of_strings() {
    let list = vec!["a".to_string(), "".to_string(), "bc".to_string()];
    let copy = padm_exporter::text::clone_strings(&list);
    assert_eq!(copy, list);
    assert!(padm_exporter::text::same_strings(&list, &copy));
    assert!(!padm_exporter::text::same_strings(&list, &vec!["a".to_string()]));
    assert!(!padm_exporter::text::same_strings(
        &list,
        &vec!["a".to_string(), "".to_string(), "bd".to_string()]
    ));
    assert!(padm_exporter::text::same_strings(&Vec::new(), &Vec::new()));
}
