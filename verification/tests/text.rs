use percents::text::{
    centered_label, client_size_key, decimal_text, display_name_or_unknown,
    display_path_or_unknown, group_heading, resolution_caption, size_key, size_selection,
    window_mark,
};

#[test]
fn decimal_of_edge_values() {
    assert_eq!(decimal_text(0), "0");
    assert_eq!(decimal_text(7), "7");
    assert_eq!(decimal_text(10), "10");
    assert_eq!(decimal_text(1200), "1200");
    assert_eq!(decimal_text(u32::MAX), "4294967295");
}

#[test]
fn decimal_matches_display() {
    let mut n: u32 = 1;
    while n < u32::MAX / 3 {
        assert_eq!(decimal_text(n), format!("{n}"));
        assert_eq!(decimal_text(n - 1), format!("{}", n - 1));
        n = n * 3 + 1;
    }
}

#[test]
fn size_keys() {
    assert_eq!(size_key(1920, 1200), "1920x1200");
    assert_eq!(size_key(-5, 10), "-5x10");
    assert_eq!(size_key(i32::MIN, 0), "-2147483648x0");
    assert_eq!(client_size_key(0, 7), "0x7");
    assert_eq!(client_size_key(u32::MAX, 1), "4294967295x1");
}

#[test]
fn size_keys_match_format() {
    for (cx, cy) in [(3840, 2400), (-1, -1), (i32::MAX, i32::MIN), (0, 0), (12, 345)] {
        assert_eq!(size_key(cx, cy), format!("{}x{}", cx, cy));
        assert_eq!(resolution_caption(cx, cy), format!("{}\u{00d7}{}", cx, cy));
    }
}

#[test]
fn list_selects_only_the_same_size() {
    let current = client_size_key(1920, 1200);
    assert_eq!(current, size_key(1920, 1200));
    assert_ne!(current, size_key(192, 1200));
    assert_ne!(current, size_key(1920, 120));
    assert_ne!(client_size_key(12, 34), client_size_key(123, 4));
}

#[test]
fn resolution_captions() {
    assert_eq!(resolution_caption(2560, 1600), "2560\u{00d7}1600");
}

#[test]
fn size_selection_of_unknown_size() {
    assert_eq!(size_selection(0, 0), "<unknown size>");
}

#[test]
fn size_selection_of_listed_size() {
    assert_eq!(size_selection(1920, 1200), "\u{2705} 1920x1200");
}

#[test]
fn size_selection_of_other_size() {
    assert_eq!(size_selection(1920, 1080), "\u{26ab} 1920x1080");
    assert_eq!(size_selection(0, 5), "\u{26ab} 0x5");
}

#[test]
fn headings_and_labels() {
    assert_eq!(group_heading("16:10"), "-16:10-  ");
    assert_eq!(centered_label(), "\u{2705}centered");
    assert_eq!(window_mark(), "\u{1f5d6}");
}

#[test]
fn fallback_names() {
    assert_eq!(display_name_or_unknown(Some("Notepad")), "Notepad");
    assert_eq!(display_name_or_unknown(None), "<unknown>");
    assert_eq!(display_path_or_unknown(Some("C:\\Windows\\notepad.exe")), "C:\\Windows\\notepad.exe");
    assert_eq!(display_path_or_unknown(None), "<unknown path>");
}
