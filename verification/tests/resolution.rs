use percents::geometry::Size;
use percents::resolution::{is_known_resolution, resolution_groups, resolutions_16_10};

#[test]
fn listed_16_10_resolutions() {
    let sizes = resolutions_16_10();
    assert_eq!(sizes.len(), 11);
    assert_eq!(sizes[0], Size { cx: 3840, cy: 2400 });
    assert_eq!(sizes[3], Size { cx: 1920, cy: 1200 });
    assert_eq!(sizes[10], Size { cx: 480, cy: 300 });
    for s in &sizes {
        assert_eq!(s.cx * 10, s.cy * 16);
    }
    for pair in sizes.windows(2) {
        assert!(pair[1].cx < pair[0].cx && pair[1].cy < pair[0].cy);
    }
}

#[test]
fn one_group_named_16_10() {
    let groups = resolution_groups();
    assert_eq!(groups.len(), 1);
    assert_eq!(groups[0].0, "16:10");
    assert_eq!(groups[0].1, resolutions_16_10());
}

#[test]
fn known_resolutions() {
    assert!(is_known_resolution(1920, 1200));
    assert!(is_known_resolution(3840, 2400));
    assert!(is_known_resolution(480, 300));
    assert!(is_known_resolution(1440, 900));
}

#[test]
fn unknown_resolutions() {
    assert!(!is_known_resolution(1920, 1080));
    assert!(!is_known_resolution(1200, 1920));
    assert!(!is_known_resolution(0, 0));
    assert!(!is_known_resolution(320, 200));
    assert!(!is_known_resolution(u32::MAX, u32::MAX));
    assert!(!is_known_resolution(1920 + (1u32 << 31), 1200));
}

#[test]
fn every_listed_size_is_known() {
    for (_, sizes) in resolution_groups() {
        for s in sizes {
            assert!(is_known_resolution(s.cx as u32, s.cy as u32));
            assert!(!is_known_resolution(s.cx as u32 + 1, s.cy as u32));
        }
    }
}
