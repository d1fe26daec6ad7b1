use percents::geometry::{
    can_center, can_resize, is_measurable, center_to_screen, get_center_of_rect, get_client_size, is_centered, resize_client,
    ClientSize, Placement, Point, Rect,
};

fn rect(left: i32, top: i32, right: i32, bottom: i32) -> Rect {
    Rect { left, top, right, bottom }
}

#[test]
fn center_of_full_hd_screen() {
    assert_eq!(get_center_of_rect(&rect(0, 0, 1920, 1080)), Point { x: 960, y: 540 });
}

#[test]
fn center_of_offset_rect_rounds_toward_the_left_edge() {
    assert_eq!(get_center_of_rect(&rect(-1921, 10, 0, 13)), Point { x: -961, y: 11 });
}

#[test]
fn center_of_inverted_rect_rounds_toward_zero() {
    // (5 - 10) / 2 is -2 in Rust, not -3.
    assert_eq!(get_center_of_rect(&rect(10, 10, 5, 5)), Point { x: 8, y: 8 });
}

#[test]
fn center_of_extreme_rect() {
    assert_eq!(
        get_center_of_rect(&rect(i32::MIN, 0, -1, i32::MAX)),
        Point { x: -1_073_741_825, y: 1_073_741_823 }
    );
}

#[test]
fn client_size_of_plain_rect() {
    assert_eq!(get_client_size(&rect(0, 0, 800, 600)), ClientSize { width: 800, height: 600 });
}

#[test]
fn client_size_of_inverted_rect_wraps() {
    assert_eq!(
        get_client_size(&rect(10, 0, 5, 0)),
        ClientSize { width: 4_294_967_291, height: 0 }
    );
}

#[test]
fn centered_window_is_centered() {
    assert!(is_centered(&rect(0, 0, 1920, 1040), &rect(560, 220, 1360, 820)));
}

#[test]
fn offset_window_is_not_centered() {
    assert!(!is_centered(&rect(0, 0, 1920, 1040), &rect(561, 220, 1361, 820)));
    assert!(!is_centered(&rect(0, 0, 1920, 1040), &rect(560, 0, 1360, 600)));
}

#[test]
fn centering_position_on_primary_monitor() {
    assert_eq!(
        center_to_screen(&rect(0, 0, 1920, 1040), &rect(0, 0, 800, 600)),
        Point { x: 560, y: 220 }
    );
}

#[test]
fn centering_position_with_odd_sizes() {
    assert_eq!(
        center_to_screen(&rect(1920, 0, 3841, 1081), &rect(7, 9, 808, 610)),
        Point { x: 2480, y: 240 }
    );
}

#[test]
fn centering_then_checking_reports_centered() {
    let work = rect(-1280, 40, 0, 1024);
    for window in [rect(3, 5, 804, 606), rect(0, 0, 1, 1), rect(-50, -50, 2000, 1500)] {
        let origin = center_to_screen(&work, &window);
        let moved = rect(
            origin.x,
            origin.y,
            origin.x + (window.right - window.left),
            origin.y + (window.bottom - window.top),
        );
        assert!(is_centered(&work, &moved));
        assert_eq!(center_to_screen(&work, &moved), origin);
    }
}

#[test]
fn resize_keeps_frame_and_center() {
    let window = rect(100, 100, 920, 740);
    let client = rect(0, 0, 800, 600);
    let placement = resize_client(&window, &client, 1280, 800);
    assert_eq!(placement, Placement { x: -140, y: 0, cx: 1300, cy: 840 });
    let resized = rect(
        placement.x,
        placement.y,
        placement.x + placement.cx,
        placement.y + placement.cy,
    );
    assert_eq!(get_center_of_rect(&resized), get_center_of_rect(&window));
}

#[test]
fn resize_to_same_size_keeps_placement() {
    let window = rect(10, 20, 830, 660);
    let client = rect(0, 0, 800, 600);
    assert_eq!(
        resize_client(&window, &client, 800, 600),
        Placement { x: 10, y: 20, cx: 820, cy: 640 }
    );
}

#[test]
fn resize_shrinking_with_odd_widths() {
    let window = rect(0, 0, 1001, 701);
    let client = rect(0, 0, 985, 662);
    assert_eq!(
        resize_client(&window, &client, 480, 300),
        Placement { x: 252, y: 181, cx: 496, cy: 339 }
    );
}

#[test]
fn measurable_rects() {
    assert!(is_measurable(&rect(0, 0, 1920, 1080)));
    assert!(is_measurable(&rect(i32::MIN, 0, -1, i32::MAX)));
    assert!(!is_measurable(&rect(i32::MIN, 0, 0, 0)));
    assert!(!is_measurable(&rect(0, i32::MAX, 0, -2)));
}

#[test]
fn centering_overflow_is_detected() {
    assert!(can_center(&rect(0, 0, 1920, 1040), &rect(0, 0, 800, 600)));
    assert!(!can_center(&rect(i32::MAX - 1, 0, i32::MAX, 0), &rect(4, 0, 0, 0)));
    assert!(can_center(&rect(i32::MAX - 1, 0, i32::MAX, 0), &rect(2, 0, 0, 0)));
    assert!(!can_center(&rect(i32::MIN, 0, 0, 0), &rect(0, 0, 1, 1)));
}

#[test]
fn resizing_overflow_is_detected() {
    let window = rect(100, 100, 920, 740);
    let client = rect(0, 0, 800, 600);
    assert!(can_resize(&window, &client, 1280, 800));
    assert!(!can_resize(&window, &client, i32::MAX, 800));
    assert!(!can_resize(&window, &client, 1280, i32::MAX - 100));
    assert!(can_resize(&window, &client, i32::MIN, i32::MIN));
    assert!(!can_resize(&rect(i32::MIN, 0, 1, 0), &client, 1280, 800));
}
