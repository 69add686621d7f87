use charpick::caret::{choose_init_window_pos, ScreenPoint};

#[test]
fn popup_prefers_space_above_the_caret() {
    // Above-space = 500 - 30 - 200 = 270 >= 0, so y = 270.
    let p = choose_init_window_pos(
        1920,
        1080,
        Some(ScreenPoint { x: 960, y: 500 }),
        300,
        200,
    );
    assert_eq!(p.y, 270);
}

#[test]
fn popup_falls_back_below_the_caret() {
    // Above-space = 50 - 30 - 200 < 0; below y = 50 + 50 + 30 = 130 and
    // 1080 - 130 - 200 >= 0, so y = 130.
    let p = choose_init_window_pos(
        1920,
        1080,
        Some(ScreenPoint { x: 960, y: 50 }),
        300,
        200,
    );
    assert_eq!(p.y, 130);
}

#[test]
fn popup_lands_on_monitor_top_when_nothing_fits() {
    // Above-space negative and below does not fit either: y = 0.
    let p = choose_init_window_pos(800, 300, Some(ScreenPoint { x: 400, y: 50 }), 300, 200);
    assert_eq!(p.y, 0);
}

#[test]
fn horizontal_centering_on_the_caret() {
    // left_space = 960 - 150 = 810, right side fits, so x = 810.
    let p = choose_init_window_pos(
        1920,
        1080,
        Some(ScreenPoint { x: 960, y: 500 }),
        300,
        200,
    );
    assert_eq!(p.x, 810);
}

#[test]
fn horizontal_clamps_at_the_left_edge() {
    let p = choose_init_window_pos(1920, 1080, Some(ScreenPoint { x: 40, y: 500 }), 300, 200);
    assert_eq!(p.x, 0);
}

#[test]
fn horizontal_clamps_at_the_right_edge() {
    // right_space = 1000 - 950 - 4 - 150 < 0, so x = 1000 - 300.
    let p = choose_init_window_pos(1000, 1080, Some(ScreenPoint { x: 950, y: 500 }), 300, 200);
    assert_eq!(p.x, 700);
}

#[test]
fn horizontal_always_stays_on_the_monitor() {
    // Wherever the caret sits, x lands in [0, monitor_width - popup_width].
    for cx in (-500..2500).step_by(7) {
        for cy in [-100, 0, 270, 1080, 2000] {
            let p = choose_init_window_pos(1920, 1080, Some(ScreenPoint { x: cx, y: cy }), 300, 200);
            assert!(0 <= p.x && p.x <= 1920 - 300, "cx={cx} gave x={}", p.x);
        }
    }
}

#[test]
fn no_caret_defaults_to_monitor_origin() {
    let p = choose_init_window_pos(1920, 1080, None, 300, 200);
    assert_eq!(p, ScreenPoint { x: 0, y: 0 });
}
