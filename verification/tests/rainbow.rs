use overlay_input::color::{hue_after, with_alpha_all, Color, FULL_TURN};
use overlay_input::state::{FontDescriptor, InputState};

fn fresh(step: u32) -> InputState {
    let font = FontDescriptor {
        family: String::from("Sans"),
        weight: String::from("bold"),
        style: String::from("normal"),
    };
    InputState::with_defaults(Color { r: 0, g: 0, b: 1000, a: 1000 }, 3_000, 12_000, 320, false, 32_000, font, 20_000, 30_000, step)
}

#[test]
fn hue_circle_has_six_corners() {
    assert_eq!(Color::from_hue(0), Color { r: 1000, g: 0, b: 0, a: 1000 });
    assert_eq!(Color::from_hue(60_000), Color { r: 1000, g: 1000, b: 0, a: 1000 });
    assert_eq!(Color::from_hue(120_000), Color { r: 0, g: 1000, b: 0, a: 1000 });
    assert_eq!(Color::from_hue(180_000), Color { r: 0, g: 1000, b: 1000, a: 1000 });
    assert_eq!(Color::from_hue(240_000), Color { r: 0, g: 0, b: 1000, a: 1000 });
    assert_eq!(Color::from_hue(300_000), Color { r: 1000, g: 0, b: 1000, a: 1000 });
}

#[test]
fn hue_circle_ramps_between_corners() {
    assert_eq!(Color::from_hue(5_000), Color { r: 1000, g: 83, b: 0, a: 1000 });
    assert_eq!(Color::from_hue(30_000), Color { r: 1000, g: 500, b: 0, a: 1000 });
    assert_eq!(Color::from_hue(90_000), Color { r: 500, g: 1000, b: 0, a: 1000 });
    assert_eq!(Color::from_hue(150_000), Color { r: 0, g: 1000, b: 500, a: 1000 });
    assert_eq!(Color::from_hue(210_000), Color { r: 0, g: 500, b: 1000, a: 1000 });
    assert_eq!(Color::from_hue(270_000), Color { r: 500, g: 0, b: 1000, a: 1000 });
    assert_eq!(Color::from_hue(330_000), Color { r: 1000, g: 0, b: 500, a: 1000 });
    assert_eq!(Color::from_hue(359_999), Color { r: 1000, g: 0, b: 1, a: 1000 });
    assert_eq!(Color::from_hue(59), Color { r: 1000, g: 0, b: 0, a: 1000 });
    assert_eq!(Color::from_hue(60), Color { r: 1000, g: 1, b: 0, a: 1000 });
}

#[test]
fn hue_circle_wraps_after_a_turn() {
    assert_eq!(Color::from_hue(360_000), Color::from_hue(0));
    assert_eq!(Color::from_hue(365_000), Color::from_hue(5_000));
    assert_eq!(Color::from_hue(720_000 + 90_000), Color::from_hue(90_000));
    assert_eq!(Color::from_hue(u64::MAX), Color::from_hue(u64::MAX % 360_000));
}

#[test]
fn rainbow_colors_are_opaque_and_saturated() {
    let mut hue: u64 = 0;
    while hue < 360_000 {
        let c = Color::from_hue(hue);
        assert_eq!(c.a, 1000);
        assert!(c.r <= 1000 && c.g <= 1000 && c.b <= 1000);
        assert!(c.r == 1000 || c.g == 1000 || c.b == 1000);
        assert!(c.r == 0 || c.g == 0 || c.b == 0);
        hue += 777;
    }
}

#[test]
fn hue_after_follows_the_formula() {
    assert_eq!(hue_after(0, 0, 1_000), 0);
    assert_eq!(hue_after(0, 5_000, 1_000), 5_000);
    assert_eq!(hue_after(10_000, 5_000, 2_000), 20_000);
    assert_eq!(hue_after(0, 1_500, 500), 750);
    assert_eq!(hue_after(0, 999, 1), 0);
    assert_eq!(hue_after(0, 1_000, 1), 1);
    assert_eq!(hue_after(0, 1_999, 1), 1);
    assert_eq!(hue_after(350_000, 20_000, 1_000), 10_000);
    assert_eq!(hue_after(0, 360_000, 1_000), 0);
    assert_eq!(hue_after(123, 77, 0), 123);
    assert_eq!(hue_after(400_000, 0, 1_000), 40_000);
}

#[test]
fn hue_after_agrees_with_wide_arithmetic() {
    let cases: [(u32, u128, u32); 6] = [
        (0, 360_000_000, 7),
        (359_999, 360_000_001, 4_294_967_295),
        (17, 1 << 100, 3),
        (4_294_967_295, u64::MAX as u128, 4_294_967_295),
        (5, 123_456_789_012_345, 999),
        (0, 18_446_744_073_709_551_615, 1_001),
    ];
    for (start, distance, step) in cases {
        let expected = ((start as u128 + distance * step as u128 / 1000) % 360_000) as u32;
        assert_eq!(hue_after(start, distance, step), expected);
    }
}

#[test]
fn hue_after_handles_the_largest_distance() {
    let hue = hue_after(1, u128::MAX, 1_000);
    assert!(hue < FULL_TURN);
    let rest = u128::MAX % 360_000_000;
    assert_eq!(hue, ((1 + rest) % 360_000) as u32);
}

#[test]
fn toggle_switches_and_resets_the_hue() {
    let mut s = fresh(1_000);
    s.advance_rainbow_hue(42_000);
    assert_eq!(s.get_rainbow_hue(), 42_000);
    assert!(s.toggle_rainbow_mode());
    assert!(s.is_rainbow_mode_enabled());
    assert_eq!(s.get_rainbow_hue(), 0);
    assert!(s.dirty_tracker.take_full());
    assert!(s.needs_redraw);
    s.advance_rainbow_hue(10_000);
    assert!(s.toggle_rainbow_mode());
    assert!(!s.is_rainbow_mode_enabled());
    assert_eq!(s.get_rainbow_hue(), 10_000);
    assert!(s.dirty_tracker.is_full());
    assert!(s.toggle_rainbow_mode());
    assert_eq!(s.get_rainbow_hue(), 0);
}

#[test]
fn advance_adds_up_and_wraps() {
    let mut s = fresh(1_000);
    s.advance_rainbow_hue(100_000);
    assert_eq!(s.get_rainbow_hue(), 100_000);
    s.advance_rainbow_hue(200_000);
    assert_eq!(s.get_rainbow_hue(), 300_000);
    s.advance_rainbow_hue(100_000);
    assert_eq!(s.get_rainbow_hue(), 40_000);
    s.advance_rainbow_hue(0);
    assert_eq!(s.get_rainbow_hue(), 40_000);
    s.advance_rainbow_hue(360_000 * 3);
    assert_eq!(s.get_rainbow_hue(), 40_000);
    s.advance_rainbow_hue(u64::MAX);
    assert_eq!(s.get_rainbow_hue(), ((40_000 + u64::MAX as u128) % 360_000) as u32);
}

#[test]
fn advance_scales_with_the_step() {
    let mut s = fresh(500);
    s.advance_rainbow_hue(10_000);
    assert_eq!(s.get_rainbow_hue(), 5_000);
    let mut quick = fresh(2_500);
    quick.advance_rainbow_hue(10_000);
    assert_eq!(quick.get_rainbow_hue(), 25_000);
    let mut still = fresh(0);
    still.advance_rainbow_hue(10_000);
    assert_eq!(still.get_rainbow_hue(), 0);
}

#[test]
fn advance_changes_only_the_hue() {
    let mut s = fresh(1_000);
    let before = s.clone();
    s.advance_rainbow_hue(7_000);
    let mut expected = before;
    expected.rainbow_hue = 7_000;
    assert_eq!(s, expected);
    assert!(!s.needs_redraw);
}

#[test]
fn color_at_distance_starts_from_hue_zero() {
    let s = fresh(1_000);
    assert_eq!(s.rainbow_color_at_distance(0), Color::from_hue(0));
    assert_eq!(s.rainbow_color_at_distance(5_000), Color::from_hue(5_000));
    assert_eq!(s.rainbow_color_at_distance(120_000), Color { r: 0, g: 1000, b: 0, a: 1000 });
    assert_eq!(s.rainbow_color_at_distance(365_000), Color::from_hue(5_000));
    let half = fresh(500);
    assert_eq!(half.rainbow_color_at_distance(120_000), Color::from_hue(60_000));
}

#[test]
fn color_from_hue_wraps() {
    let s = fresh(1_000);
    assert_eq!(s.rainbow_color_from_hue(240_000), Color { r: 0, g: 0, b: 1000, a: 1000 });
    assert_eq!(s.rainbow_color_from_hue(600_000), Color { r: 0, g: 0, b: 1000, a: 1000 });
}

#[test]
fn color_at_zero_after_a_whole_turn_is_the_color_of_the_hue() {
    let mut s = fresh(1_000);
    s.advance_rainbow_hue(360_000);
    assert_eq!(s.get_rainbow_hue(), 0);
    assert_eq!(s.rainbow_color_at_distance(0), s.rainbow_color_from_hue(s.get_rainbow_hue() as u64));
    s.advance_rainbow_hue(59);
    assert_eq!(s.rainbow_color_at_distance(0), s.rainbow_color_from_hue(s.get_rainbow_hue() as u64));
}

#[test]
fn color_at_zero_does_not_follow_the_hue() {
    let mut s = fresh(1_000);
    s.advance_rainbow_hue(5_000);
    assert_eq!(s.get_rainbow_hue(), 5_000);
    assert_eq!(s.rainbow_color_at_distance(0), Color { r: 1000, g: 0, b: 0, a: 1000 });
    assert_eq!(s.rainbow_color_from_hue(5_000), Color { r: 1000, g: 83, b: 0, a: 1000 });
    assert_ne!(s.rainbow_color_at_distance(0), s.rainbow_color_from_hue(s.get_rainbow_hue() as u64));
}

#[test]
fn point_colors_follow_the_distance() {
    let s = fresh(1_000);
    let colors = s.generate_rainbow_colors_for_points(&[(0, 0), (3, 4), (3, 4)]);
    assert_eq!(colors, vec![Color::from_hue(0), Color::from_hue(5_000), Color::from_hue(5_000)]);
    assert_eq!(
        colors,
        vec![
            Color { r: 1000, g: 0, b: 0, a: 1000 },
            Color { r: 1000, g: 83, b: 0, a: 1000 },
            Color { r: 1000, g: 83, b: 0, a: 1000 },
        ]
    );
}

#[test]
fn point_colors_start_at_the_current_hue() {
    let mut s = fresh(2_000);
    s.advance_rainbow_hue(50_000);
    assert_eq!(s.get_rainbow_hue(), 100_000);
    let colors = s.generate_rainbow_colors_for_points(&[(10, 10), (10, 20), (40, 60), (40, 60), (-20, 60)]);
    assert_eq!(
        colors,
        vec![
            Color::from_hue(100_000),
            Color::from_hue(120_000),
            Color::from_hue(220_000),
            Color::from_hue(220_000),
            Color::from_hue(340_000),
        ]
    );
}

#[test]
fn point_colors_wrap_past_a_turn() {
    let mut s = fresh(1_000);
    s.advance_rainbow_hue(350_000);
    let colors = s.generate_rainbow_colors_for_points(&[(0, 0), (0, 20), (0, 400)]);
    assert_eq!(colors, vec![Color::from_hue(350_000), Color::from_hue(10_000), Color::from_hue(30_000)]);
}

#[test]
fn point_colors_round_each_segment_down() {
    let s = fresh(1_000);
    let colors = s.generate_rainbow_colors_for_points(&[(0, 0), (1, 1), (2, 2)]);
    assert_eq!(colors, vec![Color::from_hue(0), Color::from_hue(1_414), Color::from_hue(2_828)]);
}

#[test]
fn point_colors_of_nothing_and_of_one_point() {
    let mut s = fresh(1_000);
    assert_eq!(s.generate_rainbow_colors_for_points(&[]), Vec::<Color>::new());
    s.advance_rainbow_hue(77_000);
    assert_eq!(s.generate_rainbow_colors_for_points(&[(9, 9)]), vec![Color::from_hue(77_000)]);
}

#[test]
fn point_colors_leave_the_state_alone() {
    let mut s = fresh(1_000);
    s.advance_rainbow_hue(12_345);
    let before = s.clone();
    let points = [(0, 0), (30, 40), (60, 80), (-5, 7)];
    let first = s.generate_rainbow_colors_for_points(&points);
    let second = s.generate_rainbow_colors_for_points(&points);
    assert_eq!(first, second);
    assert_eq!(first.len(), points.len());
    assert_eq!(s, before);
    assert_eq!(s.get_rainbow_hue(), 12_345);
}

#[test]
fn point_colors_span_the_whole_plane() {
    let s = fresh(1);
    let points = [(i32::MIN, i32::MIN), (i32::MAX, i32::MAX), (i32::MIN, i32::MAX), (0, 0)];
    let colors = s.generate_rainbow_colors_for_points(&points);
    assert_eq!(colors.len(), 4);
    assert_eq!(colors[0], Color::from_hue(0));
    let diagonal: u128 = 6_074_000_998_537;
    let side: u128 = 4_294_967_295_000;
    let back: u128 = 3_037_000_499_268;
    assert_eq!(colors[1], Color::from_hue((diagonal * 1 / 1000 % 360_000) as u64));
    assert_eq!(colors[2], Color::from_hue(((diagonal + side) / 1000 % 360_000) as u64));
    assert_eq!(colors[3], Color::from_hue(((diagonal + side + back) / 1000 % 360_000) as u64));
}

#[test]
fn alpha_is_replaced_in_every_color() {
    let colors = vec![Color::from_hue(0), Color { r: 1, g: 2, b: 3, a: 4 }];
    assert_eq!(
        with_alpha_all(colors, 320),
        vec![Color { r: 1000, g: 0, b: 0, a: 320 }, Color { r: 1, g: 2, b: 3, a: 320 }]
    );
    assert_eq!(with_alpha_all(Vec::new(), 5), Vec::<Color>::new());
    assert_eq!(Color { r: 9, g: 8, b: 7, a: 6 }.with_alpha(0), Color { r: 9, g: 8, b: 7, a: 0 });
}
