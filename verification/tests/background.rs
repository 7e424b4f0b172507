use flappy_bird::geometry::{px, Size, UNITS_PER_PIXEL};
use flappy_bird::prefabs::background::{
    Background, CITYSCAPE_SPEED, CLOUD_SPEED, FOREST_SPEED,
};
use flappy_bird::systems::scrolling::advance;
use flappy_bird::SCROLL_SPEED;

fn to_pixels(units: i64) -> f32 {
    units as f32 / UNITS_PER_PIXEL as f32
}

fn scroll_speed() -> f32 {
    to_pixels(SCROLL_SPEED)
}

#[test]
fn test_scroll_calculations() {
    let (f, c, cl) =
        Background::calculate_positions(px(0), px(0), px(0), px(100), px(150), px(200), true);

    assert!((to_pixels(f) - (-scroll_speed() * 0.75)).abs() <= 0.001);
    assert!((to_pixels(c) - (-scroll_speed() * 0.5)).abs() <= 0.001);
    assert!((to_pixels(cl) - (-scroll_speed() * 0.25)).abs() <= 0.001);
    assert_eq!((f, c, cl), (-675, -450, -225));
}

#[test]
fn test_position_wrapping() {
    let (f, _, _) =
        Background::calculate_positions(px(-95), px(0), px(0), px(100), px(150), px(200), true);

    let expected = (-95.0 - scroll_speed() * 0.75) % 100.0;
    assert!((to_pixels(f) - expected).abs() <= 0.001);
    assert_eq!(f, px(-97) - 75);
}

#[test]
fn test_scroll_disabled() {
    let (f, c, cl) =
        Background::calculate_positions(px(10), px(20), px(30), px(100), px(150), px(200), false);

    assert!((to_pixels(f) - 10.0).abs() <= 0.001);
    assert!((to_pixels(c) - 20.0).abs() <= 0.001);
    assert!((to_pixels(cl) - 30.0).abs() <= 0.001);
    assert_eq!((f, c, cl), (px(10), px(20), px(30)));
}

#[test]
fn test_parallax_speeds() {
    let (f, c, cl) =
        Background::calculate_positions(px(0), px(0), px(0), px(100), px(150), px(200), true);

    assert!(f.abs() > c.abs());
    assert!(c.abs() > cl.abs());
}

#[test]
fn layer_speeds_are_fractions_of_the_scroll_speed() {
    assert_eq!(SCROLL_SPEED, px(3));
    assert_eq!(FOREST_SPEED * 4, SCROLL_SPEED * 3);
    assert_eq!(CITYSCAPE_SPEED * 2, SCROLL_SPEED);
    assert_eq!(CLOUD_SPEED * 4, SCROLL_SPEED);
}

#[test]
fn advance_is_the_remainder_with_the_sign_of_the_dividend() {
    assert_eq!(advance(0, 900, 60_000), -900);
    assert_eq!(advance(-59_500, 900, 60_000), -400);
    assert_eq!(advance(100, 30, 60), 10);
    assert_eq!(advance(59, -1, 60), 0);
    assert_eq!(advance(-59, 1, 60), 0);
    assert_eq!(advance(0, 0, 1), 0);
    // The difference is taken before it is wrapped, beyond 64 bits if need be.
    assert_eq!(advance(i64::MIN, i64::MAX, 10), ((i64::MIN as i128 - i64::MAX as i128) % 10) as i64);
    assert_eq!(advance(i64::MAX, i64::MIN, i64::MAX), 1);
}

#[test]
fn advance_agrees_with_the_remainder_of_floats() {
    for p in [-250i64, -100, -1, 0, 1, 99, 100, 250] {
        for s in [-7i64, 0, 3, 101] {
            for w in [1i64, 7, 100] {
                let expected = ((p - s) as f64) % (w as f64);
                assert_eq!(advance(p, s, w) as f64, expected, "p={p} s={s} w={w}");
            }
        }
    }
}

#[test]
fn a_wrapping_layer_can_move_farther_than_a_nearer_one() {
    // The clouds wrap on this frame, the forest does not.
    let (f, _, cl) = Background::calculate_positions(
        px(0),
        px(0),
        px(-200) + 150,
        px(100),
        px(150),
        px(200),
        true,
    );
    assert_eq!(f, -675);
    assert_eq!(cl, -75);
    assert!((cl - (px(-200) + 150)).abs() > (f - 0).abs());
}

#[test]
fn background_update_scrolls_each_layer() {
    let size = |w: i32, h: i32| Size::new(px(w), px(h));
    let mut background = Background::new(size(100, 50), size(150, 60), size(200, 70));
    assert!(background.scroll);
    background.update();
    assert_eq!(
        (background.forest_pos, background.cityscape_pos, background.cloud_pos),
        (-675, -450, -225)
    );
    background.scroll = false;
    background.update();
    assert_eq!(
        (background.forest_pos, background.cityscape_pos, background.cloud_pos),
        (-675, -450, -225)
    );
}
