use flappy_bird::geometry::{px, Size, Vec2};
use flappy_bird::prefabs::button::Button;

// A button with a texture of the given size, asked about a point on a
// screen of the given size.
struct TestableButton {
    button: Button,
    screen_width: i64,
    screen_height: i64,
}

impl TestableButton {
    fn new(texture_width: i32, texture_height: i32, screen_width: i32, screen_height: i32) -> Self {
        Self {
            button: Button::new(Size::new(px(texture_width), px(texture_height))),
            screen_width: px(screen_width),
            screen_height: px(screen_height),
        }
    }

    fn contains(&self, point: Vec2) -> bool {
        self.button.contains(point, self.screen_width, self.screen_height)
    }
}

#[test]
fn test_point_inside_button() {
    let button = TestableButton::new(100, 50, 800, 600);
    let inside_point = Vec2::new(px(400), px(300));
    assert!(button.contains(inside_point));
}

#[test]
fn test_point_outside_button() {
    let button = TestableButton::new(100, 50, 800, 600);
    let outside_point = Vec2::new(px(10), px(10));
    assert!(!button.contains(outside_point));
}

#[test]
fn test_point_on_edge_of_button() {
    let button = TestableButton::new(100, 50, 800, 600);
    let edge_point = Vec2::new(px(400) + px(50), px(300));
    assert!(!button.contains(edge_point));
}

#[test]
fn button_region_is_half_open() {
    let button = TestableButton::new(100, 50, 800, 600);
    // The region is [350, 450) x [275, 325).
    assert!(button.contains(Vec2::new(px(350), px(275))));
    assert!(!button.contains(Vec2::new(px(350) - 1, px(275))));
    assert!(!button.contains(Vec2::new(px(350), px(275) - 1)));
    assert!(button.contains(Vec2::new(px(450) - 1, px(325) - 1)));
    assert!(!button.contains(Vec2::new(px(450) - 1, px(325))));
}

#[test]
fn button_far_outside_the_number_range_of_pixels() {
    let button = Button::new(Size::new(i64::MAX, i64::MAX));
    assert!(button.contains(Vec2::new(0, 0), 0, 0));
    assert!(!button.contains(Vec2::new(i64::MIN, 0), 0, 0));
    let empty = Button::new(Size::new(0, 0));
    assert!(!empty.contains(Vec2::new(0, 0), 0, 0));
}
