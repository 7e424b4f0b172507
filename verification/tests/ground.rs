use flappy_bird::geometry::{px, Rect, Size};
use flappy_bird::prefabs::ground::Ground;
use flappy_bird::systems::scrolling::advance;
use flappy_bird::SCROLL_SPEED;

// A ground with a texture of the given size that scrolls two pixels a
// frame.
struct DummyGround {
    ground: Ground,
}

impl DummyGround {
    fn new(scroll_pos: i64, scroll: bool, width: i32, height: i32) -> Self {
        let mut ground = Ground::new(Size::new(px(width), px(height)));
        ground.scroll_pos = scroll_pos;
        ground.scroll = scroll;
        DummyGround { ground }
    }

    fn update(&mut self) {
        if self.ground.scroll {
            self.ground.scroll_pos =
                advance(self.ground.scroll_pos, px(2), self.ground.texture.width);
        }
    }

    fn get_collision_rect(&self, screen_w: i32, screen_h: i32) -> Rect {
        self.ground.get_collision_rect(px(screen_w), px(screen_h))
    }

    fn collides_with(&self, obj: &Rect, screen_w: i32, screen_h: i32) -> bool {
        self.ground.collides_with(obj, px(screen_w), px(screen_h))
    }
}

#[test]
fn test_update_scroll_enabled() {
    let mut ground = DummyGround::new(px(0), true, 200, 50);
    ground.update();
    assert_ne!(ground.ground.scroll_pos, px(0));
    assert_eq!(ground.ground.scroll_pos, px(-2));
}

#[test]
fn test_update_scroll_disabled() {
    let mut ground = DummyGround::new(px(42), false, 200, 50);
    ground.update();
    assert_eq!(ground.ground.scroll_pos, px(42));
}

#[test]
fn test_get_collision_rect() {
    let ground = DummyGround::new(px(0), true, 200, 50);
    let rect = ground.get_collision_rect(800, 600);
    assert_eq!(rect.x, px(0));
    assert_eq!(rect.y, px(550));
    assert_eq!(rect.w, px(800));
    assert_eq!(rect.h, px(50));
}

#[test]
fn test_collides_with_overlap() {
    let ground = DummyGround::new(px(0), true, 200, 50);
    let test_obj = Rect::new(px(0), px(580), px(50), px(50));
    assert!(ground.collides_with(&test_obj, 800, 600));
}

#[test]
fn test_collides_with_no_overlap() {
    let ground = DummyGround::new(px(0), true, 200, 50);
    let test_obj = Rect::new(px(0), px(480), px(50), px(50));
    assert!(!ground.collides_with(&test_obj, 800, 600));
}

#[test]
fn ground_scrolls_at_the_scroll_speed_and_wraps() {
    let mut ground = Ground::new(Size::new(px(336), px(112)));
    assert!(ground.scroll);
    assert_eq!(ground.scroll_pos, 0);
    ground.update();
    assert_eq!(ground.scroll_pos, -SCROLL_SPEED);
    for _ in 0..111 {
        ground.update();
    }
    // 112 frames at three pixels are exactly one width: the remainder is
    // zero, not the width.
    assert_eq!(ground.scroll_pos, 0);
    ground.scroll_pos = px(-335);
    ground.update();
    assert_eq!(ground.scroll_pos, px(-2));
    ground.scroll = false;
    ground.update();
    assert_eq!(ground.scroll_pos, px(-2));
}

#[test]
fn an_object_resting_on_the_ground_does_not_collide() {
    let ground = Ground::new(Size::new(px(200), px(50)));
    let resting = Rect::new(px(10), px(500), px(50), px(50));
    assert!(!ground.collides_with(&resting, px(800), px(600)));
    let sunk = Rect::new(px(10), px(500) + 1, px(50), px(50));
    assert!(ground.collides_with(&sunk, px(800), px(600)));
}
