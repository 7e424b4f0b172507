use flappy_bird::geometry::{px, Rect, Vec2, UNITS_PER_PIXEL};
use flappy_bird::prefabs::bird::{
    Bird, BIRD_HEIGHT, BIRD_WIDTH, BOTTOM_MARGIN, FLAP_IMPULSE, FRAME_DURATION, GRAVITY_STEP, MIN_Y,
};
use flappy_bird::systems::physics::PhysicsBody;
use flappy_bird::GRAVITY;

fn to_pixels(units: i64) -> f32 {
    units as f32 / UNITS_PER_PIXEL as f32
}

// A living bird at rest at (100, 300), gravity off.
fn test_bird() -> Bird {
    Bird {
        current_frame: 0,
        frame_timer: 0,
        velocity: Vec2::zero(),
        position: Vec2::new(px(100), px(300)),
        allow_gravity: false,
        alive: true,
        fixed_x_position: px(100),
    }
}

#[test]
fn test_flap_impulse() {
    let mut bird = test_bird();
    bird.flap();
    assert!((to_pixels(bird.velocity.y) - (-6.5)).abs() <= 0.001);
    assert_eq!(bird.velocity.y, FLAP_IMPULSE);
}

#[test]
fn test_kill_resets_velocity() {
    let mut bird = test_bird();
    bird.velocity.y = px(-5);
    bird.kill();
    assert!(!bird.alive);
    assert!((to_pixels(bird.velocity.y) - 0.0).abs() <= 0.001);
    assert_eq!(bird.velocity, Vec2::zero());
}

#[test]
fn test_collision_rect_calculation() {
    let mut bird = test_bird();
    bird.position = Vec2::new(px(50), px(75));
    let rect = bird.get_collision_rect();

    assert!((to_pixels(rect.x) - 50.0).abs() <= 0.001);
    assert!((to_pixels(rect.y) - 75.0).abs() <= 0.001);
    assert!((to_pixels(rect.w) - 34.0).abs() <= 0.001);
    assert!((to_pixels(rect.h) - 24.0).abs() <= 0.001);
    assert_eq!(rect, Rect::new(px(50), px(75), BIRD_WIDTH, BIRD_HEIGHT));
}

#[test]
fn test_collision_detection() {
    let mut bird = test_bird();
    bird.position = Vec2::new(px(100), px(100));
    let obstacle = Rect::new(px(110), px(110), px(20), px(20));

    assert!(bird.collides_with(&obstacle));

    let distant_obstacle = Rect::new(px(200), px(200), px(20), px(20));
    assert!(!bird.collides_with(&distant_obstacle));
}

#[test]
fn flap_overrides_any_speed_and_does_not_add_up() {
    for speed in [i64::MIN, -5000, 0, 91, 1_000_000, i64::MAX] {
        let mut bird = test_bird();
        bird.velocity.y = speed;
        bird.flap();
        assert_eq!(bird.velocity.y, FLAP_IMPULSE);
        bird.flap();
        assert_eq!(bird.velocity.y, FLAP_IMPULSE);
    }
}

#[test]
fn flap_on_a_dead_bird_changes_nothing() {
    let mut bird = test_bird();
    bird.velocity = Vec2::new(7, 1234);
    bird.kill();
    bird.velocity.y = 55;
    bird.flap();
    assert_eq!(bird.velocity.y, 55);
    assert!(!bird.alive);
}

#[test]
fn new_bird_stands_at_two_fifths_of_the_width_and_half_the_height() {
    let bird = Bird::new(px(800), px(600));
    assert_eq!(bird.position, Vec2::new(px(320), px(300)));
    assert_eq!(bird.fixed_x_position, px(320));
    assert_eq!(bird.velocity, Vec2::zero());
    assert!(bird.alive);
    assert!(!bird.allow_gravity);
    assert_eq!(bird.current_frame, 0);
    // Rounded toward zero, also for a width below zero.
    assert_eq!(Bird::new(7, 9).position, Vec2::new(2, 4));
    assert_eq!(Bird::new(-7, -9).position, Vec2::new(-2, -4));
    assert_eq!(Bird::new(i64::MAX, i64::MIN).fixed_x_position, ((i64::MAX as i128 * 2) / 5) as i64);
}

#[test]
fn reset_recentres_and_revives_but_leaves_gravity() {
    let mut bird = test_bird();
    bird.allow_gravity = true;
    bird.position = Vec2::new(px(3), px(4));
    bird.velocity = Vec2::new(1, 2);
    bird.kill();
    bird.reset(px(600));
    assert_eq!(bird.position, Vec2::new(px(100), px(300)));
    assert_eq!(bird.velocity, Vec2::zero());
    assert!(bird.alive);
    assert!(bird.allow_gravity);
}

#[test]
fn gravity_step_is_a_thirtieth_of_gravity() {
    assert_eq!(GRAVITY, 2730);
    assert_eq!(GRAVITY_STEP * 30, GRAVITY);
    assert!((to_pixels(GRAVITY) - 9.1).abs() <= 0.001);
}

#[test]
fn update_without_gravity_only_animates() {
    let mut bird = test_bird();
    bird.update(40_000, px(600));
    assert_eq!(bird.position, Vec2::new(px(100), px(300)));
    assert_eq!(bird.velocity, Vec2::zero());
    assert_eq!((bird.current_frame, bird.frame_timer), (0, 40_000));
    bird.update(40_000, px(600));
    assert_eq!((bird.current_frame, bird.frame_timer), (0, 80_000));
    bird.update(20_000, px(600));
    assert_eq!((bird.current_frame, bird.frame_timer), (1, 0));
    bird.update(FRAME_DURATION as u32, px(600));
    assert_eq!((bird.current_frame, bird.frame_timer), (2, 0));
    bird.update(u32::MAX, px(600));
    assert_eq!((bird.current_frame, bird.frame_timer), (0, 0));
}

#[test]
fn a_dead_bird_does_not_change_its_wing_frame() {
    let mut bird = test_bird();
    bird.current_frame = 1;
    bird.kill();
    bird.update(FRAME_DURATION as u32, px(600));
    assert_eq!((bird.current_frame, bird.frame_timer), (1, 0));
}

#[test]
fn gravity_integrates_speed_then_position() {
    let mut bird = test_bird();
    bird.allow_gravity = true;
    bird.update(0, px(600));
    assert_eq!(bird.velocity.y, 91);
    assert_eq!(bird.position.y, px(300) + 91);
    bird.update(0, px(600));
    assert_eq!(bird.velocity.y, 182);
    assert_eq!(bird.position.y, px(300) + 91 + 182);
    assert_eq!(bird.position.x, px(100));
    bird.flap();
    bird.update(0, px(600));
    assert_eq!(bird.velocity.y, -1950 + 91);
    assert_eq!(bird.position.y, px(300) + 273 - 1859);
}

#[test]
fn position_is_clamped_but_speed_keeps_growing() {
    let mut bird = test_bird();
    bird.allow_gravity = true;
    bird.position.y = px(600) - BOTTOM_MARGIN - 10;
    bird.velocity.y = 0;
    bird.update(0, px(600));
    assert_eq!(bird.position.y, px(564));
    assert_eq!(bird.velocity.y, 91);
    bird.update(0, px(600));
    assert_eq!(bird.position.y, px(564));
    assert_eq!(bird.velocity.y, 182);

    bird.velocity.y = px(-1000);
    bird.update(0, px(600));
    assert_eq!(bird.position.y, MIN_Y);
    assert_eq!(bird.velocity.y, px(-1000) + 91);
}

#[test]
fn speed_and_position_stop_at_the_ends_of_the_number_range() {
    let mut bird = test_bird();
    bird.allow_gravity = true;
    bird.velocity.y = i64::MAX - 5;
    bird.position.y = i64::MAX;
    bird.update(0, px(48));
    assert_eq!(bird.velocity.y, i64::MAX);
    assert_eq!(bird.position.y, px(12));

    bird.velocity.y = i64::MIN;
    bird.position.y = i64::MIN;
    bird.update(0, i64::MAX);
    assert_eq!(bird.velocity.y, i64::MIN + 91);
    assert_eq!(bird.position.y, MIN_Y);
}

#[test]
fn a_dead_bird_still_falls_while_gravity_is_on() {
    let mut bird = test_bird();
    bird.allow_gravity = true;
    bird.kill();
    bird.update(0, px(600));
    assert_eq!(bird.velocity.y, 91);
    assert_eq!(bird.position.y, px(300) + 91);
}
