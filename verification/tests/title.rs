use flappy_bird::geometry::{px, Size, Vec2};
use flappy_bird::input::FrameInput;
use flappy_bird::scenes::game::GameAssets;
use flappy_bird::scenes::title::{TitleAssets, TitleScene};
use flappy_bird::scenes::{Scene, Transition};

fn size(w: i32, h: i32) -> Size {
    Size::new(px(w), px(h))
}

fn title_assets() -> TitleAssets {
    TitleAssets {
        forest: size(512, 256),
        cityscape: size(512, 128),
        clouds: size(512, 128),
        ground: size(336, 112),
        button: size(104, 58),
        title: size(178, 48),
        bird: size(102, 24),
    }
}

fn game_assets() -> GameAssets {
    GameAssets {
        forest: size(512, 256),
        cityscape: size(512, 128),
        clouds: size(512, 128),
        ground: size(336, 112),
        button: size(104, 58),
        game_over: size(192, 42),
        scoreboard: size(226, 116),
        get_ready: size(184, 50),
        instructions: size(114, 98),
    }
}

fn frame(mouse_down: bool, x: i32, y: i32, escape_pressed: bool) -> FrameInput {
    FrameInput {
        screen_width: px(800),
        screen_height: px(600),
        mouse_down,
        mouse_position: Vec2::new(px(x), px(y)),
        escape_pressed,
        frame_time: 16_667,
    }
}

// The title screen with its two flags, and the events that change them.
struct DummyTitleScene {
    scene: TitleScene,
}

impl DummyTitleScene {
    fn new() -> Self {
        DummyTitleScene { scene: TitleScene::new() }
    }

    fn is_loading(&self) -> bool {
        self.scene.is_loading()
    }

    fn is_loading_game(&self) -> bool {
        self.scene.is_loading_game()
    }

    fn simulate_asset_load(&mut self) {
        self.scene.load_assets(&title_assets());
    }

    fn simulate_game_load_start(&mut self) {
        self.scene.loading_game = true;
    }

    fn simulate_game_loaded(&mut self) {
        self.scene.load_game_scene(&game_assets(), px(800), px(600), None);
    }
}

#[test]
fn test_initial_state() {
    let scene = DummyTitleScene::new();
    assert!(scene.is_loading());
    assert!(!scene.is_loading_game());
}

#[test]
fn test_asset_loading_changes_state() {
    let mut scene = DummyTitleScene::new();
    scene.simulate_asset_load();
    assert!(!scene.is_loading());
}

#[test]
fn test_game_loading_flag_can_be_enabled() {
    let mut scene = DummyTitleScene::new();
    scene.simulate_game_load_start();
    assert!(scene.is_loading_game());
}

#[test]
fn test_game_loading_flag_can_be_disabled() {
    let mut scene = DummyTitleScene::new();
    scene.simulate_game_load_start();
    scene.simulate_game_loaded();
    assert!(!scene.is_loading_game());
}

#[test]
fn test_asset_load_does_not_affect_game_flag() {
    let mut scene = DummyTitleScene::new();
    scene.simulate_asset_load();
    assert!(!scene.is_loading());
    assert!(!scene.is_loading_game());
}

#[test]
fn test_game_flag_does_not_affect_asset_flag() {
    let mut scene = DummyTitleScene::new();
    scene.simulate_game_load_start();
    assert!(scene.is_loading_game());
    assert!(scene.is_loading()); // still loading assets
}

#[test]
fn loading_the_textures_is_done_once() {
    let mut scene = TitleScene::new();
    scene.load_assets(&title_assets());
    let ground = scene.ground;
    assert_eq!(ground.map(|g| g.texture), Some(size(336, 112)));
    assert_eq!(scene.button.map(|b| b.texture), Some(size(104, 58)));
    assert_eq!(scene.title, Some(size(178, 48)));
    assert_eq!(scene.bird, Some(size(102, 24)));

    scene.update(&frame(false, 0, 0, false));
    let mut other = title_assets();
    other.ground = size(10, 10);
    other.title = size(1, 1);
    scene.load_assets(&other);
    assert_eq!(scene.ground.map(|g| g.texture), Some(size(336, 112)));
    assert_eq!(scene.ground.map(|g| g.scroll_pos), Some(-900));
    assert_eq!(scene.title, Some(size(178, 48)));
    assert!(!scene.is_loading());
}

#[test]
fn a_scene_that_waits_for_no_game_builds_none() {
    let mut scene = TitleScene::new();
    scene.load_assets(&title_assets());
    assert!(scene.load_game_scene(&game_assets(), px(800), px(600), Some(4)).is_none());
    assert!(!scene.is_loading_game());

    scene.update(&frame(true, 400, 300, false));
    assert!(scene.is_loading_game());
    let game = scene.load_game_scene(&game_assets(), px(800), px(600), Some(4));
    assert!(!scene.is_loading_game());
    let game = game.expect("the game the scene waited for");
    assert_eq!(game.highscore, 4);
    assert_eq!(game.bird.position, Vec2::new(px(320), px(300)));
    assert!(game.is_mouse_down);
    // The game is built once.
    assert!(scene.load_game_scene(&game_assets(), px(800), px(600), Some(4)).is_none());
}

#[test]
fn a_scene_that_waits_does_nothing() {
    let mut scene = TitleScene::new();
    assert_eq!(scene.update(&frame(true, 400, 300, true)), Transition::Stay);
    assert!(scene.is_loading());
    assert!(!scene.is_loading_game());
    assert!(scene.background.is_none());

    scene.load_assets(&title_assets());
    scene.update(&frame(true, 400, 300, false));
    assert!(scene.is_loading_game());
    let before = (scene.background, scene.ground);
    assert_eq!(scene.update(&frame(false, 0, 0, true)), Transition::Stay);
    assert_eq!(before, (scene.background, scene.ground));
    assert!(scene.is_loading_game());
}

#[test]
fn the_world_behind_the_title_scrolls() {
    let mut scene = TitleScene::new();
    scene.load_assets(&title_assets());
    assert_eq!(scene.update(&frame(false, 0, 0, false)), Transition::Stay);
    assert_eq!(scene.update(&frame(true, 0, 0, false)), Transition::Stay);
    let background = scene.background.expect("loaded");
    assert_eq!(
        (background.forest_pos, background.cityscape_pos, background.cloud_pos),
        (-1350, -900, -450)
    );
    assert_eq!(scene.ground.expect("loaded").scroll_pos, -1800);
    assert!(!scene.is_loading_game());
    assert_eq!(scene.update(&frame(false, 400, 300, true)), Transition::Pop);
}

#[test]
fn the_start_button_works_while_the_pointer_button_is_held() {
    let mut scene = TitleScene::new();
    scene.load_assets(&title_assets());
    // Held down beside the button, then dragged onto it.
    scene.update(&frame(true, 10, 10, false));
    assert!(!scene.is_loading_game());
    assert_eq!(scene.update(&frame(true, 348, 271, false)), Transition::Stay);
    assert!(scene.is_loading_game());
}

#[test]
fn the_start_button_ends_before_its_right_and_bottom_edge() {
    for (x, y, inside) in [(451, 328, true), (452, 328, false), (451, 329, false)] {
        let mut scene = TitleScene::new();
        scene.load_assets(&title_assets());
        scene.update(&frame(true, x, y, false));
        assert_eq!(scene.is_loading_game(), inside, "at {x}, {y}");
    }
}
