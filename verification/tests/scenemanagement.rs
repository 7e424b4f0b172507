use flappy_bird::geometry::{px, Size, Vec2};
use flappy_bird::input::FrameInput;
use flappy_bird::render::DrawCommand;
use flappy_bird::scenes::game::GameAssets;
use flappy_bird::scenes::title::TitleAssets;
use flappy_bird::scenes::{AnyScene, Scene, Transition};
use flappy_bird::systems::scenemanagement::{LoadRequest, Loaded, SceneManager};
use std::cell::RefCell;
use std::rc::Rc;

struct MockScene {
    transition: RefCell<Transition>,
    draw_called: Rc<RefCell<bool>>,
}

impl MockScene {
    fn new(transition: Transition, draw_called: Rc<RefCell<bool>>) -> Self {
        MockScene { transition: RefCell::new(transition), draw_called }
    }
}

impl Scene for MockScene {
    fn update(&mut self, _input: &FrameInput) -> Transition {
        self.transition.replace(Transition::Stay)
    }

    fn draw(&mut self, _screen_width: i64, _screen_height: i64) -> Vec<DrawCommand> {
        *self.draw_called.borrow_mut() = true;
        vec![DrawCommand::Clear]
    }
}

fn frame(mouse_down: bool, x: i32, y: i32, escape_pressed: bool) -> FrameInput {
    FrameInput {
        screen_width: px(800),
        screen_height: px(600),
        mouse_down,
        mouse_position: Vec2::new(px(x), px(y)),
        escape_pressed,
        frame_time: 16_667,
    }
}

fn size(w: i32, h: i32) -> Size {
    Size::new(px(w), px(h))
}

fn title_assets() -> TitleAssets {
    TitleAssets {
        forest: size(512, 256),
        cityscape: size(512, 128),
        clouds: size(512, 128),
        ground: size(336, 112),
        button: size(104, 58),
        title: size(178, 48),
        bird: size(102, 24),
    }
}

fn game_assets() -> GameAssets {
    GameAssets {
        forest: size(512, 256),
        cityscape: size(512, 128),
        clouds: size(512, 128),
        ground: size(336, 112),
        button: size(104, 58),
        game_over: size(192, 42),
        scoreboard: size(226, 116),
        get_ready: size(184, 50),
        instructions: size(114, 98),
    }
}

#[test]
fn test_scene_stack_pop_on_transition() {
    let draw_called = Rc::new(RefCell::new(false));
    let mut manager = SceneManager {
        scenes: vec![
            MockScene::new(Transition::Stay, draw_called.clone()),
            MockScene::new(Transition::Pop, draw_called.clone()),
        ],
    };

    manager.update(&frame(false, 0, 0, false));
    assert_eq!(manager.scenes.len(), 1, "Scene stack should pop on Transition::Pop");
}

#[test]
fn test_scene_draw_called() {
    let draw_called = Rc::new(RefCell::new(false));
    let mut manager =
        SceneManager { scenes: vec![MockScene::new(Transition::Stay, draw_called.clone())] };

    let commands = manager.draw(px(800), px(600));
    assert!(*draw_called.borrow(), "Draw should be called on the top scene");
    assert_eq!(commands, Some(vec![DrawCommand::Clear]));
    assert_eq!(manager.len(), 1);
}

#[test]
fn an_empty_stack_draws_nothing_and_stays_empty() {
    let mut manager: SceneManager<MockScene> = SceneManager { scenes: vec![] };
    assert!(manager.is_empty());
    assert_eq!(manager.draw(px(800), px(600)), None);
    manager.update(&frame(false, 0, 0, true));
    assert!(manager.is_empty());
    assert_eq!(manager.len(), 0);
}

#[test]
fn only_the_top_scene_is_updated_and_drawn() {
    let lower = Rc::new(RefCell::new(false));
    let upper = Rc::new(RefCell::new(false));
    let mut manager = SceneManager {
        scenes: vec![
            MockScene::new(Transition::Pop, lower.clone()),
            MockScene::new(Transition::Stay, upper.clone()),
        ],
    };
    manager.update(&frame(false, 0, 0, false));
    assert_eq!(manager.len(), 2);
    // The lower scene was not asked: it still holds its transition.
    assert_eq!(*manager.scenes[0].transition.borrow(), Transition::Pop);
    manager.draw(px(800), px(600));
    assert!(*upper.borrow());
    assert!(!*lower.borrow());
    // A scene underneath becomes the active one once the top is gone.
    manager.scenes.pop();
    manager.update(&frame(false, 0, 0, false));
    assert_eq!(manager.len(), 0);
}

#[test]
fn a_new_manager_holds_a_title_screen_that_waits_for_its_textures() {
    let manager = SceneManager::new();
    assert_eq!(manager.len(), 1);
    assert_eq!(manager.load_request(), LoadRequest::TitleAssets);
    match &manager.scenes[0] {
        AnyScene::Title(title) => {
            assert!(title.is_loading());
            assert!(!title.is_loading_game());
        }
        AnyScene::Game(_) => panic!("the first scene is the title screen"),
    }
}

#[test]
fn the_title_screen_is_replaced_by_the_game_it_waited_for() {
    let mut manager = SceneManager::new();

    // Nothing loaded yet: the scene keeps waiting, whatever the input.
    manager.pre_update(Loaded::Nothing);
    manager.update(&frame(true, 400, 300, true));
    assert_eq!(manager.len(), 1);
    assert_eq!(manager.load_request(), LoadRequest::TitleAssets);

    // A game that nobody asked for is not installed.
    manager.pre_update(Loaded::Game {
        assets: game_assets(),
        screen_width: px(800),
        screen_height: px(600),
        stored: Some(3),
    });
    assert!(matches!(manager.scenes[0], AnyScene::Title(_)));

    manager.pre_update(Loaded::TitleAssets(title_assets()));
    assert_eq!(manager.load_request(), LoadRequest::Nothing);

    // A press beside the button does nothing.
    manager.update(&frame(true, 10, 10, false));
    assert_eq!(manager.load_request(), LoadRequest::Nothing);

    // A press on the button asks for the game.
    manager.update(&frame(true, 400, 300, false));
    assert_eq!(manager.load_request(), LoadRequest::Game);
    assert_eq!(manager.len(), 1);

    // While it waits the title screen ignores the cancel key.
    manager.update(&frame(false, 0, 0, true));
    assert_eq!(manager.len(), 1);

    manager.pre_update(Loaded::Game {
        assets: game_assets(),
        screen_width: px(800),
        screen_height: px(600),
        stored: Some(3),
    });
    assert_eq!(manager.len(), 1);
    assert_eq!(manager.load_request(), LoadRequest::Nothing);
    match &manager.scenes[0] {
        AnyScene::Game(game) => {
            assert_eq!(game.highscore, 3);
            assert_eq!(game.score, 0);
            assert!(game.instructions_visible);
        }
        AnyScene::Title(_) => panic!("the game takes the place of the title screen"),
    }

    // Handing things to a game changes nothing.
    manager.pre_update(Loaded::TitleAssets(title_assets()));
    assert!(matches!(manager.scenes[0], AnyScene::Game(_)));

    // The cancel key pops the game, and the stack is empty.
    manager.update(&frame(false, 0, 0, true));
    assert!(manager.is_empty());
    assert_eq!(manager.draw(px(800), px(600)), None);
}

#[test]
fn the_cancel_key_pops_a_title_screen_that_does_not_wait() {
    let mut manager = SceneManager::new();
    manager.pre_update(Loaded::TitleAssets(title_assets()));
    manager.update(&frame(false, 0, 0, false));
    assert_eq!(manager.len(), 1);
    manager.update(&frame(false, 0, 0, true));
    assert!(manager.is_empty());
}

#[test]
fn a_press_on_the_button_wins_over_the_cancel_key() {
    let mut manager = SceneManager::new();
    manager.pre_update(Loaded::TitleAssets(title_assets()));
    manager.update(&frame(true, 400, 300, true));
    assert_eq!(manager.len(), 1);
    assert_eq!(manager.load_request(), LoadRequest::Game);
}

#[test]
fn a_game_that_could_not_read_its_high_score_starts_from_zero() {
    let mut manager = SceneManager::new();
    manager.pre_update(Loaded::TitleAssets(title_assets()));
    manager.update(&frame(true, 400, 300, false));
    manager.pre_update(Loaded::Game {
        assets: game_assets(),
        screen_width: px(800),
        screen_height: px(600),
        stored: None,
    });
    match &manager.scenes[0] {
        AnyScene::Game(game) => assert_eq!(game.highscore, 0),
        AnyScene::Title(_) => panic!("the game takes the place of the title screen"),
    }
}
