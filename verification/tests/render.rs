use flappy_bird::geometry::{px, Rect, Size, Vec2};
use flappy_bird::prefabs::bird::Bird;
use flappy_bird::prefabs::pipes::PipeGroup;
use flappy_bird::prefabs::pool::draw_all;
use flappy_bird::render::{push_tiles, DrawCommand, Notice, TextStyle, Texture};
use flappy_bird::scenes::game::{GameAssets, GameScene};
use flappy_bird::scenes::title::{TitleAssets, TitleScene};
use flappy_bird::scenes::Scene;

fn size(w: i32, h: i32) -> Size {
    Size::new(px(w), px(h))
}

fn sprite(texture: Texture, x: i64, y: i64) -> DrawCommand {
    DrawCommand::Sprite { texture, x, y, source: None }
}

fn row(texture: Texture, start: i64, step: i64, y: i64, count: i64) -> Vec<DrawCommand> {
    (0..count).map(|k| sprite(texture, start + k * step, y)).collect()
}

fn title_assets() -> TitleAssets {
    TitleAssets {
        forest: size(512, 256),
        cityscape: size(512, 128),
        clouds: size(512, 128),
        ground: size(336, 112),
        button: size(104, 58),
        title: size(178, 48),
        bird: size(102, 24),
    }
}

fn game_assets() -> GameAssets {
    GameAssets {
        forest: size(512, 256),
        cityscape: size(512, 128),
        clouds: size(512, 128),
        ground: size(336, 112),
        button: size(104, 58),
        game_over: size(192, 42),
        scoreboard: size(226, 116),
        get_ready: size(184, 50),
        instructions: size(114, 98),
    }
}

fn world(forest: i64, cityscape: i64, clouds: i64) -> Vec<DrawCommand> {
    let mut expected = row(Texture::Sky, 0, px(100), 0, 13);
    expected.extend(row(Texture::Clouds, clouds, px(512), px(342), 6));
    expected.extend(row(Texture::Cityscape, cityscape, px(512), px(342), 6));
    expected.extend(row(Texture::Forest, forest, px(512), px(344), 6));
    expected
}

#[test]
fn tiles_stand_side_by_side() {
    let mut commands = vec![DrawCommand::Clear];
    push_tiles(&mut commands, Texture::Ground, -5, 100, 7, 3);
    assert_eq!(
        commands,
        vec![
            DrawCommand::Clear,
            sprite(Texture::Ground, -5, 7),
            sprite(Texture::Ground, 95, 7),
            sprite(Texture::Ground, 195, 7),
        ]
    );
    push_tiles(&mut commands, Texture::Ground, 0, 0, 0, 0);
    assert_eq!(commands.len(), 4);
}

#[test]
fn a_new_game_draws_its_world_the_banners_the_score_and_the_bird() {
    let mut scene = GameScene::new(&game_assets(), px(800), px(600), None);
    let commands = scene.draw(px(800), px(600));

    let mut expected = world(0, 0, 0);
    expected.push(sprite(Texture::GetReady, px(308), px(150)));
    expected.push(sprite(Texture::Instructions, px(343), px(360)));
    expected.extend(row(Texture::Ground, 0, px(336), px(488), 5));
    expected.push(DrawCommand::Number {
        value: 0,
        x: px(400),
        y: px(40),
        style: TextStyle::Score,
    });
    expected.push(sprite(Texture::BirdFrame(0), px(320), px(300)));
    assert_eq!(commands, expected);
    assert_eq!(commands.len(), 40);
}

#[test]
fn a_finished_game_draws_its_pipes_and_the_scoreboard() {
    let mut scene = GameScene::new(&game_assets(), px(800), px(600), Some(30));
    scene.instructions_visible = false;
    let mut pipe = PipeGroup::new();
    pipe.place(px(500), px(150));
    pipe.enabled = false;
    scene.pipes.push(pipe);
    scene.pipes.push(PipeGroup::new());
    scene.score = 12;
    scene.bird.current_frame = 2;
    scene.bird.position = Vec2::new(px(320), px(470));
    scene.background.forest_pos = -675;
    scene.ground.scroll_pos = -900;
    scene.check_for_collisions(px(800), px(600));
    assert!(scene.game_over);

    let commands = scene.draw(px(800), px(600));

    let mut expected = world(-675, 0, 0);
    let top = Some(Rect::new(0, 0, px(54), px(320)));
    let bottom = Some(Rect::new(px(54), 0, px(54), px(320)));
    expected.push(DrawCommand::Sprite { texture: Texture::Pipes, x: px(500), y: px(-170), source: top });
    expected.push(DrawCommand::Sprite {
        texture: Texture::Pipes,
        x: px(500),
        y: px(310),
        source: bottom,
    });
    // A pair that is not in the world is drawn where it stands.
    expected.push(DrawCommand::Sprite { texture: Texture::Pipes, x: 0, y: 0, source: top });
    expected.push(DrawCommand::Sprite { texture: Texture::Pipes, x: 0, y: 0, source: bottom });
    expected.extend(row(Texture::Ground, -900, px(336), px(488), 5));
    expected.push(sprite(Texture::GameOver, px(304), px(30)));
    expected.push(sprite(Texture::Scoreboard, px(287), px(112)));
    expected.push(DrawCommand::Number { value: 12, x: 140_340, y: 47_520, style: TextStyle::Board });
    expected.push(DrawCommand::Number { value: 30, x: 140_340, y: 61_620, style: TextStyle::Board });
    expected.push(DrawCommand::Sprite {
        texture: Texture::Medals,
        x: 94_236,
        y: 46_476,
        source: Some(Rect::new(0, 0, px(44), px(46))),
    });
    expected.push(sprite(Texture::StartButton, px(348), px(271)));
    expected.push(sprite(Texture::BirdFrame(2), px(320), px(470)));
    assert_eq!(commands, expected);
}

#[test]
fn the_medal_on_the_board_goes_by_the_score() {
    for (score, source) in [
        (9, None),
        (10, Some(Rect::new(0, 0, px(44), px(46)))),
        (20, Some(Rect::new(0, px(46), px(44), px(46)))),
    ] {
        let mut scene = GameScene::new(&game_assets(), px(800), px(600), None);
        scene.score = score;
        scene.bird.position.y = px(480);
        scene.check_for_collisions(px(800), px(600));
        let medals: Vec<Option<Rect>> = scene
            .draw(px(800), px(600))
            .iter()
            .filter_map(|command| match command {
                DrawCommand::Sprite { texture: Texture::Medals, source, .. } => Some(*source),
                _ => None,
            })
            .collect();
        match source {
            Some(rect) => assert_eq!(medals, vec![Some(rect)]),
            None => assert!(medals.is_empty()),
        }
    }
}

#[test]
fn drawing_leaves_the_game_as_it_is() {
    let mut scene = GameScene::new(&game_assets(), px(800), px(600), Some(3));
    scene.update(&flappy_bird::input::FrameInput {
        screen_width: px(800),
        screen_height: px(600),
        mouse_down: false,
        mouse_position: Vec2::zero(),
        escape_pressed: false,
        frame_time: 1000,
    });
    let before = (scene.bird.position, scene.ground, scene.background, scene.score);
    let first = scene.draw(px(800), px(600));
    let second = scene.draw(px(800), px(600));
    assert_eq!(first, second);
    assert_eq!(before, (scene.bird.position, scene.ground, scene.background, scene.score));
}

#[test]
fn a_title_screen_that_waits_draws_a_notice_on_black() {
    let mut scene = TitleScene::new();
    assert_eq!(
        scene.draw(px(800), px(600)),
        vec![
            DrawCommand::Clear,
            DrawCommand::Notice { notice: Notice::Loading, x: px(350), y: px(300) },
        ]
    );
    scene.load_assets(&title_assets());
    scene.loading_game = true;
    assert_eq!(
        scene.draw(px(800), px(600)),
        vec![
            DrawCommand::Clear,
            DrawCommand::Notice { notice: Notice::StartingGame, x: px(320), y: px(300) },
        ]
    );
}

#[test]
fn a_loaded_title_screen_draws_its_world_the_title_the_bird_and_the_button() {
    let mut scene = TitleScene::new();
    scene.load_assets(&title_assets());
    let commands = scene.draw(px(800), px(600));

    let mut expected = world(0, 0, 0);
    expected.extend(row(Texture::Ground, 0, px(336), px(488), 5));
    expected.push(sprite(Texture::Title, px(311), px(150)));
    expected.push(sprite(Texture::Bird, px(349), px(228)));
    expected.push(sprite(Texture::StartButton, px(348), px(271)));
    assert_eq!(commands, expected);
    assert_eq!(commands.len(), 39);
}

#[test]
fn the_bird_is_drawn_with_its_wing_frame() {
    let mut bird = Bird::new(px(800), px(600));
    bird.current_frame = 1;
    let mut commands = Vec::new();
    bird.draw(&mut commands);
    assert_eq!(commands, vec![sprite(Texture::BirdFrame(1), px(320), px(300))]);
}

#[test]
fn every_pair_of_a_pool_is_drawn_top_pipe_first() {
    let mut near = PipeGroup::new();
    near.place(px(100), px(120));
    let mut far = PipeGroup::new();
    far.place(px(400), px(200));
    far.alive = false;
    let mut commands = Vec::new();
    draw_all(&vec![near, far], &mut commands);
    let ys: Vec<(i64, i64)> = commands
        .iter()
        .map(|command| match command {
            DrawCommand::Sprite { x, y, .. } => (*x, *y),
            _ => panic!("pipes are sprites"),
        })
        .collect();
    assert_eq!(
        ys,
        vec![(px(100), px(-200)), (px(100), px(280)), (px(400), px(-120)), (px(400), px(360))]
    );
}
