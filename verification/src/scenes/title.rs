//! The title screen: it waits for its textures, shows the scrolling
//! world behind the start button, and hands over to the game once the
//! button is pressed and the game has been loaded.
use vstd::prelude::*;
use crate::geometry::{Size, MAX_EXTENT, UNITS_PER_PIXEL};
use crate::input::FrameInput;
use crate::prefabs::background::Background;
use crate::prefabs::button::Button;
use crate::prefabs::ground::Ground;
use crate::scenes::game::{GameAssets, GameScene, GameState};
use crate::render::{push_tiles, sprite_at, tiles, DrawCommand, Notice, Texture};
use crate::scenes::{transition_for, Scene, Transition, SKY_STEP, SKY_TILES};

verus! {

/// Distance from the middle of the screen to the start of the notice
/// that the scene loads.
pub const LOADING_INDENT: i64 = 50 * UNITS_PER_PIXEL;

/// Distance from the middle of the screen to the start of the notice
/// that the game starts.
pub const STARTING_INDENT: i64 = 80 * UNITS_PER_PIXEL;

/// Distance by which the bird stands above the middle of the screen.
pub const BIRD_RISE: i64 = 60 * UNITS_PER_PIXEL;

/// Sizes of the textures the title screen is drawn with. A title or bird
/// texture that could not be loaded has no extent.
#[derive(Clone, Copy, Debug, PartialEq, Eq, Structural)]
pub struct TitleAssets {
    pub forest: Size,
    pub cityscape: Size,
    pub clouds: Size,
    pub ground: Size,
    pub button: Size,
    pub title: Size,
    pub bird: Size,
}

impl TitleAssets {
    /// The layers and the ground can be tiled, and the other textures are
    /// no larger than the largest extent.
    pub open spec fn wf(self) -> bool {
        &&& self.forest.tileable()
        &&& self.cityscape.tileable()
        &&& self.clouds.tileable()
        &&& self.ground.tileable()
        &&& self.button.drawable()
        &&& self.title.drawable()
        &&& self.bird.drawable()
    }

    /// Tests [`TitleAssets::wf`].
    pub fn is_valid(&self) -> (ok: bool)
        ensures
            ok == self.wf(),
    {
        self.forest.is_tileable() && self.cityscape.is_tileable() && self.clouds.is_tileable()
            && self.ground.is_tileable() && self.button.is_drawable() && self.title.is_drawable()
            && self.bird.is_drawable()
    }
}

pub struct TitleScene {
    pub title: Option<Size>,
    pub bird: Option<Size>,
    pub background: Option<Background>,
    pub ground: Option<Ground>,
    pub button: Option<Button>,
    /// Whether the scene still waits for its textures.
    pub loading: bool,
    /// Whether the scene waits for the game it has been asked to start.
    pub loading_game: bool,
}

impl TitleScene {
    /// A scene that no longer waits for its textures has them all, and
    /// they can be drawn.
    pub open spec fn loaded(&self) -> bool {
        &&& self.title matches Some(title) && title.drawable()
        &&& self.bird matches Some(bird) && bird.drawable()
        &&& self.background matches Some(background) && background.wf()
        &&& self.ground matches Some(ground) && ground.wf()
        &&& self.button matches Some(button) && button.texture.drawable()
    }

    /// A title screen that has nothing yet and waits for its textures.
    pub open spec fn fresh() -> TitleScene {
        TitleScene {
            title: None,
            bird: None,
            background: None,
            ground: None,
            button: None,
            loading: true,
            loading_game: false,
        }
    }

    /// A title screen that waits for its textures.
    pub fn new() -> (scene: TitleScene)
        ensures
            scene == TitleScene::fresh(),
            scene.wf(),
    {
        TitleScene {
            title: None,
            bird: None,
            background: None,
            ground: None,
            button: None,
            loading: true,
            loading_game: false,
        }
    }

    /// The scene once textures of the given sizes have arrived: a scene
    /// that waited for them builds its world from them and waits no
    /// longer; a scene that has its textures keeps them.
    pub open spec fn with_assets(self, assets: TitleAssets) -> TitleScene {
        if self.loading {
            TitleScene {
                title: Some(assets.title),
                bird: Some(assets.bird),
                background: Some(
                    Background {
                        forest_texture: assets.forest,
                        cityscape_texture: assets.cityscape,
                        cloud_texture: assets.clouds,
                        forest_pos: 0,
                        cityscape_pos: 0,
                        cloud_pos: 0,
                        scroll: true,
                    },
                ),
                ground: Some(Ground { texture: assets.ground, scroll_pos: 0, scroll: true }),
                button: Some(Button { texture: assets.button }),
                loading: false,
                ..self
            }
        } else {
            self
        }
    }

    /// Takes the textures the scene waits for. Has no effect on a scene
    /// that already has them.
    pub fn load_assets(&mut self, assets: &TitleAssets)
        requires
            old(self).wf(),
            assets.wf(),
        ensures
            *final(self) == old(self).with_assets(*assets),
            final(self).wf(),
    {
        if self.loading {
            self.title = Some(assets.title);
            self.bird = Some(assets.bird);
            self.background = Some(
                Background::new(assets.forest, assets.cityscape, assets.clouds),
            );
            self.ground = Some(Ground::new(assets.ground));
            self.button = Some(Button::new(assets.button));
            self.loading = false;
        }
    }

    /// Builds the game the scene waits for, on a screen of the given
    /// size and with the stored high score, and stops waiting. A scene
    /// that waits for no game builds none.
    pub fn load_game_scene(
        &mut self,
        assets: &GameAssets,
        screen_width: i64,
        screen_height: i64,
        stored: Option<i32>,
    ) -> (game: Option<GameScene>)
        requires
            old(self).wf(),
            assets.wf(),
        ensures
            *final(self) == (TitleScene { loading_game: false, ..*old(self) }),
            final(self).wf(),
            game is Some <==> old(self).loading_game,
            game matches Some(scene) ==> scene@ == GameState::initial(
                *assets,
                screen_width,
                screen_height,
                match stored {
                    Some(highscore) => highscore,
                    None => 0,
                },
            ) && scene@.wf(),
    {
        if self.loading_game {
            let game_scene = GameScene::new(assets, screen_width, screen_height, stored);
            self.loading_game = false;
            Some(game_scene)
        } else {
            None
        }
    }

    pub fn is_loading(&self) -> (loading: bool)
        ensures
            loading == self.loading,
    {
        self.loading
    }

    pub fn is_loading_game(&self) -> (loading_game: bool)
        ensures
            loading_game == self.loading_game,
    {
        self.loading_game
    }

    /// Whether the pointer button is held down on the start button.
    pub open spec fn start_pressed(self, input: FrameInput) -> bool {
        &&& input.mouse_down
        &&& self.button matches Some(button)
        &&& button.hit_region(input.screen_width, input.screen_height).contains(
            input.mouse_position.x as int,
            input.mouse_position.y as int,
        )
    }

    /// Whether the scene does nothing on a frame: it waits for its
    /// textures or for the game.
    pub open spec fn waiting(self) -> bool {
        self.loading || self.loading_game
    }

    /// The scene one frame later: unless it waits, its world scrolls, and
    /// a press on the start button makes it wait for the game.
    pub open spec fn step(self, input: FrameInput) -> TitleScene {
        if self.waiting() {
            self
        } else {
            TitleScene {
                background: match self.background {
                    Some(background) => Some(background.updated()),
                    None => None,
                },
                ground: match self.ground {
                    Some(ground) => Some(ground.updated()),
                    None => None,
                },
                loading_game: self.start_pressed(input),
                ..self
            }
        }
    }

    /// The title and the bird as they are drawn: the title centred a
    /// quarter down the screen, the bird centred above the middle.
    pub open spec fn emblem_sprites(self, screen_width: i64, screen_height: i64) -> Seq<
        DrawCommand,
    > {
        match (self.title, self.bird) {
            (Some(title), Some(bird)) => seq![
                sprite_at(Texture::Title, screen_width / 2 - title.width / 2, screen_height / 4),
                sprite_at(
                    Texture::Bird,
                    screen_width / 2 - bird.width / 2,
                    screen_height / 2 - bird.height / 2 - BIRD_RISE,
                ),
            ],
            _ => Seq::empty(),
        }
    }

    /// The world behind the title as it is drawn: the sky, the backdrop
    /// and the ground.
    pub open spec fn world_sprites(self, screen_height: i64) -> Seq<DrawCommand> {
        tiles(Texture::Sky, 0, SKY_STEP, 0, SKY_TILES as nat) + match self.background {
            Some(background) => background.sprites(screen_height),
            None => Seq::empty(),
        } + match self.ground {
            Some(ground) => ground.sprites(screen_height),
            None => Seq::empty(),
        }
    }

    /// What is drawn of the scene on a screen of the given size: a
    /// notice on black while it waits, else its world, the title, the
    /// bird and the start button.
    pub open spec fn display_list(self, screen_width: i64, screen_height: i64) -> Seq<
        DrawCommand,
    > {
        if self.loading {
            seq![
                DrawCommand::Clear,
                DrawCommand::Notice {
                    notice: Notice::Loading,
                    x: (screen_width / 2 - LOADING_INDENT) as i64,
                    y: (screen_height / 2) as i64,
                },
            ]
        } else if self.loading_game {
            seq![
                DrawCommand::Clear,
                DrawCommand::Notice {
                    notice: Notice::StartingGame,
                    x: (screen_width / 2 - STARTING_INDENT) as i64,
                    y: (screen_height / 2) as i64,
                },
            ]
        } else {
            self.world_sprites(screen_height) + self.emblem_sprites(screen_width, screen_height)
                + match self.button {
                Some(button) => seq![button.sprite(screen_width, screen_height)],
                None => Seq::empty(),
            }
        }
    }

    /// The commands that draw the scene.
    fn render(&self, screen_width: i64, screen_height: i64) -> (commands: Vec<DrawCommand>)
        requires
            self.wf(),
            0 <= screen_width <= MAX_EXTENT,
            0 <= screen_height <= MAX_EXTENT,
        ensures
            commands@ == self.display_list(screen_width, screen_height),
    {
        let mut commands: Vec<DrawCommand> = Vec::new();
        if self.loading {
            commands.push(DrawCommand::Clear);
            commands.push(
                DrawCommand::Notice {
                    notice: Notice::Loading,
                    x: screen_width / 2 - LOADING_INDENT,
                    y: screen_height / 2,
                },
            );
            assert(commands@ =~= self.display_list(screen_width, screen_height));
            return commands;
        }
        if self.loading_game {
            commands.push(DrawCommand::Clear);
            commands.push(
                DrawCommand::Notice {
                    notice: Notice::StartingGame,
                    x: screen_width / 2 - STARTING_INDENT,
                    y: screen_height / 2,
                },
            );
            assert(commands@ =~= self.display_list(screen_width, screen_height));
            return commands;
        }
        push_tiles(&mut commands, Texture::Sky, 0, SKY_STEP, 0, SKY_TILES);
        match self.background {
            Some(background) => {
                background.draw(screen_height, &mut commands);
            },
            None => {},
        }
        match self.ground {
            Some(ground) => {
                ground.draw(screen_height, &mut commands);
            },
            None => {},
        }
        assert(commands@ =~= self.world_sprites(screen_height));
        match (self.title, self.bird) {
            (Some(title), Some(bird)) => {
                commands.push(
                    DrawCommand::Sprite {
                        texture: Texture::Title,
                        x: screen_width / 2 - title.width / 2,
                        y: screen_height / 4,
                        source: None,
                    },
                );
                commands.push(
                    DrawCommand::Sprite {
                        texture: Texture::Bird,
                        x: screen_width / 2 - bird.width / 2,
                        y: screen_height / 2 - bird.height / 2 - BIRD_RISE,
                        source: None,
                    },
                );
            },
            _ => {},
        }
        assert(commands@ =~= self.world_sprites(screen_height) + self.emblem_sprites(
            screen_width,
            screen_height,
        ));
        match self.button {
            Some(button) => {
                button.draw(screen_width, screen_height, &mut commands);
            },
            None => {},
        }
        assert(commands@ =~= self.display_list(screen_width, screen_height));
        commands
    }

    /// The signal the scene gives on a frame: it leaves when the cancel
    /// key is pressed, unless it waits or the start button is pressed.
    pub open spec fn signal(self, input: FrameInput) -> Transition {
        if self.waiting() || self.start_pressed(input) {
            Transition::Stay
        } else {
            transition_for(input)
        }
    }
}

impl Scene for TitleScene {
    open spec fn wf(&self) -> bool {
        !self.loading ==> self.loaded()
    }

    open spec fn updates_to(&self, input: FrameInput, after: &Self, transition: Transition) -> bool {
        *after == self.step(input) && transition == self.signal(input)
    }

    /// Drawing leaves the scene as it is and asks for its
    /// [`TitleScene::display_list`].
    open spec fn draws_to(
        &self,
        screen_width: i64,
        screen_height: i64,
        after: &Self,
        commands: Seq<DrawCommand>,
    ) -> bool {
        *after == *self && commands == self.display_list(screen_width, screen_height)
    }

    fn draw(&mut self, screen_width: i64, screen_height: i64) -> (commands: Vec<DrawCommand>) {
        self.render(screen_width, screen_height)
    }

    fn update(&mut self, input: &FrameInput) -> (transition: Transition) {
        if self.loading || self.loading_game {
            return Transition::Stay;
        }
        match self.background {
            Some(mut background) => {
                background.update();
                self.background = Some(background);
            },
            None => {},
        }
        match self.ground {
            Some(mut ground) => {
                ground.update();
                self.ground = Some(ground);
            },
            None => {},
        }
        let on_button = match self.button {
            Some(button) => button.contains(
                input.mouse_position,
                input.screen_width,
                input.screen_height,
            ),
            None => false,
        };
        if input.mouse_down && on_button {
            self.loading_game = true;
            return Transition::Stay;
        } else if input.escape_pressed {
            return Transition::Pop;
        }
        Transition::Stay
    }
}

} // verus!
