//! The game itself: the bird, the pipes, the scrolling layers, the score
//! and what happens when the bird hits something.
use vstd::prelude::*;
use crate::geometry::{Size, MAX_EXTENT, UNITS_PER_PIXEL};
use crate::input::FrameInput;
use crate::prefabs::background::Background;
use crate::prefabs::bird::Bird;
use crate::prefabs::button::Button;
use crate::prefabs::ground::Ground;
use crate::prefabs::pipes::{gap_allowed, PipeGenerator, PipeGroup, GAP_MARGIN};
use crate::prefabs::pool::{
    advance_all, all_disabled, all_frozen, all_in_world, all_sprites, all_stepped, any_hit,
    any_hit_by, disable_all, draw_all, passed_count, spawn, with_spawned,
};
use crate::prefabs::scoreboard::Scoreboard;
use crate::render::{push_tiles, sprite_at, tiles, DrawCommand, TextStyle, Texture};
use crate::scenes::{transition_for, Scene, Transition, SKY_STEP, SKY_TILES};
use crate::systems::physics::PhysicsBody;

verus! {

/// Height of the floor above the bottom of the screen, by which the gap
/// of a new pipe pair is placed.
pub const GROUND_HEIGHT: i64 = 112 * UNITS_PER_PIXEL;

/// Height of the baseline of the running score.
pub const SCORE_BASELINE: i64 = 40 * UNITS_PER_PIXEL;

/// Something a frame asks of the outside world, in the order asked.
#[derive(Clone, Copy, Debug, PartialEq, Eq, Structural)]
pub enum Effect {
    /// Play the sound of a flap.
    PlayFlap,
    /// Play the sound of a point scored.
    PlayScore,
    /// Play the sound of the bird hitting a pipe.
    PlayPipeHit,
    /// Play the sound of the bird hitting the ground.
    PlayGroundHit,
    /// Store this high score.
    SaveHighscore(i32),
}

/// Sizes of the textures a game is drawn with.
#[derive(Clone, Copy, Debug, PartialEq, Eq, Structural)]
pub struct GameAssets {
    pub forest: Size,
    pub cityscape: Size,
    pub clouds: Size,
    pub ground: Size,
    pub button: Size,
    pub game_over: Size,
    pub scoreboard: Size,
    pub get_ready: Size,
    pub instructions: Size,
}

impl GameAssets {
    /// The layers and the ground can be tiled, and the other textures are
    /// no larger than the largest extent.
    pub open spec fn wf(self) -> bool {
        &&& self.forest.tileable()
        &&& self.cityscape.tileable()
        &&& self.clouds.tileable()
        &&& self.ground.tileable()
        &&& self.button.drawable()
        &&& self.game_over.drawable()
        &&& self.scoreboard.drawable()
        &&& self.get_ready.drawable()
        &&& self.instructions.drawable()
    }

    /// Tests [`GameAssets::wf`].
    pub fn is_valid(&self) -> (ok: bool)
        ensures
            ok == self.wf(),
    {
        self.forest.is_tileable() && self.cityscape.is_tileable() && self.clouds.is_tileable()
            && self.ground.is_tileable() && self.button.is_drawable()
            && self.game_over.is_drawable() && self.scoreboard.is_drawable()
            && self.get_ready.is_drawable() && self.instructions.is_drawable()
    }
}

/// A game in progress: what stands where, what has been scored, and
/// what the last frame asked of the outside world.
pub struct GameScene {
    pub background: Background,
    pub ground: Ground,
    pub instructions: Size,
    pub get_ready: Size,
    pub bird: Bird,
    pub score: i32,
    pub highscore: i32,
    /// Whether the pointer button was down on the last frame.
    pub is_mouse_down: bool,
    pub instructions_visible: bool,
    pub pipes: Vec<PipeGroup>,
    pub game_over: bool,
    pub pipe_generator: PipeGenerator,
    pub scoreboard: Scoreboard,
    /// What the last frame asked of the outside world.
    pub effects: Vec<Effect>,
}

/// A game scene as a value: its collections as sequences.
#[verifier::ext_equal]
pub struct GameState {
    pub background: Background,
    pub ground: Ground,
    pub instructions: Size,
    pub get_ready: Size,
    pub bird: Bird,
    pub score: i32,
    pub highscore: i32,
    pub is_mouse_down: bool,
    pub instructions_visible: bool,
    pub pipes: Seq<PipeGroup>,
    pub game_over: bool,
    pub pipe_generator: PipeGenerator,
    pub scoreboard: Scoreboard,
    pub effects: Seq<Effect>,
}

impl View for GameScene {
    type V = GameState;

    open spec fn view(&self) -> GameState {
        GameState {
            background: self.background,
            ground: self.ground,
            instructions: self.instructions,
            get_ready: self.get_ready,
            bird: self.bird,
            score: self.score,
            highscore: self.highscore,
            is_mouse_down: self.is_mouse_down,
            instructions_visible: self.instructions_visible,
            pipes: self.pipes@,
            game_over: self.game_over,
            pipe_generator: self.pipe_generator,
            scoreboard: self.scoreboard,
            effects: self.effects@,
        }
    }
}

/// A score raised by a number of points. It does not grow beyond the
/// range of `i32`.
pub open spec fn add_points(score: i32, points: nat) -> i32 {
    if score + points > i32::MAX {
        i32::MAX
    } else {
        (score + points) as i32
    }
}

/// The floor by which gaps are placed on a screen of the given height.
pub open spec fn floor_of(screen_height: i64) -> i64 {
    (screen_height - GROUND_HEIGHT) as i64
}

impl GameState {
    /// What holds of a game between frames: its layers can be drawn, its
    /// generator counts below the interval, its pipes are in the world,
    /// and once the game is over the bird is dead and nothing moves.
    pub open spec fn wf(self) -> bool {
        &&& self.background.wf()
        &&& self.ground.wf()
        &&& self.instructions.drawable()
        &&& self.get_ready.drawable()
        &&& self.scoreboard.game_over_texture.drawable()
        &&& self.scoreboard.scoreboard_texture.drawable()
        &&& self.scoreboard.button.texture.drawable()
        &&& self.pipe_generator.wf()
        &&& all_in_world(self.pipes)
        &&& self.game_over ==> {
            &&& !self.bird.alive
            &&& !self.background.scroll
            &&& !self.ground.scroll
            &&& all_disabled(self.pipes)
        }
    }

    /// A game as it begins on a screen of the given size: the bird at
    /// rest, no pipes, no points, the instructions on show, and the
    /// pointer button taken as held so that the press that led here does
    /// not count.
    pub open spec fn initial(
        assets: GameAssets,
        screen_width: i64,
        screen_height: i64,
        highscore: i32,
    ) -> GameState {
        GameState {
            background: Background {
                forest_texture: assets.forest,
                cityscape_texture: assets.cityscape,
                cloud_texture: assets.clouds,
                forest_pos: 0,
                cityscape_pos: 0,
                cloud_pos: 0,
                scroll: true,
            },
            ground: Ground { texture: assets.ground, scroll_pos: 0, scroll: true },
            instructions: assets.instructions,
            get_ready: assets.get_ready,
            bird: Bird::spawned(screen_width, screen_height),
            score: 0,
            highscore,
            is_mouse_down: true,
            instructions_visible: true,
            pipes: Seq::empty(),
            game_over: false,
            pipe_generator: PipeGenerator { counter: 0, enabled: false },
            scoreboard: Scoreboard {
                game_over_texture: assets.game_over,
                scoreboard_texture: assets.scoreboard,
                score: 0,
                highscore: 0,
                button: Button { texture: assets.button },
            },
            effects: Seq::empty(),
        }
    }

    /// The game put back to its beginning: no pipes, no points, the
    /// layers scrolling, the bird alive in its column, the instructions
    /// on show. The high score, the generator and the bird's gravity stay.
    pub open spec fn restarted(self, screen_height: i64) -> GameState {
        GameState {
            instructions_visible: true,
            pipes: Seq::empty(),
            background: Background { scroll: true, ..self.background },
            ground: Ground { scroll: true, ..self.ground },
            bird: self.bird.revived(screen_height),
            score: 0,
            game_over: false,
            ..self
        }
    }

    /// The game set going: the instructions hidden, gravity on, the
    /// generator counting.
    pub open spec fn started(self) -> GameState {
        GameState {
            instructions_visible: false,
            bird: Bird { allow_gravity: true, ..self.bird },
            pipe_generator: PipeGenerator { enabled: true, ..self.pipe_generator },
            ..self
        }
    }

    /// The first part of a frame: once the instructions are gone the bird
    /// is animated and falls. It stays in its column.
    pub open spec fn bird_moved(self, input: FrameInput) -> GameState {
        if !self.instructions_visible {
            GameState { bird: self.bird.updated(input.frame_time, input.screen_height), ..self }
        } else {
            self
        }
    }

    /// Whether the pointer is on the button that restarts the game.
    pub open spec fn restart_hit(self, input: FrameInput) -> bool {
        self.scoreboard.button.hit_region(input.screen_width, input.screen_height).contains(
            input.mouse_position.x as int,
            input.mouse_position.y as int,
        )
    }

    /// What a press of the pointer button does: it starts the game while
    /// the instructions are on show, or else restarts a game that is over
    /// if it lands on the restart button; then, if the bird lives and the
    /// game is not over, the bird flaps.
    pub open spec fn pressed(self, input: FrameInput) -> GameState {
        let begun = if self.instructions_visible {
            self.started()
        } else if self.game_over && self.restart_hit(input) {
            self.restarted(input.screen_height)
        } else {
            self
        };
        if begun.bird.alive && !begun.game_over {
            GameState {
                bird: begun.bird.flapped(),
                effects: begun.effects.push(Effect::PlayFlap),
                ..begun
            }
        } else {
            begun
        }
    }

    /// The second part of a frame: the pointer button counts once, on the
    /// frame on which it goes down.
    pub open spec fn clicked(self, input: FrameInput) -> GameState {
        if input.mouse_down {
            if !self.is_mouse_down {
                GameState { is_mouse_down: true, ..self.pressed(input) }
            } else {
                self
            }
        } else {
            GameState { is_mouse_down: false, ..self }
        }
    }

    /// Every pair the bird has passed gives its point, once, with a sound
    /// for each, and every pair moves.
    pub open spec fn pipes_advanced(self) -> GameState {
        let points = passed_count(self.pipes, self.bird.position.x);
        GameState {
            pipes: all_stepped(self.pipes, self.bird.position.x),
            score: add_points(self.score, points),
            effects: self.effects + Seq::new(points, |i: int| Effect::PlayScore),
            ..self
        }
    }

    /// The backdrop and the ground scroll.
    pub open spec fn layers_scrolled(self) -> GameState {
        GameState {
            background: self.background.updated(),
            ground: self.ground.updated(),
            ..self
        }
    }

    /// Everything that moves is stopped: the layers, the generator and
    /// the pipes.
    pub open spec fn frozen(self) -> GameState {
        GameState {
            pipe_generator: PipeGenerator { enabled: false, ..self.pipe_generator },
            background: Background { scroll: false, ..self.background },
            ground: Ground { scroll: false, ..self.ground },
            pipes: all_frozen(self.pipes),
            ..self
        }
    }

    /// Whether the living bird has flown into a pipe.
    pub open spec fn hits_pipe(self) -> bool {
        self.bird.alive && any_hit_by(self.pipes, self.bird.body())
    }

    /// A living bird that has flown into a pipe dies and the world
    /// stops. The game is not over yet: the bird still falls.
    pub open spec fn pipe_hit_resolved(self) -> GameState {
        if self.hits_pipe() {
            GameState {
                bird: self.bird.killed(),
                effects: self.effects.push(Effect::PlayPipeHit),
                ..self
            }.frozen()
        } else {
            self
        }
    }

    /// Whether the bird, dead or alive, touches the ground of a game that
    /// is not over.
    pub open spec fn hits_ground(self, screen_width: i64, screen_height: i64) -> bool {
        !self.game_over && self.bird.body()@.overlaps(
            self.ground.body(screen_width, screen_height)@,
        )
    }

    /// The effects of a game that ends with the given score.
    pub open spec fn ending_effects(self) -> Seq<Effect> {
        if self.score >= self.highscore {
            self.effects.push(Effect::PlayGroundHit).push(Effect::SaveHighscore(self.score))
        } else {
            self.effects.push(Effect::PlayGroundHit)
        }
    }

    /// A bird that touches the ground ends the game: it dies and falls no
    /// further, the world stops, a score that reaches the high score
    /// becomes the high score and is to be stored, and the scoreboard
    /// shows both.
    pub open spec fn ground_hit_resolved(self, screen_width: i64, screen_height: i64) -> GameState {
        if self.hits_ground(screen_width, screen_height) {
            let highscore = if self.score >= self.highscore {
                self.score
            } else {
                self.highscore
            };
            GameState {
                bird: Bird { allow_gravity: false, ..self.bird.killed() },
                game_over: true,
                highscore,
                scoreboard: Scoreboard { score: self.score, highscore, ..self.scoreboard },
                effects: self.ending_effects(),
                ..self
            }.frozen()
        } else {
            self
        }
    }

    /// The generator counts the frame, and on the frame on which a pair
    /// is due one enters the world at the right edge of the screen, the
    /// top of its gap at `gap_top`.
    pub open spec fn pipe_spawned(self, screen_width: i64, gap_top: i64) -> GameState {
        GameState {
            pipe_generator: self.pipe_generator.ticked(),
            pipes: if self.pipe_generator.fires() {
                with_spawned(self.pipes, screen_width, gap_top)
            } else {
                self.pipes
            },
            ..self
        }
    }

    /// The third part of a frame, which a game that is over skips: points
    /// and pipes, layers, collisions, and a new pipe pair when one is due.
    pub open spec fn world_advanced(self, input: FrameInput, gap_top: i64) -> GameState {
        if !self.game_over {
            self.pipes_advanced().layers_scrolled().pipe_hit_resolved().ground_hit_resolved(
                input.screen_width,
                input.screen_height,
            ).pipe_spawned(input.screen_width, gap_top)
        } else {
            self
        }
    }

    /// The two banners shown before the game is set going, each
    /// centred: the call to get ready a quarter down the screen, the
    /// instructions three fifths down.
    pub open spec fn banner_sprites(self, screen_width: i64, screen_height: i64) -> Seq<
        DrawCommand,
    > {
        if self.instructions_visible {
            seq![
                sprite_at(
                    Texture::GetReady,
                    screen_width / 2 - self.get_ready.width / 2,
                    screen_height / 4,
                ),
                sprite_at(
                    Texture::Instructions,
                    screen_width / 2 - self.instructions.width / 2,
                    screen_height * 3 / 5,
                ),
            ]
        } else {
            Seq::empty()
        }
    }

    /// The running score at the top of the screen, or the scoreboard
    /// once the game is over.
    pub open spec fn score_sprites(self, screen_width: i64, screen_height: i64) -> Seq<
        DrawCommand,
    > {
        if !self.game_over {
            seq![
                DrawCommand::Number {
                    value: self.score,
                    x: (screen_width / 2) as i64,
                    y: SCORE_BASELINE,
                    style: TextStyle::Score,
                },
            ]
        } else {
            self.scoreboard.sprites(screen_width, screen_height)
        }
    }

    /// What is drawn of the game on a screen of the given size, from
    /// back to front: the sky, the backdrop, the banners, the pipes, the
    /// ground, the score or the scoreboard, and the bird.
    pub open spec fn display_list(self, screen_width: i64, screen_height: i64) -> Seq<
        DrawCommand,
    > {
        tiles(Texture::Sky, 0, SKY_STEP, 0, SKY_TILES as nat) + self.background.sprites(
            screen_height,
        ) + self.banner_sprites(screen_width, screen_height) + all_sprites(self.pipes)
            + self.ground.sprites(screen_height) + self.score_sprites(
            screen_width,
            screen_height,
        ) + seq![self.bird.sprite()]
    }

    /// The game once the bird has moved and the pointer button has been
    /// acted on, before the world advances. What the last frame asked of
    /// the outside world is forgotten.
    pub open spec fn after_input(self, input: FrameInput) -> GameState {
        GameState { effects: Seq::empty(), ..self }.bird_moved(input).clicked(input)
    }

    /// One frame of the game, given the input and the height drawn for
    /// the gap of a pipe pair that may enter the world on it.
    pub open spec fn step(self, input: FrameInput, gap_top: i64) -> GameState {
        self.after_input(input).world_advanced(input, gap_top)
    }
}

impl GameScene {
    /// A new game on a screen of the given size, with the stored high
    /// score, or none where it could not be read.
    pub fn new(assets: &GameAssets, screen_width: i64, screen_height: i64, stored: Option<i32>) -> (scene:
        GameScene)
        requires
            assets.wf(),
        ensures
            scene@ == GameState::initial(
                *assets,
                screen_width,
                screen_height,
                match stored {
                    Some(highscore) => highscore,
                    None => 0,
                },
            ),
            scene@.wf(),
    {
        let highscore: i32 = match stored {
            Some(highscore) => highscore,
            None => 0,
        };
        let scene = GameScene {
            background: Background::new(assets.forest, assets.cityscape, assets.clouds),
            ground: Ground::new(assets.ground),
            instructions: assets.instructions,
            get_ready: assets.get_ready,
            bird: Bird::new(screen_width, screen_height),
            score: 0,
            highscore,
            is_mouse_down: true,
            instructions_visible: true,
            pipes: Vec::new(),
            game_over: false,
            pipe_generator: PipeGenerator::new(),
            scoreboard: Scoreboard::new(
                assets.game_over,
                assets.scoreboard,
                Button::new(assets.button),
            ),
            effects: Vec::new(),
        };
        assert(scene@ =~= GameState::initial(*assets, screen_width, screen_height, highscore));
        scene
    }

    /// Puts the game back to its beginning.
    pub fn reset(&mut self, screen_height: i64)
        requires
            old(self)@.wf(),
        ensures
            final(self)@ == old(self)@.restarted(screen_height),
            final(self)@.wf(),
    {
        self.instructions_visible = true;
        self.pipes.clear();
        self.background.scroll = true;
        self.ground.scroll = true;
        self.bird.reset(screen_height);
        self.score = 0;
        self.game_over = false;
        assert(self@ =~= old(self)@.restarted(screen_height));
    }

    /// Sets the game going.
    pub fn start_game(&mut self)
        requires
            old(self)@.wf(),
        ensures
            final(self)@ == old(self)@.started(),
            final(self)@.wf(),
    {
        if self.instructions_visible {
            self.instructions_visible = false;
        }
        self.bird.allow_gravity = true;
        self.pipe_generator.start();
        assert(self@ =~= old(self)@.started());
    }

    /// Stops the layers, the generator and the pipes.
    fn freeze(&mut self)
        ensures
            final(self)@ == old(self)@.frozen(),
            all_in_world(old(self)@.pipes) ==> all_in_world(final(self)@.pipes),
            all_disabled(final(self)@.pipes),
    {
        self.pipe_generator.stop();
        self.background.scroll = false;
        self.ground.scroll = false;
        disable_all(&mut self.pipes);
        assert(self@ =~= old(self)@.frozen());
    }

    /// Resolves what the bird has run into: first the pipes, then the
    /// ground.
    pub fn check_for_collisions(&mut self, screen_width: i64, screen_height: i64)
        requires
            old(self)@.wf(),
            i64::MIN <= screen_height - old(self).ground.texture.height,
        ensures
            final(self)@ == old(self)@.pipe_hit_resolved().ground_hit_resolved(
                screen_width,
                screen_height,
            ),
            final(self)@.wf(),
    {
        let mut bird_died = false;
        if self.bird.alive {
            let rect = self.bird.get_collision_rect();
            bird_died = any_hit(&self.pipes, &rect);
        }
        if bird_died {
            self.effects.push(Effect::PlayPipeHit);
            self.bird.kill();
            self.freeze();
        }
        assert(self@ =~= old(self)@.pipe_hit_resolved());
        let ghost midway = self@;
        let ground_rect = self.ground.get_collision_rect(screen_width, screen_height);
        if !self.game_over && self.bird.collides_with(&ground_rect) {
            self.effects.push(Effect::PlayGroundHit);
            self.bird.kill();
            self.bird.allow_gravity = false;
            self.game_over = true;
            if self.score >= self.highscore {
                self.highscore = self.score;
                self.effects.push(Effect::SaveHighscore(self.highscore));
            }
            self.scoreboard.set_score(self.score, self.highscore);
            self.freeze();
            assert(self@ =~= midway.ground_hit_resolved(screen_width, screen_height));
        }
    }

    /// Adds points to the score and plays a sound for each.
    fn award(&mut self, points: usize)
        ensures
            final(self)@ == (GameState {
                score: add_points(old(self).score, points as nat),
                effects: old(self)@.effects + Seq::new(points as nat, |i: int| Effect::PlayScore),
                ..old(self)@
            }),
    {
        let mut given: usize = 0;
        while given < points
            invariant
                given <= points,
                self@ == (GameState {
                    score: add_points(old(self).score, given as nat),
                    effects: old(self)@.effects + Seq::new(
                        given as nat,
                        |i: int| Effect::PlayScore,
                    ),
                    ..old(self)@
                }),
            decreases points - given,
        {
            self.effects.push(Effect::PlayScore);
            if self.score < i32::MAX {
                self.score += 1;
            }
            given += 1;
            assert(self@.effects =~= old(self)@.effects + Seq::new(
                given as nat,
                |i: int| Effect::PlayScore,
            ));
            assert(self@ =~= (GameState {
                score: add_points(old(self).score, given as nat),
                effects: old(self)@.effects + Seq::new(given as nat, |i: int| Effect::PlayScore),
                ..old(self)@
            }));
        }
    }

    /// Forgets what the last frame asked of the outside world.
    fn begin_frame(&mut self)
        requires
            old(self)@.wf(),
        ensures
            final(self)@ == (GameState { effects: Seq::empty(), ..old(self)@ }),
            final(self)@.wf(),
    {
        self.effects.clear();
        assert(self@ =~= (GameState { effects: Seq::empty(), ..old(self)@ }));
    }

    /// Animates the bird and lets it fall, once the instructions are gone.
    fn move_bird(&mut self, input: &FrameInput)
        requires
            old(self)@.wf(),
            input.wf(),
        ensures
            final(self)@ == old(self)@.bird_moved(*input),
            final(self)@.wf(),
    {
        if !self.instructions_visible {
            let column = self.bird.position.x;
            self.bird.update(input.frame_time, input.screen_height);
            self.bird.position.x = column;
        }
        assert(self@ =~= old(self)@.bird_moved(*input));
    }

    /// Acts on the pointer button.
    fn handle_click(&mut self, input: &FrameInput)
        requires
            old(self)@.wf(),
            input.wf(),
        ensures
            final(self)@ == old(self)@.clicked(*input),
            final(self)@.wf(),
    {
        if input.mouse_down {
            if !self.is_mouse_down {
                if self.instructions_visible {
                    self.start_game();
                } else if self.game_over && self.scoreboard.button.contains(
                    input.mouse_position,
                    input.screen_width,
                    input.screen_height,
                ) {
                    self.reset(input.screen_height);
                }
                if self.bird.alive && !self.game_over {
                    self.effects.push(Effect::PlayFlap);
                    self.bird.flap();
                }
                self.is_mouse_down = true;
            }
        } else {
            self.is_mouse_down = false;
        }
        assert(self@ =~= old(self)@.clicked(*input));
    }

    /// Gives points, moves the pipes and scrolls the layers.
    fn advance_pipes_and_layers(&mut self)
        requires
            old(self)@.wf(),
            !old(self).game_over,
        ensures
            final(self)@ == old(self)@.pipes_advanced().layers_scrolled(),
            final(self)@.wf(),
    {
        let points = advance_all(&mut self.pipes, self.bird.position.x);
        self.award(points);
        assert(self@ =~= old(self)@.pipes_advanced());
        self.background.update();
        self.ground.update();
        assert(self@ =~= old(self)@.pipes_advanced().layers_scrolled());
    }

    /// Counts the frame and lets a pipe pair enter the world when one is
    /// due.
    fn spawn_when_due(&mut self, input: &FrameInput)
        requires
            old(self)@.wf(),
            input.wf(),
            old(self).game_over ==> !old(self).pipe_generator.enabled,
        ensures
            exists|gap_top: i64|
                gap_allowed(floor_of(input.screen_height), gap_top) && final(self)@
                    == #[trigger] old(self)@.pipe_spawned(input.screen_width, gap_top),
            final(self)@.wf(),
    {
        let ghost mut gap: i64 = GAP_MARGIN;
        if self.pipe_generator.should_spawn_pipe() {
            let ground_y = input.screen_height - GROUND_HEIGHT;
            let ghost before = self.pipes@;
            spawn(&mut self.pipes, input.screen_width, ground_y);
            proof {
                gap = choose|gap_top: i64|
                    gap_allowed(ground_y, gap_top) && self.pipes@ == #[trigger] with_spawned(
                        before,
                        input.screen_width,
                        gap_top,
                    );
            }
        }
        assert(self@ =~= old(self)@.pipe_spawned(input.screen_width, gap));
    }

    /// Advances the world, unless the game is over.
    fn advance_world(&mut self, input: &FrameInput)
        requires
            old(self)@.wf(),
            input.wf(),
        ensures
            exists|gap_top: i64|
                gap_allowed(floor_of(input.screen_height), gap_top) && final(self)@
                    == #[trigger] old(self)@.world_advanced(*input, gap_top),
            final(self)@.wf(),
    {
        if !self.game_over {
            self.advance_pipes_and_layers();
            self.check_for_collisions(input.screen_width, input.screen_height);
            let ghost resolved = self@;
            self.spawn_when_due(input);
            proof {
                let gap = choose|gap_top: i64|
                    gap_allowed(floor_of(input.screen_height), gap_top) && self@
                        == #[trigger] resolved.pipe_spawned(input.screen_width, gap_top);
                assert(self@ == old(self)@.world_advanced(*input, gap));
            }
        } else {
            assert(self@ == old(self)@.world_advanced(*input, GAP_MARGIN));
        }
    }
}

impl Scene for GameScene {
    open spec fn wf(&self) -> bool {
        self@.wf()
    }

    /// Drawing leaves the game as it is and asks for its
    /// [`GameState::display_list`].
    open spec fn draws_to(
        &self,
        screen_width: i64,
        screen_height: i64,
        after: &Self,
        commands: Seq<DrawCommand>,
    ) -> bool {
        *after == *self && commands == self@.display_list(screen_width, screen_height)
    }

    /// A frame takes the game to its [`GameState::step`], for some gap
    /// that may be drawn above the floor of the screen.
    open spec fn updates_to(&self, input: FrameInput, after: &Self, transition: Transition) -> bool {
        &&& transition == transition_for(input)
        &&& exists|gap_top: i64|
            gap_allowed(floor_of(input.screen_height), gap_top) && after@ == #[trigger] self@.step(
                input,
                gap_top,
            )
    }

    fn update(&mut self, input: &FrameInput) -> (transition: Transition) {
        self.begin_frame();
        self.move_bird(input);
        self.handle_click(input);
        self.advance_world(input);
        proof {
            let clicked = old(self)@.after_input(*input);
            let gap = choose|gap_top: i64|
                gap_allowed(floor_of(input.screen_height), gap_top) && self@
                    == #[trigger] clicked.world_advanced(*input, gap_top);
            assert(self@ == old(self)@.step(*input, gap));
        }
        if input.escape_pressed {
            Transition::Pop
        } else {
            Transition::Stay
        }
    }

    fn draw(&mut self, screen_width: i64, screen_height: i64) -> (commands: Vec<DrawCommand>) {
        self.render(screen_width, screen_height)
    }
}

impl GameScene {
    /// Adds the banners to a list of commands, while they are on show.
    fn draw_banners(&self, screen_width: i64, screen_height: i64, commands: &mut Vec<DrawCommand>)
        requires
            self@.wf(),
            0 <= screen_width <= MAX_EXTENT,
            0 <= screen_height <= MAX_EXTENT,
        ensures
            final(commands)@ == old(commands)@ + self@.banner_sprites(screen_width, screen_height),
    {
        if self.instructions_visible {
            commands.push(
                DrawCommand::Sprite {
                    texture: Texture::GetReady,
                    x: screen_width / 2 - self.get_ready.width / 2,
                    y: screen_height / 4,
                    source: None,
                },
            );
            commands.push(
                DrawCommand::Sprite {
                    texture: Texture::Instructions,
                    x: screen_width / 2 - self.instructions.width / 2,
                    y: screen_height * 3 / 5,
                    source: None,
                },
            );
        }
        assert(commands@ =~= old(commands)@ + self@.banner_sprites(screen_width, screen_height));
    }

    /// Adds the running score or the scoreboard to a list of commands.
    fn draw_score(&self, screen_width: i64, screen_height: i64, commands: &mut Vec<DrawCommand>)
        requires
            self@.wf(),
            0 <= screen_width <= MAX_EXTENT,
            0 <= screen_height <= MAX_EXTENT,
        ensures
            final(commands)@ == old(commands)@ + self@.score_sprites(screen_width, screen_height),
    {
        if !self.game_over {
            commands.push(
                DrawCommand::Number {
                    value: self.score,
                    x: screen_width / 2,
                    y: SCORE_BASELINE,
                    style: TextStyle::Score,
                },
            );
            assert(commands@ =~= old(commands)@ + self@.score_sprites(
                screen_width,
                screen_height,
            ));
        } else {
            self.scoreboard.draw(screen_width, screen_height, commands);
        }
    }

    /// The commands that draw the game.
    fn render(&self, screen_width: i64, screen_height: i64) -> (commands: Vec<DrawCommand>)
        requires
            self@.wf(),
            0 <= screen_width <= MAX_EXTENT,
            0 <= screen_height <= MAX_EXTENT,
        ensures
            commands@ == self@.display_list(screen_width, screen_height),
    {
        let mut commands: Vec<DrawCommand> = Vec::new();
        push_tiles(&mut commands, Texture::Sky, 0, SKY_STEP, 0, SKY_TILES);
        self.background.draw(screen_height, &mut commands);
        self.draw_banners(screen_width, screen_height, &mut commands);
        draw_all(&self.pipes, &mut commands);
        self.ground.draw(screen_height, &mut commands);
        self.draw_score(screen_width, screen_height, &mut commands);
        self.bird.draw(&mut commands);
        assert(commands@ =~= self@.display_list(screen_width, screen_height));
        commands
    }
}

} // verus!
