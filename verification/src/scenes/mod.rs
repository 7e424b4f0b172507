//! Scenes and the signal by which a scene asks to leave the stack.
use vstd::prelude::*;
use crate::geometry::{MAX_EXTENT, UNITS_PER_PIXEL};
use crate::input::FrameInput;
use crate::render::DrawCommand;
use crate::scenes::game::GameScene;
use crate::scenes::title::TitleScene;

pub mod game;
pub mod invariants;
pub mod title;

verus! {

/// What the scene stack should do after a scene's update.
#[derive(Clone, Copy, Debug, PartialEq, Eq, Structural)]
pub enum Transition {
    /// Keep the current scene.
    Stay,
    /// Pop the current scene off the stack.
    Pop,
}

/// The signal a scene gives on a frame: it leaves when the cancel key
/// was pressed.
pub open spec fn transition_for(input: FrameInput) -> Transition {
    if input.escape_pressed {
        Transition::Pop
    } else {
        Transition::Stay
    }
}

/// A unit of the game that is advanced once per frame.
pub trait Scene {
    /// What the scene keeps true of itself between frames.
    open spec fn wf(&self) -> bool {
        true
    }

    /// Whether one frame with the given input may take the scene from
    /// `self` to `after` and give `transition`.
    open spec fn updates_to(&self, input: FrameInput, after: &Self, transition: Transition) -> bool {
        true
    }

    /// Whether drawing the scene on a screen of the given size may leave
    /// `after` behind and ask for `commands`.
    open spec fn draws_to(
        &self,
        screen_width: i64,
        screen_height: i64,
        after: &Self,
        commands: Seq<DrawCommand>,
    ) -> bool {
        true
    }

    /// Advances the scene by one frame.
    fn update(&mut self, input: &FrameInput) -> (transition: Transition)
        requires
            old(self).wf(),
            input.wf(),
        ensures
            final(self).wf(),
            old(self).updates_to(*input, final(self), transition),
    ;

    /// Says what is to be drawn of the scene on a screen of the given
    /// size.
    fn draw(&mut self, screen_width: i64, screen_height: i64) -> (commands: Vec<DrawCommand>)
        requires
            old(self).wf(),
            0 <= screen_width <= MAX_EXTENT,
            0 <= screen_height <= MAX_EXTENT,
        ensures
            final(self).wf(),
            old(self).draws_to(screen_width, screen_height, final(self), commands@),
    ;
}

/// Copies of the sky that are drawn side by side.
pub const SKY_TILES: usize = 13;

/// Distance from one copy of the sky to the next.
pub const SKY_STEP: i64 = 100 * UNITS_PER_PIXEL;

/// Either of the two scenes of the game.
pub enum AnyScene {
    Title(TitleScene),
    Game(GameScene),
}

impl Scene for AnyScene {
    open spec fn wf(&self) -> bool {
        match self {
            AnyScene::Title(title) => title.wf(),
            AnyScene::Game(game) => game.wf(),
        }
    }

    /// A frame advances the scene as its kind does, and leaves it of the
    /// same kind.
    open spec fn updates_to(&self, input: FrameInput, after: &Self, transition: Transition) -> bool {
        match (self, after) {
            (AnyScene::Title(title), AnyScene::Title(next)) => title.updates_to(
                input,
                next,
                transition,
            ),
            (AnyScene::Game(game), AnyScene::Game(next)) => game.updates_to(input, next, transition),
            _ => false,
        }
    }

    open spec fn draws_to(
        &self,
        screen_width: i64,
        screen_height: i64,
        after: &Self,
        commands: Seq<DrawCommand>,
    ) -> bool {
        match (self, after) {
            (AnyScene::Title(title), AnyScene::Title(next)) => title.draws_to(
                screen_width,
                screen_height,
                next,
                commands,
            ),
            (AnyScene::Game(game), AnyScene::Game(next)) => game.draws_to(
                screen_width,
                screen_height,
                next,
                commands,
            ),
            _ => false,
        }
    }

    fn update(&mut self, input: &FrameInput) -> (transition: Transition) {
        match self {
            AnyScene::Title(title) => title.update(input),
            AnyScene::Game(game) => game.update(input),
        }
    }

    fn draw(&mut self, screen_width: i64, screen_height: i64) -> (commands: Vec<DrawCommand>) {
        match self {
            AnyScene::Title(title) => title.draw(screen_width, screen_height),
            AnyScene::Game(game) => game.draw(screen_width, screen_height),
        }
    }
}

} // verus!
