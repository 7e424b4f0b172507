//! The board shown when the game is over: the score, the high score, a
//! medal for a good score and the button that starts the next game.
use vstd::prelude::*;
use crate::geometry::{Rect, Size, MAX_EXTENT, UNITS_PER_PIXEL};
use crate::render::{sprite_at, DrawCommand, TextStyle, Texture};
use crate::prefabs::button::Button;

verus! {

/// Least score that earns the silver medal.
pub const SILVER_SCORE: i32 = 10;

/// Least score that earns the gold medal.
pub const GOLD_SCORE: i32 = 20;

/// Width of a medal in the medals texture.
pub const MEDAL_WIDTH: i64 = 44 * UNITS_PER_PIXEL;

/// Height of a medal in the medals texture.
pub const MEDAL_HEIGHT: i64 = 46 * UNITS_PER_PIXEL;

/// Distance by which the board stands above the middle of the screen.
pub const BOARD_RISE: i64 = 130 * UNITS_PER_PIXEL;

/// Distance from the score down to the high score on the board.
pub const HIGHSCORE_DROP: i64 = 47 * UNITS_PER_PIXEL;

#[derive(Clone, Copy, Debug, PartialEq, Eq, Structural)]
pub enum Medal {
    Silver,
    Gold,
}

#[derive(Clone, Copy, Debug, PartialEq, Eq, Structural)]
pub struct Scoreboard {
    pub game_over_texture: Size,
    pub scoreboard_texture: Size,
    pub score: i32,
    pub highscore: i32,
    pub button: Button,
}

/// The medal a score earns: gold from the gold score on, silver from
/// the silver score on, none below.
pub open spec fn medal_for(score: i32) -> Option<Medal> {
    if score >= GOLD_SCORE {
        Some(Medal::Gold)
    } else if score >= SILVER_SCORE {
        Some(Medal::Silver)
    } else {
        None
    }
}

/// The part of the medals texture that shows a medal: silver on top,
/// gold below it.
pub open spec fn medal_source(medal: Medal) -> Rect {
    match medal {
        Medal::Gold => Rect { x: 0, y: MEDAL_HEIGHT, w: MEDAL_WIDTH, h: MEDAL_HEIGHT },
        Medal::Silver => Rect { x: 0, y: 0, w: MEDAL_WIDTH, h: MEDAL_HEIGHT },
    }
}

impl Scoreboard {
    /// Left edge of the board on a screen of the given width: the board
    /// is centred.
    pub open spec fn board_x(self, screen_width: i64) -> int {
        screen_width / 2 - self.scoreboard_texture.width / 2
    }

    /// Top edge of the board on a screen of the given height: the board
    /// stands above the middle by the board rise.
    pub open spec fn board_y(self, screen_height: i64) -> int {
        screen_height / 2 - self.scoreboard_texture.height / 2 - BOARD_RISE
    }

    /// The medal as it is drawn, where the score earns one: an eighth of
    /// the board from its left edge and a little above its middle.
    pub open spec fn medal_sprites(self, screen_width: i64, screen_height: i64) -> Seq<
        DrawCommand,
    > {
        match medal_for(self.score) {
            Some(medal) => seq![
                DrawCommand::Sprite {
                    texture: Texture::Medals,
                    x: (self.board_x(screen_width) + self.scoreboard_texture.width * 3 / 25) as i64,
                    y: (self.board_y(screen_height) + self.scoreboard_texture.height * 37
                        / 100) as i64,
                    source: Some(medal_source(medal)),
                },
            ],
            None => Seq::empty(),
        }
    }

    /// The board as it is drawn on a screen of the given size: the
    /// game-over banner near the top, the board with the score and the
    /// high score on its right and the medal on its left, and the button.
    pub open spec fn sprites(self, screen_width: i64, screen_height: i64) -> Seq<DrawCommand> {
        let number_x = (self.board_x(screen_width) + self.scoreboard_texture.width * 4 / 5) as i64;
        let number_y = self.board_y(screen_height) + self.scoreboard_texture.height * 2 / 5;
        seq![
            sprite_at(
                Texture::GameOver,
                screen_width / 2 - self.game_over_texture.width / 2,
                screen_height / 2 / 10,
            ),
            sprite_at(
                Texture::Scoreboard,
                self.board_x(screen_width),
                self.board_y(screen_height),
            ),
            DrawCommand::Number {
                value: self.score,
                x: number_x,
                y: number_y as i64,
                style: TextStyle::Board,
            },
            DrawCommand::Number {
                value: self.highscore,
                x: number_x,
                y: (number_y + HIGHSCORE_DROP) as i64,
                style: TextStyle::Board,
            },
        ] + self.medal_sprites(screen_width, screen_height).push(
            self.button.sprite(screen_width, screen_height),
        )
    }

    /// Adds the board to a list of commands.
    pub fn draw(&self, screen_width: i64, screen_height: i64, commands: &mut Vec<DrawCommand>)
        requires
            0 <= screen_width <= MAX_EXTENT,
            0 <= screen_height <= MAX_EXTENT,
            self.game_over_texture.drawable(),
            self.scoreboard_texture.drawable(),
            self.button.texture.drawable(),
        ensures
            final(commands)@ == old(commands)@ + self.sprites(screen_width, screen_height),
    {
        let board_x: i64 = screen_width / 2 - self.scoreboard_texture.width / 2;
        let board_y: i64 = screen_height / 2 - self.scoreboard_texture.height / 2 - BOARD_RISE;
        let number_x: i64 = board_x + self.scoreboard_texture.width * 4 / 5;
        let number_y: i64 = board_y + self.scoreboard_texture.height * 2 / 5;
        commands.push(
            DrawCommand::Sprite {
                texture: Texture::GameOver,
                x: screen_width / 2 - self.game_over_texture.width / 2,
                y: screen_height / 2 / 10,
                source: None,
            },
        );
        commands.push(
            DrawCommand::Sprite { texture: Texture::Scoreboard, x: board_x, y: board_y, source: None },
        );
        commands.push(
            DrawCommand::Number {
                value: self.score,
                x: number_x,
                y: number_y,
                style: TextStyle::Board,
            },
        );
        commands.push(
            DrawCommand::Number {
                value: self.highscore,
                x: number_x,
                y: number_y + HIGHSCORE_DROP,
                style: TextStyle::Board,
            },
        );
        match self.medal() {
            Some(medal) => {
                let source = match medal {
                    Medal::Gold => Rect::new(0, MEDAL_HEIGHT, MEDAL_WIDTH, MEDAL_HEIGHT),
                    Medal::Silver => Rect::new(0, 0, MEDAL_WIDTH, MEDAL_HEIGHT),
                };
                commands.push(
                    DrawCommand::Sprite {
                        texture: Texture::Medals,
                        x: board_x + self.scoreboard_texture.width * 3 / 25,
                        y: board_y + self.scoreboard_texture.height * 37 / 100,
                        source: Some(source),
                    },
                );
            },
            None => {},
        }
        self.button.draw(screen_width, screen_height, commands);
        assert(commands@ =~= old(commands)@ + self.sprites(screen_width, screen_height));
    }

    /// A board that shows no points yet.
    pub fn new(game_over_texture: Size, scoreboard_texture: Size, button: Button) -> (board:
        Scoreboard)
        ensures
            board == (Scoreboard {
                game_over_texture,
                scoreboard_texture,
                score: 0,
                highscore: 0,
                button,
            }),
    {
        Scoreboard { game_over_texture, scoreboard_texture, score: 0, highscore: 0, button }
    }

    /// Sets the two numbers the board shows.
    pub fn set_score(&mut self, score: i32, highscore: i32)
        ensures
            *final(self) == (Scoreboard { score, highscore, ..*old(self) }),
    {
        self.score = score;
        self.highscore = highscore;
    }

    /// The medal the board shows beside the score.
    pub fn medal(&self) -> (medal: Option<Medal>)
        ensures
            medal == medal_for(self.score),
    {
        if self.score >= GOLD_SCORE {
            Some(Medal::Gold)
        } else if self.score >= SILVER_SCORE {
            Some(Medal::Silver)
        } else {
            None
        }
    }
}

} // verus!
