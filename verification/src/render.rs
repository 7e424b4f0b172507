//! What a scene asks to be drawn: a list of commands, in the order in
//! which they are to be carried out. Carrying them out is left to the
//! caller.
use vstd::prelude::*;
use crate::geometry::{Rect, MAX_EXTENT};

verus! {

/// The textures of the game, by name.
#[derive(Clone, Copy, Debug, PartialEq, Eq)]
pub enum Texture {
    Sky,
    Forest,
    Cityscape,
    Clouds,
    Ground,
    Pipes,
    /// The whole strip of wing frames.
    Bird,
    /// One wing frame of the bird.
    BirdFrame(u8),
    GetReady,
    Instructions,
    GameOver,
    Scoreboard,
    Medals,
    StartButton,
    Title,
}

/// The notices shown while a scene waits.
#[derive(Clone, Copy, Debug, PartialEq, Eq)]
pub enum Notice {
    Loading,
    StartingGame,
}

/// How a number is set.
#[derive(Clone, Copy, Debug, PartialEq, Eq)]
pub enum TextStyle {
    /// The running score: white, 32 high, its baseline at the given height.
    Score,
    /// A number on the scoreboard: dark brown, 30 high, its baseline
    /// half its own height below the given height.
    Board,
}

#[derive(Clone, Copy, Debug, PartialEq, Eq)]
pub enum DrawCommand {
    /// Fill the screen with black.
    Clear,
    /// Draw a texture, or the part of it that `source` gives, with its
    /// top-left corner at `(x, y)`.
    Sprite { texture: Texture, x: i64, y: i64, source: Option<Rect> },
    /// Draw a number in the game's font, centred on the column `x`.
    Number { value: i32, x: i64, y: i64, style: TextStyle },
    /// Draw a notice in white, 30 high, from `(x, y)` on.
    Notice { notice: Notice, x: i64, y: i64 },
}

/// A whole texture with its top-left corner at `(x, y)`.
pub open spec fn sprite_at(texture: Texture, x: int, y: int) -> DrawCommand {
    DrawCommand::Sprite { texture, x: x as i64, y: y as i64, source: None }
}

/// `count` copies of a texture side by side at the height `y`, the first
/// at `start` and each `step` to the right of the one before.
pub open spec fn tiles(texture: Texture, start: i64, step: i64, y: i64, count: nat) -> Seq<
    DrawCommand,
> {
    Seq::new(count, |k: int| sprite_at(texture, start + k * step, y as int))
}

/// Most copies of a texture that are drawn side by side.
pub const MAX_TILES: usize = 16;

/// Adds [`tiles`] to a list of commands.
pub fn push_tiles(
    commands: &mut Vec<DrawCommand>,
    texture: Texture,
    start: i64,
    step: i64,
    y: i64,
    count: usize,
)
    requires
        count <= MAX_TILES,
        -MAX_EXTENT <= start <= MAX_EXTENT,
        0 <= step <= MAX_EXTENT,
    ensures
        final(commands)@ == old(commands)@ + tiles(texture, start, step, y, count as nat),
{
    let mut k: usize = 0;
    let mut x: i64 = start;
    while k < count
        invariant
            k <= count <= MAX_TILES,
            -MAX_EXTENT <= start <= MAX_EXTENT,
            0 <= step <= MAX_EXTENT,
            x == start + k * step,
            commands@ == old(commands)@ + tiles(texture, start, step, y, k as nat),
        decreases count - k,
    {
        commands.push(DrawCommand::Sprite { texture, x, y, source: None });
        assert((k + 1) * step == k * step + step) by (nonlinear_arith);
        assert(k * step <= 16 * MAX_EXTENT) by (nonlinear_arith)
            requires
                0 <= k <= 16,
                0 <= step <= MAX_EXTENT,
        ;
        assert(0 <= k * step) by (nonlinear_arith)
            requires
                0 <= k,
                0 <= step,
        ;
        x = x + step;
        k += 1;
        assert(commands@ =~= old(commands)@ + tiles(texture, start, step, y, k as nat));
    }
}

} // verus!
