//! The ground: a strip along the bottom of the screen that scrolls at the
//! scroll speed and ends the game when the bird touches it.
use vstd::prelude::*;
use crate::geometry::{Rect, Size, MAX_EXTENT};
use crate::render::{push_tiles, tiles, DrawCommand, Texture};
use crate::systems::physics::check_collision;
use crate::systems::scrolling::{advance, scrolled};
use crate::SCROLL_SPEED;

verus! {

/// Copies of the ground that are drawn side by side.
pub const GROUND_COPIES: usize = 5;

#[derive(Clone, Copy, Debug, PartialEq, Eq, Structural)]
pub struct Ground {
    pub texture: Size,
    pub scroll_pos: i64,
    pub scroll: bool,
}

impl Ground {
    /// The texture can be tiled and the strip stands less than its width
    /// from the origin.
    pub open spec fn wf(self) -> bool {
        &&& self.texture.tileable()
        &&& -self.texture.width < self.scroll_pos < self.texture.width
    }

    /// A scrolling ground with a texture of the given size, at the origin.
    pub fn new(texture: Size) -> (ground: Ground)
        requires
            texture.tileable(),
        ensures
            ground == (Ground { texture, scroll_pos: 0, scroll: true }),
            ground.wf(),
    {
        Ground { texture, scroll_pos: 0, scroll: true }
    }

    /// The ground one frame later.
    pub open spec fn updated(self) -> Ground {
        if self.scroll {
            Ground {
                scroll_pos: scrolled(
                    self.scroll_pos as int,
                    SCROLL_SPEED as int,
                    self.texture.width as int,
                ) as i64,
                ..self
            }
        } else {
            self
        }
    }

    pub fn update(&mut self)
        requires
            old(self).wf(),
        ensures
            *final(self) == old(self).updated(),
            final(self).wf(),
    {
        if self.scroll {
            self.scroll_pos = advance(self.scroll_pos, SCROLL_SPEED, self.texture.width);
        }
    }

    /// The ground on a screen of the given height: copies of its texture
    /// along the bottom.
    pub open spec fn sprites(self, screen_height: i64) -> Seq<DrawCommand> {
        tiles(
            Texture::Ground,
            self.scroll_pos,
            self.texture.width,
            (screen_height - self.texture.height) as i64,
            GROUND_COPIES as nat,
        )
    }

    /// Adds the ground to a list of commands.
    pub fn draw(&self, screen_height: i64, commands: &mut Vec<DrawCommand>)
        requires
            self.wf(),
            0 <= screen_height <= MAX_EXTENT,
        ensures
            final(commands)@ == old(commands)@ + self.sprites(screen_height),
    {
        push_tiles(
            commands,
            Texture::Ground,
            self.scroll_pos,
            self.texture.width,
            screen_height - self.texture.height,
            GROUND_COPIES,
        );
    }

    /// The rectangle the ground fills on a screen of the given size: the
    /// full width, as high as the texture, along the bottom.
    pub open spec fn body(self, screen_width: i64, screen_height: i64) -> Rect {
        Rect {
            x: 0,
            y: (screen_height - self.texture.height) as i64,
            w: screen_width,
            h: self.texture.height,
        }
    }

    pub fn get_collision_rect(&self, screen_width: i64, screen_height: i64) -> (rect: Rect)
        requires
            i64::MIN <= screen_height - self.texture.height <= i64::MAX,
        ensures
            rect == self.body(screen_width, screen_height),
    {
        Rect::new(0, screen_height - self.texture.height, screen_width, self.texture.height)
    }

    pub fn collides_with(&self, obj: &Rect, screen_width: i64, screen_height: i64) -> (hit: bool)
        requires
            i64::MIN <= screen_height - self.texture.height <= i64::MAX,
        ensures
            hit == self.body(screen_width, screen_height)@.overlaps(obj@),
    {
        let rect = self.get_collision_rect(screen_width, screen_height);
        check_collision(&rect, obj)
    }
}

} // verus!
