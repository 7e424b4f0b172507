//! The start button, centred on the screen.
use vstd::prelude::*;
use crate::geometry::{trunc_div, Region, Size, Vec2, MAX_EXTENT};
use crate::render::{sprite_at, DrawCommand, Texture};

verus! {

#[derive(Clone, Copy, Debug, PartialEq, Eq, Structural)]
pub struct Button {
    pub texture: Size,
}

impl Button {
    pub fn new(texture: Size) -> (button: Button)
        ensures
            button == (Button { texture }),
    {
        Button { texture }
    }

    /// The part of a screen of the given size that the button fills: its
    /// texture's size, centred.
    pub open spec fn hit_region(self, screen_width: i64, screen_height: i64) -> Region {
        Region {
            x: trunc_div(screen_width as int, 2) - trunc_div(self.texture.width as int, 2),
            y: trunc_div(screen_height as int, 2) - trunc_div(self.texture.height as int, 2),
            w: self.texture.width as int,
            h: self.texture.height as int,
        }
    }

    /// The button as it is drawn on a screen of the given size: where
    /// its hit region is.
    pub open spec fn sprite(self, screen_width: i64, screen_height: i64) -> DrawCommand {
        sprite_at(
            Texture::StartButton,
            self.hit_region(screen_width, screen_height).x,
            self.hit_region(screen_width, screen_height).y,
        )
    }

    /// Adds the button to a list of commands.
    pub fn draw(&self, screen_width: i64, screen_height: i64, commands: &mut Vec<DrawCommand>)
        requires
            0 <= screen_width <= MAX_EXTENT,
            0 <= screen_height <= MAX_EXTENT,
            self.texture.drawable(),
        ensures
            final(commands)@ == old(commands)@.push(self.sprite(screen_width, screen_height)),
    {
        commands.push(
            DrawCommand::Sprite {
                texture: Texture::StartButton,
                x: screen_width / 2 - self.texture.width / 2,
                y: screen_height / 2 - self.texture.height / 2,
                source: None,
            },
        );
    }

    /// Whether `point` is on the button. The button's right and bottom
    /// edges are outside it.
    pub fn contains(&self, point: Vec2, screen_width: i64, screen_height: i64) -> (inside: bool)
        ensures
            inside == self.hit_region(screen_width, screen_height).contains(
                point.x as int,
                point.y as int,
            ),
    {
        let left: i128 = (screen_width / 2) as i128 - (self.texture.width / 2) as i128;
        let top: i128 = (screen_height / 2) as i128 - (self.texture.height / 2) as i128;
        let x: i128 = point.x as i128;
        let y: i128 = point.y as i128;
        x >= left && x < left + self.texture.width as i128 && y < top
            + self.texture.height as i128 && y >= top
    }
}

} // verus!
