//! The backdrop: three layers that scroll at different speeds to give depth.
use vstd::prelude::*;
use crate::geometry::{Size, MAX_EXTENT, UNITS_PER_PIXEL};
use crate::render::{push_tiles, tiles, DrawCommand, Texture};
use crate::systems::scrolling::{advance, scrolled};
use crate::SCROLL_SPEED;

verus! {

/// Distance the forest, the nearest layer, travels each frame: three
/// quarters of the scroll speed.
pub const FOREST_SPEED: i64 = 675;

/// Distance the cityscape travels each frame: half the scroll speed.
pub const CITYSCAPE_SPEED: i64 = 450;

/// Distance the clouds, the farthest layer, travel each frame: a quarter
/// of the scroll speed.
pub const CLOUD_SPEED: i64 = 225;

/// Copies of each layer that are drawn side by side, so that the screen
/// stays covered while the layer wraps.
pub const LAYER_COPIES: usize = 6;

/// Height above the bottom of the screen at which the cityscape and the
/// clouds stand.
pub const SKYLINE_OFFSET: i64 = 130 * UNITS_PER_PIXEL;

#[derive(Clone, Copy, Debug, PartialEq, Eq, Structural)]
pub struct Background {
    pub forest_texture: Size,
    pub cityscape_texture: Size,
    pub cloud_texture: Size,
    pub forest_pos: i64,
    pub cityscape_pos: i64,
    pub cloud_pos: i64,
    pub scroll: bool,
}

/// The positions of the three layers one frame later: each scrolled at
/// its own speed and wrapped at its own width, or all as they were where
/// scrolling is off.
pub open spec fn layer_positions(
    forest_pos: i64,
    cityscape_pos: i64,
    cloud_pos: i64,
    forest_width: i64,
    cityscape_width: i64,
    cloud_width: i64,
    scroll: bool,
) -> (i64, i64, i64) {
    if scroll {
        (
            scrolled(forest_pos as int, FOREST_SPEED as int, forest_width as int) as i64,
            scrolled(cityscape_pos as int, CITYSCAPE_SPEED as int, cityscape_width as int) as i64,
            scrolled(cloud_pos as int, CLOUD_SPEED as int, cloud_width as int) as i64,
        )
    } else {
        (forest_pos, cityscape_pos, cloud_pos)
    }
}

impl Background {
    /// Each layer can be tiled and stands less than its width from the
    /// origin.
    pub open spec fn wf(self) -> bool {
        &&& self.forest_texture.tileable()
        &&& self.cityscape_texture.tileable()
        &&& self.cloud_texture.tileable()
        &&& -self.forest_texture.width < self.forest_pos < self.forest_texture.width
        &&& -self.cityscape_texture.width < self.cityscape_pos < self.cityscape_texture.width
        &&& -self.cloud_texture.width < self.cloud_pos < self.cloud_texture.width
    }

    /// A scrolling backdrop of three layers with textures of the given
    /// sizes, each at the origin.
    pub fn new(forest_texture: Size, cityscape_texture: Size, cloud_texture: Size) -> (background:
        Background)
        requires
            forest_texture.tileable(),
            cityscape_texture.tileable(),
            cloud_texture.tileable(),
        ensures
            background == (Background {
                forest_texture,
                cityscape_texture,
                cloud_texture,
                forest_pos: 0,
                cityscape_pos: 0,
                cloud_pos: 0,
                scroll: true,
            }),
            background.wf(),
    {
        Background {
            forest_texture,
            cityscape_texture,
            cloud_texture,
            forest_pos: 0,
            cityscape_pos: 0,
            cloud_pos: 0,
            scroll: true,
        }
    }

    /// The backdrop one frame later.
    pub open spec fn updated(self) -> Background {
        let next = layer_positions(
            self.forest_pos,
            self.cityscape_pos,
            self.cloud_pos,
            self.forest_texture.width,
            self.cityscape_texture.width,
            self.cloud_texture.width,
            self.scroll,
        );
        Background { forest_pos: next.0, cityscape_pos: next.1, cloud_pos: next.2, ..self }
    }

    pub fn update(&mut self)
        requires
            old(self).wf(),
        ensures
            *final(self) == old(self).updated(),
            final(self).wf(),
    {
        if self.scroll {
            self.forest_pos = advance(self.forest_pos, FOREST_SPEED, self.forest_texture.width);
            self.cityscape_pos = advance(
                self.cityscape_pos,
                CITYSCAPE_SPEED,
                self.cityscape_texture.width,
            );
            self.cloud_pos = advance(self.cloud_pos, CLOUD_SPEED, self.cloud_texture.width);
        }
    }

    /// The backdrop on a screen of the given height, from the farthest
    /// layer to the nearest: the clouds and the cityscape on the skyline,
    /// the forest along the bottom.
    pub open spec fn sprites(self, screen_height: i64) -> Seq<DrawCommand> {
        tiles(
            Texture::Clouds,
            self.cloud_pos,
            self.cloud_texture.width,
            (screen_height - SKYLINE_OFFSET - self.cloud_texture.height) as i64,
            LAYER_COPIES as nat,
        ) + tiles(
            Texture::Cityscape,
            self.cityscape_pos,
            self.cityscape_texture.width,
            (screen_height - SKYLINE_OFFSET - self.cityscape_texture.height) as i64,
            LAYER_COPIES as nat,
        ) + tiles(
            Texture::Forest,
            self.forest_pos,
            self.forest_texture.width,
            (screen_height - self.forest_texture.height) as i64,
            LAYER_COPIES as nat,
        )
    }

    /// Adds the backdrop to a list of commands.
    pub fn draw(&self, screen_height: i64, commands: &mut Vec<DrawCommand>)
        requires
            self.wf(),
            0 <= screen_height <= MAX_EXTENT,
        ensures
            final(commands)@ == old(commands)@ + self.sprites(screen_height),
    {
        push_tiles(
            commands,
            Texture::Clouds,
            self.cloud_pos,
            self.cloud_texture.width,
            screen_height - SKYLINE_OFFSET - self.cloud_texture.height,
            LAYER_COPIES,
        );
        push_tiles(
            commands,
            Texture::Cityscape,
            self.cityscape_pos,
            self.cityscape_texture.width,
            screen_height - SKYLINE_OFFSET - self.cityscape_texture.height,
            LAYER_COPIES,
        );
        push_tiles(
            commands,
            Texture::Forest,
            self.forest_pos,
            self.forest_texture.width,
            screen_height - self.forest_texture.height,
            LAYER_COPIES,
        );
        assert(commands@ =~= old(commands)@ + self.sprites(screen_height));
    }

    /// Where three layers of the given widths stand one frame after they
    /// stood at the given positions.
    pub fn calculate_positions(
        forest_pos: i64,
        cityscape_pos: i64,
        cloud_pos: i64,
        forest_width: i64,
        cityscape_width: i64,
        cloud_width: i64,
        scroll: bool,
    ) -> (next: (i64, i64, i64))
        requires
            forest_width > 0,
            cityscape_width > 0,
            cloud_width > 0,
        ensures
            next == layer_positions(
                forest_pos,
                cityscape_pos,
                cloud_pos,
                forest_width,
                cityscape_width,
                cloud_width,
                scroll,
            ),
    {
        if scroll {
            (
                advance(forest_pos, FOREST_SPEED, forest_width),
                advance(cityscape_pos, CITYSCAPE_SPEED, cityscape_width),
                advance(cloud_pos, CLOUD_SPEED, cloud_width),
            )
        } else {
            (forest_pos, cityscape_pos, cloud_pos)
        }
    }
}

/// Magnitude of a displacement.
pub open spec fn magnitude(v: int) -> int {
    if v < 0 {
        -v
    } else {
        v
    }
}

/// The layers travel three quarters, a half and a quarter of the scroll
/// speed: the nearer a layer, the faster.
pub proof fn layer_speeds_are_fractions_of_the_scroll_speed()
    ensures
        4 * FOREST_SPEED == 3 * SCROLL_SPEED,
        2 * CITYSCAPE_SPEED == SCROLL_SPEED,
        4 * CLOUD_SPEED == SCROLL_SPEED,
        FOREST_SPEED > CITYSCAPE_SPEED > CLOUD_SPEED > 0,
{
}

/// On a frame on which no layer wraps, the forest moves farther than the
/// cityscape and the cityscape farther than the clouds.
pub proof fn parallax_ordering(
    forest_pos: i64,
    cityscape_pos: i64,
    cloud_pos: i64,
    forest_width: i64,
    cityscape_width: i64,
    cloud_width: i64,
)
    requires
        forest_width > 0,
        cityscape_width > 0,
        cloud_width > 0,
        -forest_width < forest_pos - FOREST_SPEED < forest_width,
        -cityscape_width < cityscape_pos - CITYSCAPE_SPEED < cityscape_width,
        -cloud_width < cloud_pos - CLOUD_SPEED < cloud_width,
    ensures
        ({
            let next = layer_positions(
                forest_pos,
                cityscape_pos,
                cloud_pos,
                forest_width,
                cityscape_width,
                cloud_width,
                true,
            );
            magnitude(next.0 - forest_pos) > magnitude(next.1 - cityscape_pos) > magnitude(
                next.2 - cloud_pos,
            )
        }),
{
    crate::systems::scrolling::scroll_without_wrap(
        forest_pos as int,
        FOREST_SPEED as int,
        forest_width as int,
    );
    crate::systems::scrolling::scroll_without_wrap(
        cityscape_pos as int,
        CITYSCAPE_SPEED as int,
        cityscape_width as int,
    );
    crate::systems::scrolling::scroll_without_wrap(
        cloud_pos as int,
        CLOUD_SPEED as int,
        cloud_width as int,
    );
}

} // verus!
