//! The bird: gravity, the flap impulse, the wing animation and the
//! rectangle it collides with.
use vstd::prelude::*;
use crate::geometry::{clamp, saturate, saturating_sum, trunc_div, Rect, Vec2, UNITS_PER_PIXEL};
use crate::input::MIN_SCREEN_HEIGHT;
use crate::render::{DrawCommand, Texture};
use crate::systems::physics::{check_collision, PhysicsBody};
use crate::GRAVITY;

verus! {

/// Width of the bird's collision rectangle.
pub const BIRD_WIDTH: i64 = 34 * UNITS_PER_PIXEL;

/// Height of the bird's collision rectangle.
pub const BIRD_HEIGHT: i64 = 24 * UNITS_PER_PIXEL;

/// Vertical speed right after a flap: six and a half pixels upward.
pub const FLAP_IMPULSE: i64 = -1950;

/// Speed gained each frame while gravity acts.
pub const GRAVITY_STEP: i64 = 91;

/// Microseconds each wing frame is shown.
pub const FRAME_DURATION: u64 = 100_000;

/// Number of wing frames.
pub const FRAME_COUNT: u8 = 3;

/// Highest position the bird may reach.
pub const MIN_Y: i64 = 12 * UNITS_PER_PIXEL;

/// Distance kept between the bird's position and the bottom of the screen.
pub const BOTTOM_MARGIN: i64 = 36 * UNITS_PER_PIXEL;

pub struct Bird {
    /// Wing frame on show.
    pub current_frame: u8,
    /// Microseconds the current wing frame has been shown.
    pub frame_timer: u64,
    pub velocity: Vec2,
    pub position: Vec2,
    pub allow_gravity: bool,
    pub alive: bool,
    /// The screen column the bird spawns in and is reset to.
    pub fixed_x_position: i64,
}

/// The gravity step is the thirtieth part of the gravity constant.
pub proof fn gravity_step_is_a_thirtieth()
    ensures
        GRAVITY_STEP * 30 == GRAVITY,
{
}

/// The wing frame that follows `frame`.
pub open spec fn next_frame(frame: u8) -> u8 {
    ((frame + 1) % (FRAME_COUNT as int)) as u8
}

impl Bird {
    /// The bird as it enters a scene on a screen of the given size: at two
    /// fifths of the width and half the height, at rest, alive, gravity off.
    pub open spec fn spawned(screen_width: i64, screen_height: i64) -> Bird {
        let column = trunc_div(2 * screen_width, 5) as i64;
        Bird {
            current_frame: 0,
            frame_timer: 0,
            velocity: Vec2 { x: 0, y: 0 },
            position: Vec2 { x: column, y: trunc_div(screen_height as int, 2) as i64 },
            allow_gravity: false,
            alive: true,
            fixed_x_position: column,
        }
    }

    pub fn new(screen_width: i64, screen_height: i64) -> (bird: Bird)
        ensures
            bird == Bird::spawned(screen_width, screen_height),
    {
        let doubled: i128 = screen_width as i128 * 2;
        let column: i64 = (doubled / 5) as i64;
        Bird {
            current_frame: 0,
            frame_timer: 0,
            velocity: Vec2::zero(),
            position: Vec2::new(column, screen_height / 2),
            allow_gravity: false,
            alive: true,
            fixed_x_position: column,
        }
    }

    /// The bird after a flap: a living bird moves upward at the impulse,
    /// whatever its speed was; a dead bird is left as it is.
    pub open spec fn flapped(self) -> Bird {
        if self.alive {
            Bird { velocity: Vec2 { x: self.velocity.x, y: FLAP_IMPULSE }, ..self }
        } else {
            self
        }
    }

    pub fn flap(&mut self)
        ensures
            *final(self) == old(self).flapped(),
    {
        if self.alive {
            self.velocity.y = FLAP_IMPULSE;
        }
    }

    /// The bird after its death: at rest and no longer alive.
    pub open spec fn killed(self) -> Bird {
        Bird { alive: false, velocity: Vec2 { x: 0, y: 0 }, ..self }
    }

    pub fn kill(&mut self)
        ensures
            *final(self) == old(self).killed(),
    {
        self.alive = false;
        self.velocity = Vec2::zero();
    }

    /// The bird put back for a new game: in its column at half the screen
    /// height, at rest and alive. Gravity stays as the caller left it.
    pub open spec fn revived(self, screen_height: i64) -> Bird {
        Bird {
            position: Vec2 {
                x: self.fixed_x_position,
                y: trunc_div(screen_height as int, 2) as i64,
            },
            velocity: Vec2 { x: 0, y: 0 },
            alive: true,
            ..self
        }
    }

    pub fn reset(&mut self, screen_height: i64)
        ensures
            *final(self) == old(self).revived(screen_height),
    {
        self.position = Vec2::new(self.fixed_x_position, screen_height / 2);
        self.velocity = Vec2::zero();
        self.alive = true;
    }

    /// The wing animation after `frame_time` microseconds: once a frame has
    /// been shown for its duration the timer starts over, and a living bird
    /// shows its next frame.
    pub open spec fn animated(self, frame_time: u32) -> Bird {
        let shown = self.frame_timer + frame_time;
        if shown >= FRAME_DURATION {
            Bird {
                frame_timer: 0,
                current_frame: if self.alive {
                    next_frame(self.current_frame)
                } else {
                    self.current_frame
                },
                ..self
            }
        } else {
            Bird { frame_timer: shown as u64, ..self }
        }
    }

    /// One frame of fall on a screen of the given height: the speed grows by
    /// the gravity step, the bird moves by the new speed, and its position is
    /// held between the top margin and the bottom margin. Holding the
    /// position does not stop the bird: its speed keeps growing.
    pub open spec fn fallen(self, screen_height: i64) -> Bird {
        if self.allow_gravity {
            let speed = saturate(self.velocity.y + GRAVITY_STEP);
            Bird {
                velocity: Vec2 { x: self.velocity.x, y: speed },
                position: Vec2 {
                    x: self.position.x,
                    y: clamp(
                        self.position.y + speed,
                        MIN_Y as int,
                        screen_height - BOTTOM_MARGIN,
                    ) as i64,
                },
                ..self
            }
        } else {
            self
        }
    }

    /// The bird one frame later.
    pub open spec fn updated(self, frame_time: u32, screen_height: i64) -> Bird {
        self.animated(frame_time).fallen(screen_height)
    }

    /// Advances the animation by `frame_time` microseconds and, where
    /// gravity is on, lets the bird fall for one frame.
    pub fn update(&mut self, frame_time: u32, screen_height: i64)
        requires
            old(self).allow_gravity ==> screen_height >= MIN_SCREEN_HEIGHT,
        ensures
            *final(self) == old(self).updated(frame_time, screen_height),
    {
        let shown: u64 = self.frame_timer.saturating_add(frame_time as u64);
        if shown >= FRAME_DURATION {
            self.frame_timer = 0;
            if self.alive {
                let following: u16 = (self.current_frame as u16 + 1) % (FRAME_COUNT as u16);
                self.current_frame = following as u8;
            }
        } else {
            self.frame_timer = shown;
        }
        if self.allow_gravity {
            self.velocity.y = saturating_sum(self.velocity.y, GRAVITY_STEP);
            let target: i128 = self.position.y as i128 + self.velocity.y as i128;
            let max_y: i64 = screen_height - BOTTOM_MARGIN;
            if target < MIN_Y as i128 {
                self.position.y = MIN_Y;
            } else if target > max_y as i128 {
                self.position.y = max_y;
            } else {
                self.position.y = target as i64;
            }
        }
    }

    /// The bird as it is drawn: its wing frame at its position.
    pub open spec fn sprite(self) -> DrawCommand {
        DrawCommand::Sprite {
            texture: Texture::BirdFrame(self.current_frame),
            x: self.position.x,
            y: self.position.y,
            source: None,
        }
    }

    /// Adds the bird to a list of commands.
    pub fn draw(&self, commands: &mut Vec<DrawCommand>)
        ensures
            final(commands)@ == old(commands)@.push(self.sprite()),
    {
        commands.push(
            DrawCommand::Sprite {
                texture: Texture::BirdFrame(self.current_frame),
                x: self.position.x,
                y: self.position.y,
                source: None,
            },
        );
    }

    /// The rectangle the bird collides with: its sprite's box at its position.
    pub open spec fn body(self) -> Rect {
        Rect { x: self.position.x, y: self.position.y, w: BIRD_WIDTH, h: BIRD_HEIGHT }
    }
}

impl PhysicsBody for Bird {
    open spec fn yields_rect(&self, after: &Self, rect: Rect) -> bool {
        *after == *self && rect == self.body()
    }

    open spec fn yields_hit(&self, obj: Rect, after: &Self, hit: bool) -> bool {
        *after == *self && hit == self.body()@.overlaps(obj@)
    }

    fn get_collision_rect(&mut self) -> (rect: Rect) {
        Rect::new(self.position.x, self.position.y, BIRD_WIDTH, BIRD_HEIGHT)
    }

    fn collides_with(&mut self, obj: &Rect) -> (hit: bool) {
        let rect = self.get_collision_rect();
        check_collision(&rect, obj)
    }
}

/// A flap on a dead bird changes nothing; killing a bird that has just
/// flapped leaves it at rest.
pub proof fn flap_needs_a_living_bird(bird: Bird)
    ensures
        bird.killed().flapped() == bird.killed(),
        bird.flapped().killed() == bird.killed(),
        bird.alive ==> bird.flapped().velocity.y == FLAP_IMPULSE,
{
}

/// Neither the animation nor the fall moves the bird sideways.
pub proof fn update_keeps_the_column(bird: Bird, frame_time: u32, screen_height: i64)
    ensures
        bird.updated(frame_time, screen_height).position.x == bird.position.x,
        bird.updated(frame_time, screen_height).fixed_x_position == bird.fixed_x_position,
{
}

/// While gravity acts on a screen that fits, the bird stays between the
/// top margin and the bottom margin.
pub proof fn fall_stays_on_screen(bird: Bird, screen_height: i64)
    requires
        bird.allow_gravity,
        screen_height >= MIN_SCREEN_HEIGHT,
    ensures
        MIN_Y <= bird.fallen(screen_height).position.y <= screen_height - BOTTOM_MARGIN,
{
}

} // verus!
