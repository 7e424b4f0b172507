//! Pipe pairs, which scroll toward the bird and are reused once they have
//! left the screen, and the generator that says when the next pair is due.
use vstd::prelude::*;
use crate::geometry::{spans_overlap, Rect, Region, Vec2, UNITS_PER_PIXEL};
use crate::render::{DrawCommand, Texture};
use crate::systems::physics::{check_collision, PhysicsBody};
use crate::SCROLL_SPEED;

verus! {

/// Width of a pipe.
pub const PIPE_WIDTH: i64 = 54 * UNITS_PER_PIXEL;

/// Height of a pipe.
pub const PIPE_HEIGHT: i64 = 320 * UNITS_PER_PIXEL;

/// Height of the gap between the two pipes of a pair.
pub const GAP_SIZE: i64 = 160 * UNITS_PER_PIXEL;

/// Least distance of the gap from the top of the screen and from the floor.
pub const GAP_MARGIN: i64 = 100 * UNITS_PER_PIXEL;

/// Horizontal distance from a pair's position to the point that scores
/// when the bird's column reaches it, and by which a rectangle is moved
/// before it is tested against the pair.
pub const ANCHOR_X: i64 = 27 * UNITS_PER_PIXEL;

/// Vertical distance by which a rectangle is moved before it is tested
/// against a pair.
pub const ANCHOR_Y: i64 = 12 * UNITS_PER_PIXEL;

/// Number of frames from one pipe pair to the next.
pub const SPAWN_INTERVAL: i32 = 80;

/// One pipe of a pair, placed relative to the pair.
#[derive(Clone, Copy, Debug, PartialEq, Eq, Structural)]
pub struct Pipe {
    pub position: Vec2,
    /// The part of the pipes texture that shows this pipe.
    pub source_rect: Rect,
}

impl Pipe {
    pub fn new(position: Vec2, source_rect: Rect) -> (pipe: Pipe)
        ensures
            pipe == (Pipe { position, source_rect }),
    {
        Pipe { position, source_rect }
    }

    /// The rectangle the pipe collides with, relative to its pair.
    pub open spec fn body(self) -> Rect {
        Rect { x: self.position.x, y: self.position.y, w: PIPE_WIDTH, h: PIPE_HEIGHT }
    }

    /// The pipe as it is drawn for a pair at `group_position`: its part
    /// of the pipes texture, at its place relative to the pair.
    pub open spec fn sprite(self, group_position: Vec2) -> DrawCommand {
        DrawCommand::Sprite {
            texture: Texture::Pipes,
            x: (group_position.x + self.position.x) as i64,
            y: (group_position.y + self.position.y) as i64,
            source: Some(self.source_rect),
        }
    }

    /// Adds the pipe of a pair at `group_position` to a list of commands.
    pub fn draw(&self, group_position: Vec2, commands: &mut Vec<DrawCommand>)
        requires
            i64::MIN <= group_position.x + self.position.x <= i64::MAX,
            i64::MIN <= group_position.y + self.position.y <= i64::MAX,
        ensures
            final(commands)@ == old(commands)@.push(self.sprite(group_position)),
    {
        commands.push(
            DrawCommand::Sprite {
                texture: Texture::Pipes,
                x: group_position.x + self.position.x,
                y: group_position.y + self.position.y,
                source: Some(self.source_rect),
            },
        );
    }

    /// Tests the pipe against a rectangle of the given size whose corner,
    /// relative to the pair, may lie beyond the range of `i64`.
    fn hits(&self, x: i128, y: i128, w: i64, h: i64) -> (hit: bool)
        requires
            -0x2_0000_0000_0000_0000 <= x <= 0x2_0000_0000_0000_0000,
            -0x2_0000_0000_0000_0000 <= y <= 0x2_0000_0000_0000_0000,
        ensures
            hit == self.body()@.overlaps(
                Region { x: x as int, y: y as int, w: w as int, h: h as int },
            ),
    {
        spans_overlap(self.position.x as i128, PIPE_WIDTH as i128, x, w as i128) && spans_overlap(
            self.position.y as i128,
            PIPE_HEIGHT as i128,
            y,
            h as i128,
        )
    }
}

impl PhysicsBody for Pipe {
    open spec fn yields_rect(&self, after: &Self, rect: Rect) -> bool {
        *after == *self && rect == self.body()
    }

    open spec fn yields_hit(&self, obj: Rect, after: &Self, hit: bool) -> bool {
        *after == *self && hit == self.body()@.overlaps(obj@)
    }

    fn get_collision_rect(&mut self) -> (rect: Rect) {
        Rect::new(self.position.x, self.position.y, PIPE_WIDTH, PIPE_HEIGHT)
    }

    fn collides_with(&mut self, obj: &Rect) -> (hit: bool) {
        let rect = self.get_collision_rect();
        check_collision(&rect, obj)
    }
}

/// A top pipe and a bottom pipe that move as one.
#[derive(Clone, Copy, Debug, PartialEq, Eq, Structural)]
pub struct PipeGroup {
    pub top_pipe: Pipe,
    pub bottom_pipe: Pipe,
    pub position: Vec2,
    /// Whether the pair is in the world; a pair that is not may be reused.
    pub alive: bool,
    /// Whether the pair moves. A pair stays in view but stops once the
    /// bird has died.
    pub enabled: bool,
    /// Whether the pair has given its point.
    pub has_scored: bool,
}

/// Whether `gap_top` may be drawn for a pair above a floor at `ground_y`:
/// any height that leaves the margin above the gap and below it, or the
/// margin itself where the floor leaves no such height.
pub open spec fn gap_allowed(ground_y: i64, gap_top: i64) -> bool {
    if ground_y - GAP_SIZE - GAP_MARGIN > GAP_MARGIN {
        GAP_MARGIN <= gap_top < ground_y - GAP_SIZE - GAP_MARGIN
    } else {
        gap_top == GAP_MARGIN
    }
}

/// `rand::Rng::random_range` on the generator of the current thread, which
/// `rand::rng` hands out: some value of the half-open range `low..high`.
/// Which one is not said, and two calls may differ.
#[verifier::external_body]
fn random_in_range(low: i64, high: i64) -> (value: i64)
    requires
        low < high,
    ensures
        low <= value < high,
{
    rand::Rng::random_range(&mut rand::rng(), low..high)
}

impl PipeGroup {
    /// A pair that has not entered the world yet.
    pub open spec fn fresh() -> PipeGroup {
        PipeGroup {
            position: Vec2 { x: 0, y: 0 },
            top_pipe: Pipe {
                position: Vec2 { x: 0, y: 0 },
                source_rect: Rect { x: 0, y: 0, w: PIPE_WIDTH, h: PIPE_HEIGHT },
            },
            bottom_pipe: Pipe {
                position: Vec2 { x: 0, y: 0 },
                source_rect: Rect { x: PIPE_WIDTH, y: 0, w: PIPE_WIDTH, h: PIPE_HEIGHT },
            },
            alive: false,
            enabled: false,
            has_scored: false,
        }
    }

    pub fn new() -> (group: PipeGroup)
        ensures
            group == PipeGroup::fresh(),
    {
        PipeGroup {
            position: Vec2::zero(),
            top_pipe: Pipe::new(Vec2::zero(), Rect::new(0, 0, PIPE_WIDTH, PIPE_HEIGHT)),
            bottom_pipe: Pipe::new(
                Vec2::zero(),
                Rect::new(PIPE_WIDTH, 0, PIPE_WIDTH, PIPE_HEIGHT),
            ),
            alive: false,
            enabled: false,
            has_scored: false,
        }
    }

    /// The pair one frame later: a pair that is alive and enabled moves
    /// left by the scroll speed, and a pair that is wholly left of the
    /// screen leaves the world.
    pub open spec fn moved(self) -> PipeGroup {
        let x = if self.alive && self.enabled {
            self.position.x - SCROLL_SPEED
        } else {
            self.position.x as int
        };
        let gone = x < -PIPE_WIDTH;
        PipeGroup {
            position: Vec2 { x: x as i64, y: self.position.y },
            alive: self.alive && !gone,
            enabled: self.enabled && !gone,
            ..self
        }
    }

    pub fn update(&mut self)
        requires
            old(self).alive && old(self).enabled ==> old(self).position.x - SCROLL_SPEED
                >= i64::MIN,
        ensures
            *final(self) == old(self).moved(),
    {
        if self.alive && self.enabled {
            self.position.x -= SCROLL_SPEED;
        }
        if self.position.x < -PIPE_WIDTH {
            self.alive = false;
            self.enabled = false;
        }
    }

    /// The pair put into the world at `x` with the top of its gap at
    /// `gap_top`: the top pipe ends where the gap begins, the bottom pipe
    /// begins where the gap ends, and the pair is alive, enabled and has
    /// not scored.
    pub open spec fn placed(self, x: i64, gap_top: i64) -> PipeGroup {
        PipeGroup {
            position: Vec2 { x, y: 0 },
            top_pipe: Pipe {
                position: Vec2 { x: self.top_pipe.position.x, y: (gap_top - PIPE_HEIGHT) as i64 },
                source_rect: self.top_pipe.source_rect,
            },
            bottom_pipe: Pipe {
                position: Vec2 { x: self.bottom_pipe.position.x, y: (gap_top + GAP_SIZE) as i64 },
                source_rect: self.bottom_pipe.source_rect,
            },
            alive: true,
            enabled: true,
            has_scored: false,
        }
    }

    /// Puts the pair into the world at `x` with the top of its gap at
    /// `gap_top`.
    pub fn place(&mut self, x: i64, gap_top: i64)
        requires
            i64::MIN <= gap_top - PIPE_HEIGHT,
            gap_top + GAP_SIZE <= i64::MAX,
        ensures
            *final(self) == old(self).placed(x, gap_top),
    {
        self.position.x = x;
        self.position.y = 0;
        self.top_pipe.position.y = gap_top - PIPE_HEIGHT;
        self.bottom_pipe.position.y = gap_top + GAP_SIZE;
        self.alive = true;
        self.enabled = true;
        self.has_scored = false;
    }

    /// Puts the pair into the world at `x`, its gap at a random height
    /// that [`gap_allowed`] admits above a floor at `ground_y`.
    pub fn reset(&mut self, x: i64, ground_y: i64)
        ensures
            exists|gap_top: i64|
                gap_allowed(ground_y, gap_top) && *final(self) == #[trigger] old(self).placed(
                    x,
                    gap_top,
                ),
            final(self).alive,
            final(self).enabled,
            !final(self).has_scored,
            final(self).position == (Vec2 { x, y: 0 }),
            final(self).top_pipe.position.y + PIPE_HEIGHT >= GAP_MARGIN,
            final(self).bottom_pipe.position.y == final(self).top_pipe.position.y + PIPE_HEIGHT
                + GAP_SIZE,
    {
        let min_gap_top: i64 = GAP_MARGIN;
        let max_gap_top: i64 = if ground_y >= i64::MIN + GAP_SIZE + GAP_MARGIN {
            ground_y - GAP_SIZE - GAP_MARGIN
        } else {
            i64::MIN
        };
        let gap_top: i64 = if max_gap_top > min_gap_top {
            random_in_range(min_gap_top, max_gap_top)
        } else {
            min_gap_top
        };
        self.place(x, gap_top);
        assert(gap_allowed(ground_y, gap_top));
    }

    /// The pair as it is drawn: its top pipe, then its bottom pipe. A
    /// pair is drawn whether or not it is in the world.
    pub open spec fn sprites(self) -> Seq<DrawCommand> {
        seq![self.top_pipe.sprite(self.position), self.bottom_pipe.sprite(self.position)]
    }

    /// Adds the pair to a list of commands.
    pub fn draw(&self, commands: &mut Vec<DrawCommand>)
        requires
            i64::MIN <= self.position.x + self.top_pipe.position.x <= i64::MAX,
            i64::MIN <= self.position.y + self.top_pipe.position.y <= i64::MAX,
            i64::MIN <= self.position.x + self.bottom_pipe.position.x <= i64::MAX,
            i64::MIN <= self.position.y + self.bottom_pipe.position.y <= i64::MAX,
        ensures
            final(commands)@ == old(commands)@ + self.sprites(),
    {
        self.top_pipe.draw(self.position, commands);
        self.bottom_pipe.draw(self.position, commands);
        assert(commands@ =~= old(commands)@ + self.sprites());
    }

    /// Whether the bird's column has reached the pair's scoring point and
    /// the pair has not given its point yet.
    pub open spec fn passed_by(self, column: i64) -> bool {
        !self.has_scored && self.position.x + ANCHOR_X <= column
    }

    /// Tests [`PipeGroup::passed_by`].
    pub fn is_passed_by(&self, column: i64) -> (passed: bool)
        ensures
            passed == self.passed_by(column),
    {
        !self.has_scored && self.position.x as i128 + ANCHOR_X as i128 <= column as i128
    }

    /// Whether a rectangle hits one of the two pipes. The rectangle is
    /// first moved into the pair's own coordinates: by the pair's position
    /// and by the anchor.
    pub open spec fn hit_by(self, obj: Rect) -> bool {
        let relative = obj@.shifted(
            -(self.position.x + ANCHOR_X),
            -(self.position.y + ANCHOR_Y),
        );
        self.top_pipe.body()@.overlaps(relative) || self.bottom_pipe.body()@.overlaps(relative)
    }
}

impl PhysicsBody for PipeGroup {
    open spec fn yields_rect(&self, after: &Self, rect: Rect) -> bool {
        *after == *self && rect == (Rect { x: 0, y: 0, w: 0, h: 0 })
    }

    open spec fn yields_hit(&self, obj: Rect, after: &Self, hit: bool) -> bool {
        *after == *self && hit == self.hit_by(obj)
    }

    /// A pair has no rectangle of its own: the empty rectangle at the origin.
    fn get_collision_rect(&mut self) -> (rect: Rect) {
        Rect::new(0, 0, 0, 0)
    }

    fn collides_with(&mut self, obj: &Rect) -> (hit: bool) {
        let x: i128 = obj.x as i128 - self.position.x as i128 - ANCHOR_X as i128;
        let y: i128 = obj.y as i128 - self.position.y as i128 - ANCHOR_Y as i128;
        self.top_pipe.hits(x, y, obj.w, obj.h) || self.bottom_pipe.hits(x, y, obj.w, obj.h)
    }
}

/// Counts frames and says when the next pipe pair is due.
#[derive(Clone, Copy, Debug, PartialEq, Eq, Structural)]
pub struct PipeGenerator {
    pub counter: i32,
    pub enabled: bool,
}

impl PipeGenerator {
    /// The counter is below the spawn interval: it starts over when it
    /// reaches it.
    pub open spec fn wf(self) -> bool {
        0 <= self.counter < SPAWN_INTERVAL
    }

    pub fn new() -> (generator: PipeGenerator)
        ensures
            generator == (PipeGenerator { counter: 0, enabled: false }),
            generator.wf(),
    {
        PipeGenerator { counter: 0, enabled: false }
    }

    /// Lets the generator count. The counter keeps its value.
    pub fn start(&mut self)
        ensures
            *final(self) == (PipeGenerator { enabled: true, ..*old(self) }),
    {
        self.enabled = true;
    }

    /// Stops the generator. The counter keeps its value.
    pub fn stop(&mut self)
        ensures
            *final(self) == (PipeGenerator { enabled: false, ..*old(self) }),
    {
        self.enabled = false;
    }

    /// Whether the next frame is the one on which a pair is due.
    pub open spec fn fires(self) -> bool {
        self.enabled && self.counter + 1 >= SPAWN_INTERVAL
    }

    /// The generator one frame later: an enabled generator counts the
    /// frame, and starts over when a pair is due.
    pub open spec fn ticked(self) -> PipeGenerator {
        if !self.enabled {
            self
        } else if self.fires() {
            PipeGenerator { counter: 0, ..self }
        } else {
            PipeGenerator { counter: (self.counter + 1) as i32, ..self }
        }
    }

    /// The generator `frames` frames later.
    pub open spec fn ticked_times(self, frames: nat) -> PipeGenerator
        decreases frames,
    {
        if frames == 0 {
            self
        } else {
            self.ticked_times((frames - 1) as nat).ticked()
        }
    }

    /// Counts one frame and says whether a pipe pair is due on it.
    pub fn should_spawn_pipe(&mut self) -> (due: bool)
        requires
            old(self).enabled ==> old(self).counter < i32::MAX,
        ensures
            due == old(self).fires(),
            *final(self) == old(self).ticked(),
            old(self).wf() ==> final(self).wf(),
    {
        if self.enabled {
            self.counter += 1;
            if self.counter >= SPAWN_INTERVAL {
                self.counter = 0;
                return true;
            }
        }
        false
    }
}

/// A pair that has just been placed is alive, enabled and has not scored;
/// it stands at `x`, its top pipe ends where the gap begins, above it, and
/// its bottom pipe begins where the gap ends, below it. Placing it again
/// in the same way changes nothing.
pub proof fn placed_pair_frames_its_gap(group: PipeGroup, x: i64, gap_top: i64)
    requires
        i64::MIN <= gap_top - PIPE_HEIGHT,
        gap_top + GAP_SIZE <= i64::MAX,
    ensures
        group.placed(x, gap_top).alive,
        group.placed(x, gap_top).enabled,
        !group.placed(x, gap_top).has_scored,
        group.placed(x, gap_top).position == (Vec2 { x, y: 0 }),
        group.placed(x, gap_top).top_pipe.position.y + PIPE_HEIGHT == gap_top,
        group.placed(x, gap_top).bottom_pipe.position.y - GAP_SIZE == gap_top,
        group.placed(x, gap_top).top_pipe.position.y < gap_top,
        group.placed(x, gap_top).bottom_pipe.position.y > gap_top,
        group.placed(x, gap_top).placed(x, gap_top) == group.placed(x, gap_top),
{
}

/// Every gap that may be drawn leaves the margin above it and, where the
/// floor is low enough to leave room, the margin between it and the floor.
pub proof fn allowed_gap_keeps_its_margins(ground_y: i64, gap_top: i64)
    requires
        gap_allowed(ground_y, gap_top),
    ensures
        gap_top >= GAP_MARGIN,
        gap_top - PIPE_HEIGHT >= i64::MIN,
        gap_top + GAP_SIZE <= i64::MAX,
        ground_y - GAP_SIZE - GAP_MARGIN > GAP_MARGIN ==> gap_top + GAP_SIZE + GAP_MARGIN
            < ground_y,
{
}

/// From a started generator that has counted nothing, no frame before
/// the last of the interval is one on which a pair is due, the last one
/// is, and after it the counter is at zero again.
pub proof fn spawn_cadence(generator: PipeGenerator, frames: nat)
    requires
        generator.enabled,
        generator.counter == 0,
        frames < SPAWN_INTERVAL,
    ensures
        generator.ticked_times(frames) == (PipeGenerator { counter: frames as i32, enabled: true }),
        generator.ticked_times(frames).fires() <==> frames == SPAWN_INTERVAL - 1,
        frames == SPAWN_INTERVAL - 1 ==> generator.ticked_times(frames).ticked() == generator,
    decreases frames,
{
    if frames > 0 {
        spawn_cadence(generator, (frames - 1) as nat);
    }
}

/// A stopped generator never says that a pair is due, however many
/// frames pass, and does not count them.
pub proof fn stopped_generator_is_silent(generator: PipeGenerator, frames: nat)
    requires
        !generator.enabled,
    ensures
        generator.ticked_times(frames) == generator,
        !generator.ticked_times(frames).fires(),
    decreases frames,
{
    if frames > 0 {
        stopped_generator_is_silent(generator, (frames - 1) as nat);
    }
}

} // verus!
