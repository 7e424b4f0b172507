//! The pipe pairs of a game, kept in one collection that never shrinks
//! while the game runs: a pair that has left the screen stays in it until
//! it is put back into the world.
use vstd::prelude::*;
use crate::geometry::{Rect, MAX_EXTENT};
use crate::prefabs::pipes::{gap_allowed, PipeGroup, GAP_MARGIN, PIPE_HEIGHT, PIPE_WIDTH};
use crate::render::DrawCommand;
use crate::systems::physics::PhysicsBody;
use crate::SCROLL_SPEED;

verus! {

/// Where the pairs of a game can be: at most one frame's travel beyond
/// the point at which a pair leaves the world, never there while still
/// moving, and no farther right than a screen is wide. The two pipes
/// stand in the pair's own column, between the top of the tallest gap
/// and the floor of the deepest screen.
pub open spec fn in_world(pipe: PipeGroup) -> bool {
    &&& -(PIPE_WIDTH + SCROLL_SPEED) <= pipe.position.x <= MAX_EXTENT
    &&& pipe.alive && pipe.enabled ==> pipe.position.x >= -PIPE_WIDTH
    &&& pipe.position.y == 0
    &&& pipe.top_pipe.position.x == 0
    &&& pipe.bottom_pipe.position.x == 0
    &&& -PIPE_HEIGHT <= pipe.top_pipe.position.y <= MAX_EXTENT
    &&& 0 <= pipe.bottom_pipe.position.y <= MAX_EXTENT
}

/// Whether every pair of the collection is [`in_world`].
pub open spec fn all_in_world(pipes: Seq<PipeGroup>) -> bool {
    forall|i: int| 0 <= i < pipes.len() ==> in_world(#[trigger] pipes[i])
}

/// Whether no pair of the collection moves.
pub open spec fn all_disabled(pipes: Seq<PipeGroup>) -> bool {
    forall|i: int| 0 <= i < pipes.len() ==> !(#[trigger] pipes[i]).enabled
}

/// A pair after one frame beside a bird in the given column: it gives
/// its point if the bird has passed it, then moves.
pub open spec fn stepped(pipe: PipeGroup, column: i64) -> PipeGroup {
    if pipe.passed_by(column) {
        PipeGroup { has_scored: true, ..pipe }.moved()
    } else {
        pipe.moved()
    }
}

/// A pair gives its point once: after a frame it has scored if it had
/// before or the bird has passed it, and a pair that has scored is never
/// passed again, wherever the bird is.
pub proof fn a_pair_scores_once(pipe: PipeGroup, column: i64, later: i64)
    ensures
        stepped(pipe, column).has_scored == (pipe.has_scored || pipe.passed_by(column)),
        pipe.has_scored ==> !pipe.passed_by(later),
        pipe.passed_by(column) ==> !stepped(pipe, column).passed_by(later),
{
}

/// Every pair after one frame beside a bird in the given column.
pub open spec fn all_stepped(pipes: Seq<PipeGroup>, column: i64) -> Seq<PipeGroup> {
    Seq::new(pipes.len(), |i: int| stepped(pipes[i], column))
}

/// Number of pairs that give their point to a bird in the given column.
pub open spec fn passed_count(pipes: Seq<PipeGroup>, column: i64) -> nat
    decreases pipes.len(),
{
    if pipes.len() == 0 {
        0
    } else {
        passed_count(pipes.drop_last(), column) + if pipes.last().passed_by(column) {
            1nat
        } else {
            0nat
        }
    }
}

/// Lets every pair give its point if the bird in the given column has
/// passed it, moves every pair by one frame, and returns the number of
/// points given.
pub fn advance_all(pipes: &mut Vec<PipeGroup>, column: i64) -> (points: usize)
    requires
        all_in_world(old(pipes)@),
    ensures
        final(pipes)@ == all_stepped(old(pipes)@, column),
        points == passed_count(old(pipes)@, column),
        all_in_world(final(pipes)@),
{
    let mut points: usize = 0;
    let mut i: usize = 0;
    while i < pipes.len()
        invariant
            i <= pipes.len(),
            pipes.len() == old(pipes).len(),
            points <= i,
            points == passed_count(old(pipes)@.take(i as int), column),
            forall|j: int| 0 <= j < i ==> #[trigger] pipes@[j] == stepped(old(pipes)@[j], column),
            forall|j: int| i <= j < pipes.len() ==> #[trigger] pipes@[j] == old(pipes)@[j],
            all_in_world(old(pipes)@),
            forall|j: int| 0 <= j < i ==> in_world(#[trigger] pipes@[j]),
        decreases pipes.len() - i,
    {
        let mut pipe = pipes[i];
        assert(in_world(old(pipes)@[i as int]));
        proof {
            let before = old(pipes)@.take(i as int);
            let now = old(pipes)@.take(i as int + 1);
            assert(now.drop_last() =~= before);
            assert(now.last() == old(pipes)@[i as int]);
        }
        if pipe.is_passed_by(column) {
            pipe.has_scored = true;
            points += 1;
        }
        pipe.update();
        pipes[i] = pipe;
        i += 1;
    }
    proof {
        assert(old(pipes)@.take(i as int) =~= old(pipes)@);
        assert(pipes@ =~= all_stepped(old(pipes)@, column));
    }
    points
}

/// Whether a rectangle hits some pair of the collection.
pub open spec fn any_hit_by(pipes: Seq<PipeGroup>, obj: Rect) -> bool {
    exists|i: int| 0 <= i < pipes.len() && (#[trigger] pipes[i]).hit_by(obj)
}

/// Tests every pair against a rectangle.
pub fn any_hit(pipes: &Vec<PipeGroup>, obj: &Rect) -> (hit: bool)
    ensures
        hit == any_hit_by(pipes@, *obj),
{
    let mut hit = false;
    let mut i: usize = 0;
    while i < pipes.len()
        invariant
            i <= pipes.len(),
            hit == any_hit_by(pipes@.take(i as int), *obj),
        decreases pipes.len() - i,
    {
        let mut pipe = pipes[i];
        let now = pipe.collides_with(obj);
        proof {
            let before = pipes@.take(i as int);
            let after = pipes@.take(i as int + 1);
            assert(after[i as int] == pipes@[i as int]);
            if any_hit_by(before, *obj) {
                let k = choose|k: int| 0 <= k < before.len() && (#[trigger] before[k]).hit_by(*obj);
                assert(after[k].hit_by(*obj));
            }
            if any_hit_by(after, *obj) && !now {
                let k = choose|k: int| 0 <= k < after.len() && (#[trigger] after[k]).hit_by(*obj);
                assert(before[k].hit_by(*obj));
            }
        }
        if now {
            hit = true;
        }
        i += 1;
    }
    proof {
        assert(pipes@.take(i as int) =~= pipes@);
    }
    hit
}

/// Every pair, stopped where it stands.
pub open spec fn all_frozen(pipes: Seq<PipeGroup>) -> Seq<PipeGroup> {
    Seq::new(pipes.len(), |i: int| PipeGroup { enabled: false, ..pipes[i] })
}

/// Stops every pair where it stands.
pub fn disable_all(pipes: &mut Vec<PipeGroup>)
    ensures
        final(pipes)@ == all_frozen(old(pipes)@),
        all_disabled(final(pipes)@),
        all_in_world(old(pipes)@) ==> all_in_world(final(pipes)@),
{
    let mut i: usize = 0;
    while i < pipes.len()
        invariant
            i <= pipes.len(),
            pipes.len() == old(pipes).len(),
            forall|j: int|
                0 <= j < i ==> #[trigger] pipes@[j] == (PipeGroup {
                    enabled: false,
                    ..old(pipes)@[j]
                }),
            forall|j: int| i <= j < pipes.len() ==> #[trigger] pipes@[j] == old(pipes)@[j],
        decreases pipes.len() - i,
    {
        let mut pipe = pipes[i];
        pipe.enabled = false;
        pipes[i] = pipe;
        i += 1;
    }
    proof {
        assert(pipes@ =~= all_frozen(old(pipes)@));
        if all_in_world(old(pipes)@) {
            assert forall|j: int| 0 <= j < pipes@.len() implies in_world(#[trigger] pipes@[j]) by {
                assert(in_world(old(pipes)@[j]));
            }
        }
    }
}

/// Index of the first pair from `from` on that is not in the world, or
/// the length of the collection where there is none.
pub open spec fn first_reusable(pipes: Seq<PipeGroup>, from: int) -> int
    decreases pipes.len() - from,
{
    if from < 0 || from >= pipes.len() {
        pipes.len() as int
    } else if !pipes[from].alive {
        from
    } else {
        first_reusable(pipes, from + 1)
    }
}

/// The collection after a pair has entered the world at `x` with the top
/// of its gap at `gap_top`: the first pair that was not in the world is
/// reused, and only where every pair is in the world does the collection
/// grow by a new one.
pub open spec fn with_spawned(pipes: Seq<PipeGroup>, x: i64, gap_top: i64) -> Seq<PipeGroup> {
    let slot = first_reusable(pipes, 0);
    if slot < pipes.len() {
        pipes.update(slot, pipes[slot].placed(x, gap_top))
    } else {
        pipes.push(PipeGroup::fresh().placed(x, gap_top))
    }
}

/// Puts a pair into the world at `x`, with a random gap that
/// [`gap_allowed`] admits above a floor at `ground_y`: reuses the first
/// pair that is not in the world, or adds a new pair where there is none.
pub fn spawn(pipes: &mut Vec<PipeGroup>, x: i64, ground_y: i64)
    requires
        all_in_world(old(pipes)@),
        0 <= x <= MAX_EXTENT,
        ground_y <= MAX_EXTENT,
    ensures
        exists|gap_top: i64|
            gap_allowed(ground_y, gap_top) && final(pipes)@ == #[trigger] with_spawned(
                old(pipes)@,
                x,
                gap_top,
            ),
        all_in_world(final(pipes)@),
{
    let mut i: usize = 0;
    while i < pipes.len() && pipes[i].alive
        invariant
            i <= pipes.len(),
            pipes@ == old(pipes)@,
            first_reusable(pipes@, 0) == first_reusable(pipes@, i as int),
        decreases pipes.len() - i,
    {
        i += 1;
    }
    let ghost before = pipes@;
    if i < pipes.len() {
        let mut pipe = pipes[i];
        let ghost reused = pipe;
        pipe.reset(x, ground_y);
        pipes[i] = pipe;
        proof {
            let gap_top = choose|gap_top: i64|
                gap_allowed(ground_y, gap_top) && pipe == #[trigger] reused.placed(x, gap_top);
            assert(first_reusable(before, 0) == i);
            assert(pipes@ =~= with_spawned(before, x, gap_top));
            assert(in_world(before[i as int]));
            assert forall|j: int| 0 <= j < pipes@.len() implies in_world(#[trigger] pipes@[j]) by {
                assert(in_world(before[j]));
            }
        }
    } else {
        let mut pipe = PipeGroup::new();
        pipe.reset(x, ground_y);
        pipes.push(pipe);
        proof {
            let gap_top = choose|gap_top: i64|
                gap_allowed(ground_y, gap_top) && pipe == #[trigger] PipeGroup::fresh().placed(
                    x,
                    gap_top,
                );
            assert(first_reusable(before, 0) == before.len());
            assert(pipes@ =~= with_spawned(before, x, gap_top));
            assert forall|j: int| 0 <= j < pipes@.len() implies in_world(#[trigger] pipes@[j]) by {
                if j < before.len() {
                    assert(in_world(before[j]));
                }
            }
        }
    }
}

/// Every pair of the collection as it is drawn, in the order of the
/// collection.
pub open spec fn all_sprites(pipes: Seq<PipeGroup>) -> Seq<DrawCommand>
    decreases pipes.len(),
{
    if pipes.len() == 0 {
        Seq::empty()
    } else {
        all_sprites(pipes.drop_last()) + pipes.last().sprites()
    }
}

/// Adds every pair of the collection to a list of commands.
pub fn draw_all(pipes: &Vec<PipeGroup>, commands: &mut Vec<DrawCommand>)
    requires
        all_in_world(pipes@),
    ensures
        final(commands)@ == old(commands)@ + all_sprites(pipes@),
{
    let mut i: usize = 0;
    assert(commands@ =~= old(commands)@ + all_sprites(pipes@.take(0)));
    while i < pipes.len()
        invariant
            i <= pipes.len(),
            all_in_world(pipes@),
            commands@ == old(commands)@ + all_sprites(pipes@.take(i as int)),
        decreases pipes.len() - i,
    {
        assert(in_world(pipes@[i as int]));
        pipes[i].draw(commands);
        proof {
            let drawn = pipes@.take(i as int + 1);
            assert(drawn.drop_last() =~= pipes@.take(i as int));
            assert(drawn.last() == pipes@[i as int]);
            assert(commands@ =~= old(commands)@ + all_sprites(drawn));
        }
        i += 1;
    }
    assert(pipes@.take(i as int) =~= pipes@);
}

/// A frame leaves every pair in the world where it was in the world
/// before.
pub proof fn stepping_keeps_pairs_in_world(pipes: Seq<PipeGroup>, column: i64)
    requires
        all_in_world(pipes),
    ensures
        all_in_world(all_stepped(pipes, column)),
        all_disabled(pipes) ==> all_disabled(all_stepped(pipes, column)),
{
    assert forall|i: int| 0 <= i < pipes.len() implies in_world(
        #[trigger] all_stepped(pipes, column)[i],
    ) by {
        assert(in_world(pipes[i]));
    }
    if all_disabled(pipes) {
        assert forall|i: int| 0 <= i < pipes.len() implies !(#[trigger] all_stepped(
            pipes,
            column,
        )[i]).enabled by {
            assert(!pipes[i].enabled);
        }
    }
}

/// Stopping the pairs leaves them in the world, and none of them moves.
pub proof fn freezing_keeps_pairs_in_world(pipes: Seq<PipeGroup>)
    requires
        all_in_world(pipes),
    ensures
        all_in_world(all_frozen(pipes)),
        all_disabled(all_frozen(pipes)),
{
    assert forall|i: int| 0 <= i < pipes.len() implies in_world(#[trigger] all_frozen(pipes)[i]) by {
        assert(in_world(pipes[i]));
    }
}

/// The first pair that can be reused is not in the world, and every
/// pair before it is.
pub proof fn first_reusable_is_the_first(pipes: Seq<PipeGroup>, from: int)
    requires
        0 <= from <= pipes.len(),
    ensures
        from <= first_reusable(pipes, from) <= pipes.len(),
        first_reusable(pipes, from) < pipes.len() ==> !pipes[first_reusable(pipes, from)].alive,
        forall|i: int| from <= i < first_reusable(pipes, from) ==> (#[trigger] pipes[i]).alive,
    decreases pipes.len() - from,
{
    if from < pipes.len() && pipes[from].alive {
        first_reusable_is_the_first(pipes, from + 1);
    }
}

/// A pair that enters on a screen no wider than the largest extent,
/// through a gap that may be drawn above a floor on that screen, is in
/// the world, and so is every pair that was there before.
pub proof fn spawning_keeps_pairs_in_world(
    pipes: Seq<PipeGroup>,
    x: i64,
    ground_y: i64,
    gap_top: i64,
)
    requires
        all_in_world(pipes),
        0 <= x <= MAX_EXTENT,
        ground_y <= MAX_EXTENT,
        gap_allowed(ground_y, gap_top),
    ensures
        all_in_world(with_spawned(pipes, x, gap_top)),
        pipes.len() <= with_spawned(pipes, x, gap_top).len() <= pipes.len() + 1,
{
    first_reusable_is_the_first(pipes, 0);
    let slot = first_reusable(pipes, 0);
    let after = with_spawned(pipes, x, gap_top);
    assert forall|i: int| 0 <= i < after.len() implies in_world(#[trigger] after[i]) by {
        if i < pipes.len() {
            assert(in_world(pipes[i]));
        }
    }
}

/// The margin is a gap that may always be drawn, whatever the floor.
pub proof fn margin_gap_is_always_allowed(ground_y: i64)
    ensures
        gap_allowed(ground_y, GAP_MARGIN),
{
}

} // verus!
