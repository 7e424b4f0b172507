//! What holds of every game, whatever the input and whatever gaps are
//! drawn.
use vstd::prelude::*;
use crate::input::FrameInput;
use crate::prefabs::background::{CITYSCAPE_SPEED, CLOUD_SPEED, FOREST_SPEED};
use crate::prefabs::pipes::gap_allowed;
use crate::prefabs::pool::{
    all_disabled, first_reusable_is_the_first, freezing_keeps_pairs_in_world,
    spawning_keeps_pairs_in_world, stepping_keeps_pairs_in_world,
};
use crate::scenes::game::{add_points, floor_of, Effect, GameState};
use crate::systems::scrolling::scroll_wraps_by_width;
use crate::SCROLL_SPEED;

verus! {

/// Whether none of the effects asks for a high score to be stored.
pub open spec fn saves_nothing(effects: Seq<Effect>) -> bool {
    forall|i: int| 0 <= i < effects.len() ==> !((#[trigger] effects[i]) is SaveHighscore)
}

/// Whether a press of the pointer button restarts the game on this frame.
pub open spec fn restarts(state: GameState, input: FrameInput) -> bool {
    &&& input.mouse_down
    &&& !state.is_mouse_down
    &&& !state.instructions_visible
    &&& state.game_over
    &&& state.restart_hit(input)
}

/// Restarting a game twice is restarting it once: no pipes, no points,
/// the game not over, the bird alive and at rest in its column at half
/// the height of the screen.
pub proof fn restart_is_idempotent(state: GameState, screen_height: i64)
    ensures
        state.restarted(screen_height).restarted(screen_height) == state.restarted(screen_height),
        state.restarted(screen_height).pipes.len() == 0,
        state.restarted(screen_height).score == 0,
        !state.restarted(screen_height).game_over,
        state.restarted(screen_height).instructions_visible,
        state.restarted(screen_height).bird.alive,
        state.restarted(screen_height).bird.position.x == state.bird.fixed_x_position,
        state.restarted(screen_height).bird == state.bird.revived(screen_height),
        state.restarted(screen_height).highscore == state.highscore,
{
    assert(state.restarted(screen_height).restarted(screen_height) =~= state.restarted(
        screen_height,
    ));
}

/// A restart leaves a well-formed game well formed.
pub proof fn restart_keeps_the_game_well_formed(state: GameState, screen_height: i64)
    requires
        state.wf(),
    ensures
        state.restarted(screen_height).wf(),
{
}

/// Points never lower the score, and none leave it as it is.
pub proof fn score_never_falls(score: i32, points: nat)
    ensures
        add_points(score, points) >= score,
        add_points(score, 0) == score,
        score + points <= i32::MAX ==> add_points(score, points) == score + points,
{
}

/// A frame asks for the high score to be stored at most once, as the
/// last thing it asks: it does so exactly when the game ends on this
/// frame with a score that reaches the high score, and that score is
/// then the high score. On any other frame the high score stays.
pub proof fn highscore_is_saved_when_the_game_ends(
    state: GameState,
    input: FrameInput,
    gap_top: i64,
)
    ensures
        ({
            let ready = state.after_input(input);
            let next = state.step(input, gap_top);
            let ends = !ready.game_over && next.game_over;
            if ends && next.score >= ready.highscore {
                &&& next.effects.len() > 0
                &&& next.effects.last() == Effect::SaveHighscore(next.score)
                &&& saves_nothing(next.effects.drop_last())
                &&& next.highscore == next.score
                &&& next.scoreboard.score == next.score
                &&& next.scoreboard.highscore == next.highscore
            } else {
                &&& saves_nothing(next.effects)
                &&& next.highscore == ready.highscore
            }
        }),
{
    let ready = state.after_input(input);
    assert(saves_nothing(ready.effects));
    if !ready.game_over {
        let scored = ready.pipes_advanced().layers_scrolled();
        assert(saves_nothing(scored.effects));
        let bumped = scored.pipe_hit_resolved();
        assert(saves_nothing(bumped.effects));
        let landed = bumped.ground_hit_resolved(input.screen_width, input.screen_height);
        let next = landed.pipe_spawned(input.screen_width, gap_top);
        assert(next.effects == landed.effects);
        assert(next == state.step(input, gap_top));
        if bumped.hits_ground(input.screen_width, input.screen_height) {
            if bumped.score >= bumped.highscore {
                assert(landed.effects.drop_last() =~= bumped.effects.push(Effect::PlayGroundHit));
                assert(saves_nothing(landed.effects.drop_last()));
            } else {
                assert(saves_nothing(landed.effects));
            }
        } else {
            assert(landed == bumped);
        }
    }
}

/// Acting on the input leaves a well-formed game well formed.
pub proof fn input_keeps_the_game_well_formed(state: GameState, input: FrameInput)
    requires
        state.wf(),
    ensures
        state.after_input(input).wf(),
{
}

/// Scrolling leaves the layers of a well-formed game well formed.
pub proof fn scrolling_keeps_the_layers_well_formed(state: GameState)
    requires
        state.wf(),
    ensures
        state.layers_scrolled().background.wf(),
        state.layers_scrolled().ground.wf(),
{
    let background = state.background;
    scroll_wraps_by_width(
        background.forest_pos as int,
        FOREST_SPEED as int,
        background.forest_texture.width as int,
    );
    scroll_wraps_by_width(
        background.cityscape_pos as int,
        CITYSCAPE_SPEED as int,
        background.cityscape_texture.width as int,
    );
    scroll_wraps_by_width(
        background.cloud_pos as int,
        CLOUD_SPEED as int,
        background.cloud_texture.width as int,
    );
    scroll_wraps_by_width(
        state.ground.scroll_pos as int,
        SCROLL_SPEED as int,
        state.ground.texture.width as int,
    );
}

/// A frame leaves a well-formed game well formed, whatever the input
/// and whichever gap is drawn of those that may be.
pub proof fn step_keeps_the_game_well_formed(state: GameState, input: FrameInput, gap_top: i64)
    requires
        state.wf(),
        input.wf(),
        gap_allowed(floor_of(input.screen_height), gap_top),
    ensures
        state.step(input, gap_top).wf(),
{
    let ready = state.after_input(input);
    input_keeps_the_game_well_formed(state, input);
    if !ready.game_over {
        let advanced = ready.pipes_advanced();
        stepping_keeps_pairs_in_world(ready.pipes, ready.bird.position.x);
        let scrolled = advanced.layers_scrolled();
        scrolling_keeps_the_layers_well_formed(advanced);
        assert(scrolled.wf());
        let bumped = scrolled.pipe_hit_resolved();
        freezing_keeps_pairs_in_world(scrolled.pipes);
        assert(bumped.wf());
        let landed = bumped.ground_hit_resolved(input.screen_width, input.screen_height);
        freezing_keeps_pairs_in_world(bumped.pipes);
        assert(landed.wf());
        assert(landed.game_over ==> !landed.pipe_generator.enabled);
        spawning_keeps_pairs_in_world(
            landed.pipes,
            input.screen_width,
            floor_of(input.screen_height),
            gap_top,
        );
        let next = landed.pipe_spawned(input.screen_width, gap_top);
        assert(next.wf());
    }
}

/// A game that is over stays over until a press of the pointer button
/// restarts it: its pipes stand still, its score and its high score
/// stay, and it asks nothing of the outside world.
pub proof fn finished_game_stays_finished(state: GameState, input: FrameInput, gap_top: i64)
    requires
        state.wf(),
        state.game_over,
        !restarts(state, input),
    ensures
        state.step(input, gap_top).game_over,
        state.step(input, gap_top).pipes == state.pipes,
        all_disabled(state.step(input, gap_top).pipes),
        !state.step(input, gap_top).bird.alive,
        state.step(input, gap_top).score == state.score,
        state.step(input, gap_top).highscore == state.highscore,
        state.step(input, gap_top).effects.len() == 0,
{
}

/// No pipe pair leaves the collection while a game runs: a frame that
/// does not restart the game leaves at least as many pairs as it found,
/// and at most one more.
pub proof fn pairs_stay_in_the_collection(state: GameState, input: FrameInput, gap_top: i64)
    requires
        !restarts(state, input),
    ensures
        state.pipes.len() <= state.step(input, gap_top).pipes.len() <= state.pipes.len() + 1,
{
    let ready = state.after_input(input);
    assert(ready.pipes == state.pipes);
    if !ready.game_over {
        let landed = ready.pipes_advanced().layers_scrolled().pipe_hit_resolved().ground_hit_resolved(
            input.screen_width,
            input.screen_height,
        );
        assert(landed.pipes.len() == state.pipes.len());
        first_reusable_is_the_first(landed.pipes, 0);
    }
}

/// The bird keeps to its column: a frame that does not restart the game
/// leaves it where it was from left to right.
pub proof fn bird_keeps_to_its_column(state: GameState, input: FrameInput, gap_top: i64)
    requires
        !restarts(state, input),
    ensures
        state.step(input, gap_top).bird.position.x == state.bird.position.x,
        state.step(input, gap_top).bird.fixed_x_position == state.bird.fixed_x_position,
{
}

/// A pointer button that is held counts once: while it stays down the
/// frames go on as if it were not pressed, except that it is remembered
/// as down.
pub proof fn a_held_button_counts_once(state: GameState, input: FrameInput)
    requires
        state.is_mouse_down,
        input.mouse_down,
    ensures
        state.clicked(input) == state,
{
}

/// The score of a game that goes on grows by one point for each pipe
/// pair the bird has passed, and a frame never lowers it unless the
/// game is restarted.
pub proof fn score_is_monotonic(state: GameState, input: FrameInput, gap_top: i64)
    requires
        !restarts(state, input),
    ensures
        state.step(input, gap_top).score >= state.score,
{
}

} // verus!
