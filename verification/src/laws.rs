//! What holds of the game over any number of frames.

use crate::entity::{FALL_STEP, JUMP_STEP, SCROLL_STEP};
use crate::world::State;
use vstd::prelude::*;

verus! {

/// What one frame is given: the time since the last frame, and whether the
/// jump input is held.
pub struct FrameInput {
    pub delta: nat,
    pub jump: bool,
}

/// The state after one frame for each entry of `inputs`, in order.
pub open spec fn run(state: State, inputs: Seq<FrameInput>) -> State
    decreases inputs.len(),
{
    if inputs.len() == 0 {
        state
    } else {
        run(state, inputs.drop_last()).frame(inputs.last().delta, inputs.last().jump)
    }
}

/// The state after the input system alone has run once for each entry of
/// `presses`, in order.
pub open spec fn steer_run(state: State, presses: Seq<bool>) -> State
    decreases presses.len(),
{
    if presses.len() == 0 {
        state
    } else {
        steer_run(state, presses.drop_last()).steered(presses.last())
    }
}

/// In how many entries of `presses` the jump input is held.
pub open spec fn held(presses: Seq<bool>) -> nat
    decreases presses.len(),
{
    if presses.len() == 0 {
        0
    } else {
        held(presses.drop_last()) + if presses.last() {
            1nat
        } else {
            0nat
        }
    }
}

/// In how many entries of `presses` the jump input is released.
pub open spec fn released(presses: Seq<bool>) -> nat
    decreases presses.len(),
{
    if presses.len() == 0 {
        0
    } else {
        released(presses.drop_last()) + if presses.last() {
            0nat
        } else {
            1nat
        }
    }
}

/// The jump input of each frame of `inputs`.
pub open spec fn presses_of(inputs: Seq<FrameInput>) -> Seq<bool> {
    Seq::new(inputs.len(), |i: int| inputs[i].jump)
}

/// The time that each frame of `inputs` adds.
pub open spec fn deltas_of(inputs: Seq<FrameInput>) -> Seq<nat> {
    Seq::new(inputs.len(), |i: int| inputs[i].delta)
}

/// Every press is either held or released.
pub proof fn held_and_released_make_up_the_frames(presses: Seq<bool>)
    ensures
        held(presses) + released(presses) == presses.len(),
    decreases presses.len(),
{
    if presses.len() > 0 {
        held_and_released_make_up_the_frames(presses.drop_last());
    }
}

/// A frame keeps a world in order: the same entities, of the same kinds and
/// sizes, and a clock that carries less than its interval. The clock takes
/// the time of every frame, whether the game is over or not.
pub proof fn frame_keeps_the_world_in_order(state: State, delta: nat, jump: bool)
    requires
        state.wf(),
    ensures
        state.frame(delta, jump).wf(),
        state.frame(delta, jump).obstacles.len() == state.obstacles.len(),
        state.frame(delta, jump).clock == state.clock.tick(delta),
{
    let after = state.frame(delta, jump);
    assert forall|i: int| 0 <= i < after.obstacles.len() implies (
    #[trigger] after.obstacles[i]).wf() && after.obstacles[i].is_obstacle() by {
        assert(state.obstacles[i].wf());
    }
    vstd::arithmetic::div_mod::lemma_mod_bound(
        (state.clock.elapsed + delta) as int,
        state.clock.interval as int,
    );
}

/// Any number of frames keeps a world in order.
pub proof fn run_keeps_the_world_in_order(state: State, inputs: Seq<FrameInput>)
    requires
        state.wf(),
    ensures
        run(state, inputs).wf(),
        run(state, inputs).obstacles.len() == state.obstacles.len(),
    decreases inputs.len(),
{
    if inputs.len() > 0 {
        let earlier = inputs.drop_last();
        run_keeps_the_world_in_order(state, earlier);
        frame_keeps_the_world_in_order(
            run(state, earlier),
            inputs.last().delta,
            inputs.last().jump,
        );
    }
}

/// In a frame of a running game whose tick makes the clock fire, every
/// obstacle moves exactly one scroll step to the left and not at all up or
/// down. In every other frame every obstacle stays where it is. No frame
/// adds, removes or resizes an obstacle.
pub proof fn obstacles_scroll_when_the_clock_fires(state: State, delta: nat, jump: bool, i: int)
    requires
        0 <= i < state.obstacles.len(),
    ensures
        state.frame(delta, jump).obstacles.len() == state.obstacles.len(),
        !state.game_over && state.clock.tick(delta).fired ==> {
            &&& state.frame(delta, jump).obstacles[i].x == state.obstacles[i].x - SCROLL_STEP
            &&& state.frame(delta, jump).obstacles[i] == state.obstacles[i].moved(
                -(SCROLL_STEP as int),
                0,
            )
        },
        state.game_over || !state.clock.tick(delta).fired ==> state.frame(
            delta,
            jump,
        ).obstacles[i] == state.obstacles[i],
{
}

/// In a frame of a running game the player rises a jump step where the jump
/// input is held and sinks a fall step where it is not. Once the game is
/// over the player stays where it is. The player never moves sideways.
pub proof fn player_follows_the_input(state: State, delta: nat, jump: bool)
    requires
        state.wf(),
    ensures
        !state.game_over && jump ==> state.frame(delta, jump).player.y == state.player.y
            + JUMP_STEP,
        !state.game_over && !jump ==> state.frame(delta, jump).player.y == state.player.y
            - FALL_STEP,
        state.game_over ==> state.frame(delta, jump).player == state.player,
        state.frame(delta, jump).player.x == state.player.x,
        state.frame(delta, jump).player.kind == state.player.kind,
        state.frame(delta, jump).player.width == state.player.width,
        state.frame(delta, jump).player.height == state.player.height,
{
}

/// A frame ends the game exactly when the player's box, after the player
/// and the obstacles have moved, overlaps the box of some obstacle; a game
/// that was over stays over.
pub proof fn frame_ends_the_game_on_overlap(state: State, delta: nat, jump: bool)
    ensures
        state.frame(delta, jump).game_over == (state.game_over || state.ticked(
            delta,
        ).scrolled().steered(jump).hit()),
        state.frame(delta, jump).collided == (state.collided || state.ticked(
            delta,
        ).scrolled().steered(jump).hit()),
{
}

/// Once the game is over it is over after every further frame, whatever
/// the frames are given, and neither the player nor any obstacle moves
/// again. A player that has collided stays collided.
pub proof fn game_over_is_final(state: State, inputs: Seq<FrameInput>)
    ensures
        state.game_over ==> run(state, inputs).game_over,
        state.game_over ==> run(state, inputs).player == state.player,
        state.game_over ==> run(state, inputs).obstacles == state.obstacles,
        state.collided ==> run(state, inputs).collided,
    decreases inputs.len(),
{
    if inputs.len() > 0 {
        game_over_is_final(state, inputs.drop_last());
    }
}

/// A game that is over at some point of a run is over at its end.
pub proof fn game_over_lasts(state: State, inputs: Seq<FrameInput>, k: int)
    requires
        0 <= k <= inputs.len(),
        run(state, inputs.take(k)).game_over,
    ensures
        run(state, inputs).game_over,
    decreases inputs.len() - k,
{
    if k < inputs.len() {
        let longer = inputs.take(k + 1);
        assert(longer.drop_last() =~= inputs.take(k));
        game_over_lasts(state, inputs, k + 1);
    } else {
        assert(inputs.take(k) =~= inputs);
    }
}

/// While the game runs, the input system run once per entry of `presses`
/// leaves the player 25 units higher for each entry with the jump input
/// held and 1 unit lower for each other entry, in whatever order they come.
pub proof fn steering_adds_up(state: State, presses: Seq<bool>)
    requires
        state.wf(),
        !state.game_over,
    ensures
        steer_run(state, presses).player.y == state.player.y + JUMP_STEP * held(presses) - FALL_STEP
            * released(presses),
        steer_run(state, presses).player == state.player.moved(
            0,
            JUMP_STEP * held(presses) - FALL_STEP * released(presses),
        ),
        !steer_run(state, presses).game_over,
        steer_run(state, presses).wf(),
    decreases presses.len(),
{
    if presses.len() > 0 {
        steering_adds_up(state, presses.drop_last());
    }
}

/// Two runs of the input system that hold the jump input equally often
/// over equally many frames leave the player at the same place.
pub proof fn steering_order_does_not_matter(state: State, first: Seq<bool>, second: Seq<bool>)
    requires
        state.wf(),
        !state.game_over,
        first.len() == second.len(),
        held(first) == held(second),
    ensures
        steer_run(state, first).player == steer_run(state, second).player,
{
    steering_adds_up(state, first);
    steering_adds_up(state, second);
    held_and_released_make_up_the_frames(first);
    held_and_released_make_up_the_frames(second);
}

/// Once the game is over the input system moves the player no more.
pub proof fn steering_is_frozen_after_the_end(state: State, presses: Seq<bool>)
    requires
        state.game_over,
    ensures
        steer_run(state, presses) == state,
    decreases presses.len(),
{
    if presses.len() > 0 {
        steering_is_frozen_after_the_end(state, presses.drop_last());
    }
}

/// In a game that is still running after a run of whole frames, the player
/// stands 25 units higher for each frame with the jump input held and 1
/// unit lower for each other frame.
pub proof fn surviving_player_height(state: State, inputs: Seq<FrameInput>)
    requires
        state.wf(),
        !run(state, inputs).game_over,
    ensures
        run(state, inputs).player.y == state.player.y + JUMP_STEP * held(presses_of(inputs))
            - FALL_STEP * released(presses_of(inputs)),
        run(state, inputs).player.x == state.player.x,
        !state.game_over,
    decreases inputs.len(),
{
    if inputs.len() > 0 {
        let earlier = inputs.drop_last();
        assert(presses_of(inputs).drop_last() =~= presses_of(earlier));
        surviving_player_height(state, earlier);
        run_keeps_the_world_in_order(state, earlier);
    } else {
        assert(presses_of(inputs) =~= Seq::<bool>::empty());
    }
}

/// The clock of a game after a run of frames is its clock run over the
/// times of those frames: what holds of a clock alone holds of the clock in
/// a game.
pub proof fn clock_runs_with_the_frames(state: State, inputs: Seq<FrameInput>)
    ensures
        run(state, inputs).clock == state.clock.run(deltas_of(inputs)),
    decreases inputs.len(),
{
    if inputs.len() > 0 {
        let earlier = inputs.drop_last();
        assert(deltas_of(inputs).drop_last() =~= deltas_of(earlier));
        clock_runs_with_the_frames(state, earlier);
    }
}

/// In a game that is still running after a run of frames, every obstacle
/// stands one scroll step further left for each frame in which the clock
/// fired, and as high as before.
pub proof fn surviving_obstacle_position(state: State, inputs: Seq<FrameInput>, i: int)
    requires
        0 <= i < state.obstacles.len(),
        !run(state, inputs).game_over,
    ensures
        run(state, inputs).obstacles.len() == state.obstacles.len(),
        run(state, inputs).obstacles[i] == state.obstacles[i].moved(
            -(SCROLL_STEP * state.clock.fire_count(deltas_of(inputs))),
            0,
        ),
        !state.game_over,
    decreases inputs.len(),
{
    if inputs.len() > 0 {
        let earlier = inputs.drop_last();
        assert(deltas_of(inputs).drop_last() =~= deltas_of(earlier));
        surviving_obstacle_position(state, earlier, i);
        clock_runs_with_the_frames(state, earlier);
        clock_runs_with_the_frames(state, inputs);
    }
}

} // verus!
