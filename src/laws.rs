use vstd::prelude::*;

use crate::game::{
    lemma_advanced_wf, lemma_wf_bounds, Game, Input, CLEARANCE, LAUNCH_VELOCITY, RUNNER_COLUMN,
    SPAWN_COLUMN,
};

verus! {

/// The state after one tick for each input, in order.
pub open spec fn run(g: Game, inputs: Seq<Input>) -> Game
    decreases inputs.len(),
{
    if inputs.len() == 0 {
        g
    } else {
        run(g, inputs.drop_last()).stepped(inputs.last())
    }
}

/// How many of the ticks sent the obstacle back to the spawn column: those are
/// the ticks on which its column grows.
pub open spec fn obstacle_wraps(g: Game, inputs: Seq<Input>) -> nat
    decreases inputs.len(),
{
    if inputs.len() == 0 {
        0
    } else {
        let before = run(g, inputs.drop_last());
        obstacle_wraps(g, inputs.drop_last()) + if run(g, inputs).cactus_x > before.cactus_x {
            1nat
        } else {
            0nat
        }
    }
}

/// A jump request on the ground gives the runner the launch velocity, and the
/// tick that follows leaves it in the air.
pub proof fn lemma_grounded_jump_takes_off(g: Game)
    requires
        g.wf(),
        g.grounded(),
        !g.game_over,
    ensures
        g.jumped().dino_velocity == LAUNCH_VELOCITY,
        g.jumped().advanced().dino_y < 0,
{
}

/// A jump request in the air changes nothing: there is no double jump.
pub proof fn lemma_no_double_jump(g: Game)
    requires
        !g.grounded(),
    ensures
        g.jumped() == g,
{
}

/// No tick from a reachable state, whatever its input, puts the runner below
/// the ground.
pub proof fn lemma_never_below_ground(g: Game, input: Input)
    requires
        g.wf(),
    ensures
        g.stepped(input).dino_y <= 0,
{
    lemma_advanced_wf(g);
    lemma_advanced_wf(g.jumped());
    lemma_wf_bounds(g.stepped(input));
}

/// On each tick of a running game the obstacle moves one column left and the
/// score stays, or it passes column 0, reappears at the spawn column and the
/// score grows by one.
pub proof fn lemma_obstacle_step(g: Game)
    requires
        g.wf(),
        !g.game_over,
        g.score_fits(),
    ensures
        g.cactus_x > 0 ==> g.advanced().cactus_x == g.cactus_x - 1 && g.advanced().score
            == g.score,
        g.cactus_x == 0 ==> g.advanced().cactus_x == SPAWN_COLUMN && g.advanced().score
            == g.score + 1,
{
}

/// Over any run of ticks, whatever the inputs, the score grows by the number of
/// times the obstacle was sent back to the spawn column.
pub proof fn lemma_score_counts_wraps(g: Game, inputs: Seq<Input>)
    requires
        g.wf(),
        g.score + inputs.len() <= u32::MAX,
    ensures
        run(g, inputs).wf(),
        obstacle_wraps(g, inputs) <= inputs.len(),
        run(g, inputs).score == g.score + obstacle_wraps(g, inputs),
    decreases inputs.len(),
{
    if inputs.len() > 0 {
        let prefix = inputs.drop_last();
        lemma_score_counts_wraps(g, prefix);
        let before = run(g, prefix);
        lemma_advanced_wf(before);
        lemma_advanced_wf(before.jumped());
    }
}

/// When the obstacle reaches the runner's column the game ends exactly when the
/// runner is lower than the clearance height; in any other column it goes on.
pub proof fn lemma_collision(g: Game)
    requires
        g.wf(),
        !g.game_over,
    ensures
        g.advanced().cactus_x == RUNNER_COLUMN ==> (g.advanced().game_over <==> g.advanced().dino_y
            > -CLEARANCE),
        g.advanced().cactus_x != RUNNER_COLUMN ==> !g.advanced().game_over,
{
    lemma_wf_bounds(g);
}

/// Once the game is over, no run of ticks changes the score, the runner's
/// height or the obstacle's column, and the game stays over.
pub proof fn lemma_over_is_final(g: Game, inputs: Seq<Input>)
    requires
        g.game_over,
    ensures
        run(g, inputs).game_over,
        run(g, inputs).score == g.score,
        run(g, inputs).dino_y == g.dino_y,
        run(g, inputs).cactus_x == g.cactus_x,
    decreases inputs.len(),
{
    if inputs.len() > 0 {
        lemma_over_is_final(g, inputs.drop_last());
    }
}

} // verus!
