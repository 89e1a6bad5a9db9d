use vstd::prelude::*;

verus! {

/// Column in which the runner stands.
pub const RUNNER_COLUMN: i32 = 5;

/// Column at which the obstacle appears, and reappears after each pass.
pub const SPAWN_COLUMN: i32 = 40;

/// Velocity added each tick, in half cells per tick (down is positive).
pub const GRAVITY: i32 = 1;

/// Velocity a jump gives the runner, in half cells per tick (up is negative).
pub const LAUNCH_VELOCITY: i32 = -4;

/// Clearance in half cells: a runner at least this high clears the obstacle in
/// its column; a lower one hits it.
pub const CLEARANCE: i32 = 3;

/// What the player asked for during one tick.
#[derive(Clone, Copy, Debug, PartialEq, Eq, Structural)]
pub enum Input {
    Jump,
    Quit,
    Idle,
}

/// How the session stands after a tick.
#[derive(Clone, Copy, Debug, PartialEq, Eq, Structural)]
pub enum Outcome {
    /// The game goes on.
    Running,
    /// The runner hit the obstacle: the game is over.
    Lost,
    /// The player quit; the state was left as it was.
    Quit,
}

/// The state of one game session.
///
/// Heights and velocities are counted in half cells: the runner moves in steps of
/// half a cell, so these values are exact.
#[derive(Clone, Copy, Debug, PartialEq, Eq, Structural)]
pub struct Game {
    pub score: u32,
    /// Height above the ground in half cells: 0 on the ground, negative in the air.
    pub dino_y: i32,
    /// Vertical velocity in half cells per tick: negative rising, positive falling.
    pub dino_velocity: i32,
    /// Column of the obstacle.
    pub cactus_x: i32,
    pub game_over: bool,
}

/// The runner is on the arc of a single jump: launched from the ground with
/// `LAUNCH_VELOCITY` and pulled down by `GRAVITY` each tick since then, up to the
/// tick on which it is back on the ground. With a gravity of one half cell per
/// tick per tick, the height is a sum of consecutive velocities, hence the
/// closed form below.
pub open spec fn on_jump_arc(y: int, v: int) -> bool {
    &&& LAUNCH_VELOCITY <= v < -LAUNCH_VELOCITY
    &&& 2 * y == v * (v + 1) - LAUNCH_VELOCITY * (LAUNCH_VELOCITY + 1)
}

/// A point of the jump arc lies between the ground and three cells up.
proof fn lemma_arc_bounds(y: int, v: int)
    requires
        on_jump_arc(y, v),
    ensures
        -6 <= y <= 0,
{
    assert(v == -4 || v == -3 || v == -2 || v == -1 || v == 0 || v == 1 || v == 2 || v == 3);
}

/// One tick along the arc stays on it, or reaches the ground.
proof fn lemma_arc_step(y: int, v: int)
    requires
        on_jump_arc(y, v),
    ensures
        y + v + GRAVITY > 0 || on_jump_arc(y + v + GRAVITY, v + GRAVITY),
{
    assert(2 * (y + v + 1) == (v + 1) * (v + 2) - 12) by (nonlinear_arith)
        requires
            2 * y == v * (v + 1) - 12,
    ;
    if v == 3 {
        assert(y == 0) by (nonlinear_arith)
            requires
                2 * y == v * (v + 1) - 12,
                v == 3,
        ;
    }
}

/// What a reachable state holds of the runner's height and velocity.
pub proof fn lemma_wf_bounds(g: Game)
    requires
        g.wf(),
    ensures
        -6 <= g.dino_y <= 0,
        LAUNCH_VELOCITY <= g.dino_velocity < -LAUNCH_VELOCITY,
{
    if !(g.dino_y == 0 && g.dino_velocity == 0) {
        lemma_arc_bounds(g.dino_y as int, g.dino_velocity as int);
    }
}

/// A tick keeps a reachable state reachable.
pub proof fn lemma_advanced_wf(g: Game)
    requires
        g.wf(),
    ensures
        g.advanced().wf(),
{
    lemma_wf_bounds(g);
    if !(g.dino_y == 0 && g.dino_velocity == 0) {
        lemma_arc_step(g.dino_y as int, g.dino_velocity as int);
    }
}

impl Game {
    /// The states a session can reach: the runner rests on the ground or follows
    /// a jump arc, and the obstacle lies between column 0 and the spawn column.
    pub open spec fn wf(self) -> bool {
        &&& (self.dino_y == 0 && self.dino_velocity == 0) || on_jump_arc(
            self.dino_y as int,
            self.dino_velocity as int,
        )
        &&& 0 <= self.cactus_x <= SPAWN_COLUMN
    }

    /// The runner is on the ground.
    pub open spec fn grounded(self) -> bool {
        self.dino_y == 0
    }

    /// The state after a jump request: only a grounded runner takes off.
    pub open spec fn jumped(self) -> Game {
        if self.grounded() {
            Game { dino_velocity: LAUNCH_VELOCITY, ..self }
        } else {
            self
        }
    }

    /// The obstacle passes the left edge on the next tick.
    pub open spec fn wraps(self) -> bool {
        self.cactus_x - 1 < 0
    }

    /// The state after one tick of physics, scrolling and collision. A finished
    /// game does not change.
    pub open spec fn advanced(self) -> Game {
        if self.game_over {
            self
        } else {
            let v = self.dino_velocity + GRAVITY;
            let y = self.dino_y + v;
            let landed = y > 0;
            let h: int = if landed { 0 } else { y };
            let x: int = if self.wraps() { SPAWN_COLUMN as int } else { self.cactus_x - 1 };
            Game {
                score: (if self.wraps() { self.score + 1 } else { self.score as int }) as u32,
                dino_y: h as i32,
                dino_velocity: (if landed { 0 } else { v }) as i32,
                cactus_x: x as i32,
                game_over: x == RUNNER_COLUMN && h > -CLEARANCE,
            }
        }
    }

    /// The state after one tick with the given input: a quit request changes
    /// nothing; a jump request is applied before the tick.
    pub open spec fn stepped(self, input: Input) -> Game {
        match input {
            Input::Quit => self,
            Input::Jump => self.jumped().advanced(),
            Input::Idle => self.advanced(),
        }
    }

    /// The next tick does not push the score past what a `u32` holds.
    pub open spec fn score_fits(self) -> bool {
        !self.game_over && self.wraps() ==> self.score < u32::MAX
    }

    /// A fresh session: runner at rest on the ground, obstacle at the spawn column.
    pub fn new() -> (r: Game)
        ensures
            r.score == 0,
            r.dino_y == 0,
            r.dino_velocity == 0,
            r.cactus_x == SPAWN_COLUMN,
            !r.game_over,
    {
        Game { score: 0, dino_y: 0, dino_velocity: 0, cactus_x: SPAWN_COLUMN, game_over: false }
    }

    /// Requests a jump: a grounded runner is launched upward, an airborne one is
    /// left as it is.
    pub fn jump(&mut self)
        ensures
            *final(self) == old(self).jumped(),
            old(self).wf() ==> final(self).wf(),
    {
        if self.dino_y == 0 {
            self.dino_velocity = LAUNCH_VELOCITY;
        }
    }

    /// Advances the session by one tick: gravity, landing, scrolling, scoring and
    /// collision. A finished game is left unchanged.
    pub fn update(&mut self)
        requires
            old(self).wf(),
            old(self).score_fits(),
        ensures
            *final(self) == old(self).advanced(),
            final(self).wf(),
    {
        if self.game_over {
            return;
        }
        proof {
            lemma_wf_bounds(*self);
            lemma_advanced_wf(*self);
        }
        self.dino_velocity = self.dino_velocity + GRAVITY;
        self.dino_y = self.dino_y + self.dino_velocity;
        if self.dino_y > 0 {
            self.dino_y = 0;
            self.dino_velocity = 0;
        }
        self.cactus_x = self.cactus_x - 1;
        if self.cactus_x < 0 {
            self.cactus_x = SPAWN_COLUMN;
            self.score = self.score + 1;
        }
        if self.cactus_x == RUNNER_COLUMN && self.dino_y > -CLEARANCE {
            self.game_over = true;
        }
    }

    /// One tick of the session with at most one input: a quit request ends the
    /// session at once and changes nothing; otherwise a jump request is applied,
    /// then one update, and the outcome tells whether the game is now over.
    pub fn tick(&mut self, input: Input) -> (r: Outcome)
        requires
            old(self).wf(),
            old(self).score_fits(),
        ensures
            final(self).wf(),
            *final(self) == old(self).stepped(input),
            input == Input::Quit ==> r == Outcome::Quit,
            input != Input::Quit ==> (r == Outcome::Lost <==> final(self).game_over),
            input != Input::Quit ==> (r == Outcome::Running <==> !final(self).game_over),
    {
        match input {
            Input::Quit => {
                return Outcome::Quit;
            },
            Input::Jump => {
                self.jump();
            },
            Input::Idle => {},
        }
        self.update();
        if self.game_over {
            Outcome::Lost
        } else {
            Outcome::Running
        }
    }
}

} // verus!
