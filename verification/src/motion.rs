//! The motion of one sprite as a mathematical model.
//!
//! Time is discrete. One tick applies the constant acceleration to the
//! vertical velocity once, then moves the sprite by its velocity, then tests
//! whether it is still inside the canvas. A sprite that has left the canvas is
//! dead and stays as it is.

use vstd::prelude::*;
use crate::canvas::{in_canvas, CANVAS_WIDTH, FERRIS_WIDTH};

verus! {

/// Horizontal velocity of a new sprite, in pixels per tick.
pub const INITIAL_VELOCITY_X: i32 = 10;

/// Vertical velocity of a new sprite, in pixels per tick (upward).
pub const INITIAL_VELOCITY_Y: i32 = 15;

/// Change of the vertical velocity in one tick, in pixels per tick.
pub const ACCELERATION_Y: i32 = -1;

/// Position, velocity and liveness of a sprite, in logical space.
pub struct State {
    pub x: int,
    pub y: int,
    pub vx: int,
    pub vy: int,
    pub alive: bool,
}

/// The state of a sprite at the moment it is thrown from `(px, py)`.
pub open spec fn spawn(px: int, py: int) -> State {
    State { x: px, y: py, vx: INITIAL_VELOCITY_X as int, vy: INITIAL_VELOCITY_Y as int, alive: true }
}

/// The state one tick after `s`.
pub open spec fn step(s: State) -> State {
    if s.alive {
        let vy = s.vy + ACCELERATION_Y;
        let x = s.x + s.vx;
        let y = s.y + vy;
        State { x, y, vx: s.vx, vy, alive: in_canvas(x, y) }
    } else {
        s
    }
}

/// The state `n` ticks after `s`.
pub open spec fn run(s: State, n: nat) -> State
    decreases n,
{
    if n == 0 {
        s
    } else {
        step(run(s, (n - 1) as nat))
    }
}

/// The `n`-th triangular number, `0 + 1 + ... + n`.
pub open spec fn triangle(n: nat) -> nat {
    n * (n + 1) / 2
}

/// Each triangular number is the one before it plus its index.
pub proof fn lemma_triangle_step(n: nat)
    ensures
        triangle(n + 1) == triangle(n) + n + 1,
{
    assert((n + 1) * (n + 2) == n * (n + 1) + 2 * (n + 1)) by (nonlinear_arith);
}

/// Death is final: a dead sprite is the same after any number of ticks.
pub proof fn lemma_dead_stays(s: State, n: nat)
    requires
        !s.alive,
    ensures
        run(s, n) == s,
    decreases n,
{
    if n > 0 {
        lemma_dead_stays(s, (n - 1) as nat);
    }
}

/// Running `m` ticks and then `n` more is running `m + n` ticks.
pub proof fn lemma_run_split(s: State, m: nat, n: nat)
    ensures
        run(run(s, m), n) == run(s, m + n),
    decreases n,
{
    if n > 0 {
        lemma_run_split(s, m, (n - 1) as nat);
    }
}

/// There is no way back: a sprite that is alive after `n` ticks was alive
/// after every smaller number of ticks.
pub proof fn lemma_alive_before(s: State, m: nat, n: nat)
    requires
        m <= n,
        run(s, n).alive,
    ensures
        run(s, m).alive,
{
    if !run(s, m).alive {
        lemma_dead_stays(run(s, m), (n - m) as nat);
        lemma_run_split(s, m, (n - m) as nat);
    }
}

/// Whether each of the first `n` ticks has moved a sprite thrown from
/// `(px, py)`: it was still alive when the last of them began.
pub open spec fn moved_through(px: int, py: int, n: nat) -> bool {
    n > 0 ==> run(spawn(px, py), (n - 1) as nat).alive
}

/// The velocity after `n` ticks: the horizontal part never changes, the
/// vertical part has received the acceleration exactly `n` times.
pub proof fn lemma_velocity_after(px: int, py: int, n: nat)
    requires
        moved_through(px, py, n),
    ensures
        run(spawn(px, py), n).vx == INITIAL_VELOCITY_X,
        run(spawn(px, py), n).vy == INITIAL_VELOCITY_Y + n * ACCELERATION_Y,
    decreases n,
{
    if n > 0 {
        let m = (n - 1) as nat;
        if m > 0 {
            lemma_alive_before(spawn(px, py), (m - 1) as nat, m);
        }
        lemma_velocity_after(px, py, m);
    }
}

/// The position after `n` ticks, in closed form: the sum of the velocities
/// of the ticks so far, added to the point of the throw.
pub proof fn lemma_position_after(px: int, py: int, n: nat)
    requires
        moved_through(px, py, n),
    ensures
        run(spawn(px, py), n).x == px + n * INITIAL_VELOCITY_X,
        run(spawn(px, py), n).y == py + n * INITIAL_VELOCITY_Y + ACCELERATION_Y * triangle(n),
    decreases n,
{
    if n > 0 {
        let m = (n - 1) as nat;
        if m > 0 {
            lemma_alive_before(spawn(px, py), (m - 1) as nat, m);
        }
        lemma_position_after(px, py, m);
        lemma_velocity_after(px, py, m);
        lemma_triangle_step(m);
    }
}

/// A live sprite is inside the canvas, however many ticks have passed since
/// it was thrown from inside.
pub proof fn lemma_alive_is_inside(px: int, py: int, n: nat)
    requires
        in_canvas(px, py),
        run(spawn(px, py), n).alive,
    ensures
        in_canvas(run(spawn(px, py), n).x, run(spawn(px, py), n).y),
{
    if n > 0 {
        lemma_alive_before(spawn(px, py), (n - 1) as nat, n);
    }
}

/// No sprite lives forever: one that is alive has moved to the right in
/// every tick and is still inside the canvas, which bounds the ticks.
pub proof fn lemma_life_is_bounded(px: int, py: int, n: nat)
    requires
        in_canvas(px, py),
        run(spawn(px, py), n).alive,
    ensures
        n * INITIAL_VELOCITY_X < CANVAS_WIDTH - FERRIS_WIDTH,
{
    if n > 0 {
        lemma_alive_before(spawn(px, py), (n - 1) as nat, n);
    }
    lemma_position_after(px, py, n);
    lemma_alive_is_inside(px, py, n);
}

} // verus!
