use vstd::prelude::*;

verus! {

/// Fixed-point subdivisions of one world pixel; positions and velocities
/// are counted in these units.
pub const SUBUNITS: i64 = 10000;
/// World width in pixels.
pub const WORLD_WIDTH: u32 = 256;
/// World height in pixels.
pub const WORLD_HEIGHT: u32 = 144;

/// Horizontal acceleration per tick while a direction key is held (0.3).
pub const RUN_ACCELERATION: i64 = 3000;
/// No acceleration at or above this horizontal speed (4.75).
pub const MAX_RUN_SPEED: i64 = 47500;
/// Horizontal speeds below this snap to rest (0.3).
pub const DEAD_ZONE: i64 = 3000;
/// Horizontal velocity is kept to a multiple of this (0.001).
pub const VELOCITY_STEP: i64 = 10;
/// Horizontal position is kept to a multiple of this (0.01).
pub const POSITION_STEP: i64 = 100;
/// Friction per tick in the air (0.01).
pub const AIR_FRICTION: i64 = 100;
/// Friction per tick on the floor (0.1).
pub const FLOOR_FRICTION: i64 = 1000;
/// Downward acceleration per tick (0.1).
pub const GRAVITY: i64 = 1000;
/// Gravity stops adding speed at this downward velocity (5.0).
pub const TERMINAL_VELOCITY: i64 = 50000;
/// Velocity over position change per tick.
pub const STEP_DIVISOR: i64 = 5;
/// The upward impulse of a jump (-7.0).
pub const JUMP_VELOCITY: i64 = -70000;
/// Positions and velocities within this magnitude can be stepped without overflow.
pub const MOTION_BOUND: i64 = 1000000000000000000;

/// Division that rounds toward zero, as `as`-casts of floats do.
pub open spec fn trunc_div(a: int, d: int) -> int {
    if a >= 0 { a / d } else { -((-a) / d) }
}

/// The whole pixel of a fixed-point coordinate, rounded toward zero.
pub open spec fn whole(p: int) -> int {
    trunc_div(p, SUBUNITS as int)
}

/// `a` rounded to the nearest multiple of `m`, halves away from zero.
pub open spec fn round_to(a: int, m: int) -> int {
    if a >= 0 { ((a + m / 2) / m) * m } else { -(((-a + m / 2) / m) * m) }
}

pub open spec fn abs(a: int) -> int {
    if a >= 0 { a } else { -a }
}

/// `v` moved toward zero by `f`, stopping at zero.
pub open spec fn decelerate(v: int, f: int) -> int {
    if v > f {
        v - f
    } else if v < -f {
        v + f
    } else {
        0
    }
}

/// A body whose top edge is at `y` and whose height is `h` touches or
/// passes the floor.
pub open spec fn on_floor(y: int, h: int) -> bool {
    whole(y) + h >= WORLD_HEIGHT as int
}

/// The top edge of a body of height `h` resting on the floor.
pub open spec fn floor_rest(h: int) -> int {
    (WORLD_HEIGHT as int - h) * SUBUNITS as int
}

/// The fixed-point state of a moving body.
pub struct Motion {
    pub px: int,
    pub py: int,
    pub vx: int,
    pub vy: int,
}

/// Horizontal velocity after the control step: accelerate for each held
/// key below the run speed, keep it to `VELOCITY_STEP`, and snap small
/// speeds to zero.
pub open spec fn movement_step(vx: int, right: bool, left: bool) -> int {
    let v1 = if right && abs(vx) < MAX_RUN_SPEED { vx + RUN_ACCELERATION } else { vx };
    let v2 = if left && abs(v1) < MAX_RUN_SPEED { v1 - RUN_ACCELERATION } else { v1 };
    let v3 = round_to(v2, VELOCITY_STEP as int);
    if abs(v3) < DEAD_ZONE { 0 } else { v3 }
}

/// One physics tick of a body of size `(w, h)`: move by a fifth of the
/// velocity, stop at the side walls or apply friction (heavier when the body
/// was on the floor before moving), keep x to `POSITION_STEP`, then apply
/// gravity while above the floor or rest on it.
pub open spec fn physics_step(m: Motion, w: int, h: int) -> Motion {
    let friction = if on_floor(m.py, h) { FLOOR_FRICTION as int } else { AIR_FRICTION as int };
    let px1 = m.px + trunc_div(m.vx, STEP_DIVISOR as int);
    let py1 = m.py + trunc_div(m.vy, STEP_DIVISOR as int);
    let vx1 = if whole(px1) <= 0 || whole(px1) + w > WORLD_WIDTH as int {
        0
    } else {
        decelerate(m.vx, friction)
    };
    let px2 = round_to(px1, POSITION_STEP as int);
    if whole(py1) + h < WORLD_HEIGHT as int && m.vy < TERMINAL_VELOCITY as int {
        Motion { px: px2, py: py1, vx: vx1, vy: m.vy + GRAVITY as int }
    } else if on_floor(py1, h) {
        Motion { px: px2, py: floor_rest(h), vx: vx1, vy: 0 }
    } else {
        Motion { px: px2, py: py1, vx: vx1, vy: m.vy }
    }
}

/// One whole tick: the control step, then the physics step.
pub open spec fn tick(m: Motion, w: int, h: int, right: bool, left: bool) -> Motion {
    physics_step(Motion { vx: movement_step(m.vx, right, left), ..m }, w, h)
}

/// `n` ticks with the same keys held.
pub open spec fn ticks(m: Motion, w: int, h: int, right: bool, left: bool, n: nat) -> Motion
    decreases n,
{
    if n == 0 { m } else { tick(ticks(m, w, h, right, left, (n - 1) as nat), w, h, right, left) }
}

pub fn trunc_div_exec(a: i64, d: i64) -> (r: i64)
    requires
        d > 0,
        -MOTION_BOUND * 2 <= a <= MOTION_BOUND * 2,
    ensures
        r == trunc_div(a as int, d as int),
{
    if a >= 0 { a / d } else { -((-a) / d) }
}

proof fn lemma_round_near(a: int, m: int)
    requires
        a >= 0,
        m > 0,
    ensures
        a + m / 2 - m < ((a + m / 2) / m) * m <= a + m / 2,
{
    let q = a + m / 2;
    assert((q / m) * m <= q && q - m < (q / m) * m) by (nonlinear_arith)
        requires q >= 0, m > 0;
}

pub fn round_to_exec(a: i64, m: i64) -> (r: i64)
    requires
        0 < m <= 1000,
        -MOTION_BOUND * 2 <= a <= MOTION_BOUND * 2,
    ensures
        r == round_to(a as int, m as int),
        abs(r - a) <= m,
{
    if a >= 0 {
        proof {
            lemma_round_near(a as int, m as int);
        }
        ((a + m / 2) / m) * m
    } else {
        let b = -a;
        proof {
            lemma_round_near(b as int, m as int);
        }
        -(((b + m / 2) / m) * m)
    }
}

pub fn decelerate_exec(v: i64, f: i64) -> (r: i64)
    requires
        0 <= f <= MOTION_BOUND,
        -MOTION_BOUND <= v <= MOTION_BOUND,
    ensures
        r == decelerate(v as int, f as int),
{
    if v > f {
        v - f
    } else if v < -f {
        v + f
    } else {
        0
    }
}

/// Gravity never takes a body past terminal velocity: from a downward
/// velocity of at most `TERMINAL_VELOCITY` that is a whole number of
/// `GRAVITY` steps, any number of ticks keeps it so.
pub proof fn lemma_terminal_velocity(m: Motion, w: int, h: int, right: bool, left: bool, n: nat)
    requires
        m.vy <= TERMINAL_VELOCITY,
        m.vy % (GRAVITY as int) == 0,
    ensures
        ticks(m, w, h, right, left, n).vy <= TERMINAL_VELOCITY,
        ticks(m, w, h, right, left, n).vy % (GRAVITY as int) == 0,
    decreases n,
{
    if n > 0 {
        lemma_terminal_velocity(m, w, h, right, left, (n - 1) as nat);
        let p = ticks(m, w, h, right, left, (n - 1) as nat);
        let q = p.vy / (GRAVITY as int);
        assert(p.vy == q * GRAVITY as int);
        assert(p.vy + GRAVITY as int == (q + 1) * GRAVITY as int);
    }
}

/// A body whose bottom edge reaches the floor after moving comes to rest
/// on it: its top edge sits `h` above the floor and it stops falling.
pub proof fn lemma_floor_landing(m: Motion, w: int, h: int)
    requires
        on_floor(m.py + trunc_div(m.vy, STEP_DIVISOR as int), h),
    ensures
        physics_step(m, w, h).py == floor_rest(h),
        physics_step(m, w, h).vy == 0,
{
}

/// A body resting on the floor stays there, tick after tick, whatever keys
/// are held, until an impulse changes its vertical velocity.
pub proof fn lemma_floor_rest(m: Motion, w: int, h: int, right: bool, left: bool, n: nat)
    requires
        m.py == floor_rest(h),
        m.vy == 0,
    ensures
        ticks(m, w, h, right, left, n).py == floor_rest(h),
        ticks(m, w, h, right, left, n).vy == 0,
    decreases n,
{
    if n > 0 {
        lemma_floor_rest(m, w, h, right, left, (n - 1) as nat);
        let k = WORLD_HEIGHT as int - h;
        assert(trunc_div(k * SUBUNITS as int, SUBUNITS as int) == k) by {
            if k >= 0 {
                vstd::arithmetic::div_mod::lemma_div_multiples_vanish(k, SUBUNITS as int);
            } else {
                vstd::arithmetic::div_mod::lemma_div_multiples_vanish(-k, SUBUNITS as int);
                assert(-(k * SUBUNITS as int) == (-k) * SUBUNITS as int) by (nonlinear_arith);
            }
        }
        assert(trunc_div(0, STEP_DIVISOR as int) == 0);
    }
}

} // verus!
