//! The trick physics engine: a deterministic state machine that advances by
//! one fixed step per rendered frame and decides, on each landing, whether a
//! perfect trick was performed.
//!
//! All quantities are integers counting millionths: of a length unit for the
//! vertical offset and velocity, of a radian for the angles, of the full
//! animation for the explosion timer. Sums that leave the `i64` range stop at
//! its ends.

use vstd::prelude::*;

verus! {

/// One whole unit, in millionths.
pub const ONE: i64 = 1_000_000;

/// The vertical offset of the floor.
pub const FLOOR_LEVEL: i64 = -300_000;

/// The change of vertical velocity per step while airborne.
pub const GRAVITY: i64 = -2_000;

/// The vertical velocity that a jump starts with.
pub const JUMP_VELOCITY: i64 = 80_000;

/// The angle turned per step while a rotation input is held in the air.
pub const ROTATION_SPEED: i64 = 150_000;

/// The distance of one manual vertical nudge.
pub const NUDGE: i64 = 50_000;

/// The amount by which a running explosion timer falls per step.
pub const EXPLOSION_DECAY: i64 = 20_000;

/// How far from upright a landing may be and still count as even (about one degree).
pub const TOLERANCE: i64 = 17_000;

/// Half a turn, in millionths of a radian (pi rounded to the nearest millionth).
pub const PI: i64 = 3_141_593;

/// A full turn: twice `PI`.
pub const TWO_PI: i64 = 6_283_186;

/// The value that an `i64` sum settles on: the sum itself where it fits,
/// else the nearer end of the `i64` range.
pub open spec fn saturate(x: int) -> int {
    if x < i64::MIN {
        i64::MIN as int
    } else if x > i64::MAX {
        i64::MAX as int
    } else {
        x
    }
}

/// Adds two fixed-point values, stopping at the ends of the `i64` range.
pub fn saturating_sum(a: i64, b: i64) -> (r: i64)
    ensures
        r == saturate(a + b),
{
    match a.checked_add(b) {
        Some(v) => v,
        None => if b > 0 {
            i64::MAX
        } else {
            i64::MIN
        },
    }
}

/// The angle in `(-PI, PI]` that differs from `angle` by a whole number of turns.
pub open spec fn normalized(angle: int) -> int {
    let m: int = angle % (TWO_PI as int);
    if m > PI {
        m - TWO_PI
    } else {
        m
    }
}

/// Whether a net rotation amounts to at least one full turn, in either direction.
pub open spec fn full_rotation(total_rotation: int) -> bool {
    total_rotation >= TWO_PI || total_rotation <= -TWO_PI
}

/// Whether an orientation is within `TOLERANCE` of upright once whole turns are taken out.
pub open spec fn even_landing(rotation: int) -> bool {
    -TOLERANCE < normalized(rotation) < TOLERANCE
}

/// What a running explosion timer falls to in one step; a timer that is not
/// running stays as it is.
pub open spec fn decayed(timer: int) -> int {
    if timer > EXPLOSION_DECAY {
        timer - EXPLOSION_DECAY
    } else if timer > 0 {
        0
    } else {
        timer
    }
}

/// `normalized` lands in `(-PI, PI]` and moves its argument by whole turns only.
pub proof fn lemma_normalized_is_canonical(angle: int)
    ensures
        -PI < normalized(angle) <= PI,
        (angle - normalized(angle)) % (TWO_PI as int) == 0,
        -PI < angle <= PI ==> normalized(angle) == angle,
{
    let t: int = TWO_PI as int;
    let m: int = angle % t;
    assert(0 <= m < t);
    assert(angle == t * (angle / t) + m) by {
        vstd::arithmetic::div_mod::lemma_fundamental_div_mod(angle, t);
    }
    if m > PI {
        assert(angle - (m - t) == t * (angle / t + 1)) by (nonlinear_arith)
            requires
                angle == t * (angle / t) + m,
        ;
        vstd::arithmetic::div_mod::lemma_mod_multiples_basic(angle / t + 1, t);
        assert((angle - normalized(angle)) % t == 0) by {
            assert(t * (angle / t + 1) == (angle / t + 1) * t) by (nonlinear_arith);
        }
    } else {
        vstd::arithmetic::div_mod::lemma_mod_multiples_basic(angle / t, t);
        assert((angle - normalized(angle)) % t == 0) by {
            assert(t * (angle / t) == (angle / t) * t) by (nonlinear_arith);
        }
    }
    if -PI < angle <= PI {
        if angle >= 0 {
            vstd::arithmetic::div_mod::lemma_small_mod(angle as nat, t as nat);
        } else {
            vstd::arithmetic::div_mod::lemma_small_mod((angle + t) as nat, t as nat);
            vstd::arithmetic::div_mod::lemma_mod_add_multiples_vanish(angle, t);
        }
    }
}

/// Brings an angle into `(-PI, PI]` by taking out whole turns.
pub fn normalize_angle(angle: i64) -> (r: i64)
    ensures
        r == normalized(angle as int),
        -PI < r <= PI,
        (angle - r) % (TWO_PI as int) == 0,
{
    proof {
        lemma_normalized_is_canonical(angle as int);
    }
    let m: i64 = angle % TWO_PI;
    if m > PI {
        m - TWO_PI
    } else if m <= -PI {
        m + TWO_PI
    } else {
        m
    }
}

/// Tells whether a net rotation is at least one full turn, in either direction.
pub fn completed_full_rotation(total_rotation: i64) -> (done: bool)
    ensures
        done == full_rotation(total_rotation as int),
{
    total_rotation >= TWO_PI || total_rotation <= -TWO_PI
}

/// Tells whether an orientation is within `TOLERANCE` of upright.
pub fn landed_even(rotation: i64) -> (even: bool)
    ensures
        even == even_landing(rotation as int),
{
    let n: i64 = normalize_angle(rotation);
    -TOLERANCE < n && n < TOLERANCE
}

/// The state that the physics engine owns and the renderer reads each frame.
#[derive(Clone, Copy, Debug, PartialEq, Eq, Structural)]
pub struct KinematicState {
    /// Signed distance from the floor reference.
    pub vertical_offset: i64,
    /// Change of `vertical_offset` per step.
    pub vertical_velocity: i64,
    /// Whether the shape rests on the floor.
    pub on_ground: bool,
    /// Current orientation.
    pub rotation: i64,
    /// Net rotation since the most recent takeoff.
    pub total_rotation: i64,
    /// Whether the rotate-left input is held.
    pub rotating_left: bool,
    /// Whether the rotate-right input is held.
    pub rotating_right: bool,
    /// Phase of the explosion animation: `ONE` at its start, 0 when none runs.
    pub explosion_timer: i64,
}

impl KinematicState {
    /// What every operation keeps: the timer is a phase in `[0, ONE]`, and a
    /// grounded shape is upright with no rotation input stored.
    pub open spec fn well_formed(self) -> bool {
        &&& 0 <= self.explosion_timer <= ONE
        &&& self.on_ground ==> self.rotation == 0 && self.total_rotation == 0
            && !self.rotating_left && !self.rotating_right
    }

    /// What holds after every step: the shape is never below the floor, and
    /// it is grounded exactly when it lies on the floor at rest.
    pub open spec fn settled(self) -> bool {
        &&& self.vertical_offset >= FLOOR_LEVEL
        &&& self.on_ground <==> self.vertical_offset == FLOOR_LEVEL && self.vertical_velocity == 0
    }

    /// The angle per step that the held inputs ask for: right counts
    /// positive, left negative, both together cancel.
    pub open spec fn held_turn(self) -> int {
        (if self.rotating_right {
            ROTATION_SPEED as int
        } else {
            0
        }) - (if self.rotating_left {
            ROTATION_SPEED as int
        } else {
            0
        })
    }

    /// The angle actually turned in the next step: inputs count only in the air.
    pub open spec fn turn(self) -> int {
        if self.on_ground {
            0
        } else {
            self.held_turn()
        }
    }

    /// The velocity after gravity has acted in the next step.
    pub open spec fn next_velocity(self) -> int {
        if self.on_ground {
            self.vertical_velocity as int
        } else {
            saturate(self.vertical_velocity + GRAVITY)
        }
    }

    /// The offset after the next step's integration, before the floor is considered.
    pub open spec fn next_offset(self) -> int {
        saturate(self.vertical_offset + self.next_velocity())
    }

    /// Whether the next step ends on the floor.
    pub open spec fn lands(self) -> bool {
        self.next_offset() <= FLOOR_LEVEL
    }

    /// Whether the next step is a perfect landing: it ends on the floor after
    /// at least one full turn, with the shape within tolerance of upright.
    pub open spec fn perfect_landing(self) -> bool {
        &&& self.lands()
        &&& full_rotation(saturate(self.total_rotation + self.turn()))
        &&& even_landing(saturate(self.rotation + self.turn()))
    }

    /// The state one step later.
    pub open spec fn after_tick(self) -> Self {
        if self.lands() {
            KinematicState {
                vertical_offset: FLOOR_LEVEL,
                vertical_velocity: 0,
                on_ground: true,
                rotation: 0,
                total_rotation: 0,
                rotating_left: false,
                rotating_right: false,
                explosion_timer: if self.perfect_landing() {
                    ONE
                } else {
                    decayed(self.explosion_timer as int) as i64
                },
            }
        } else {
            KinematicState {
                vertical_offset: self.next_offset() as i64,
                vertical_velocity: self.next_velocity() as i64,
                on_ground: false,
                rotation: saturate(self.rotation + self.turn()) as i64,
                total_rotation: saturate(self.total_rotation + self.turn()) as i64,
                rotating_left: self.rotating_left,
                rotating_right: self.rotating_right,
                explosion_timer: decayed(self.explosion_timer as int) as i64,
            }
        }
    }

    /// The state `n` steps later, with no input event in between.
    pub open spec fn after_ticks(self, n: nat) -> Self
        decreases n,
    {
        if n == 0 {
            self
        } else {
            self.after_ticks((n - 1) as nat).after_tick()
        }
    }

    /// The state after the jump trigger: from the ground the shape takes off
    /// at once; in the air nothing changes.
    pub open spec fn after_jump(self) -> Self {
        if self.on_ground {
            KinematicState { vertical_velocity: JUMP_VELOCITY, on_ground: false, ..self }
        } else {
            self
        }
    }

    /// The state after a press or release of the rotate-left input: stored
    /// in the air, ignored on the ground.
    pub open spec fn after_rotate_left(self, held: bool) -> Self {
        if self.on_ground {
            self
        } else {
            KinematicState { rotating_left: held, ..self }
        }
    }

    /// The state after a press or release of the rotate-right input: stored
    /// in the air, ignored on the ground.
    pub open spec fn after_rotate_right(self, held: bool) -> Self {
        if self.on_ground {
            self
        } else {
            KinematicState { rotating_right: held, ..self }
        }
    }

    /// The state after a manual nudge by `distance`, upwards where positive.
    pub open spec fn after_nudge(self, distance: int) -> Self {
        KinematicState {
            vertical_offset: saturate(self.vertical_offset + distance) as i64,
            ..self
        }
    }

    /// The state at program start: at rest on the floor, upright, no explosion.
    pub open spec fn initial() -> Self {
        KinematicState {
            vertical_offset: FLOOR_LEVEL,
            vertical_velocity: 0,
            on_ground: true,
            rotation: 0,
            total_rotation: 0,
            rotating_left: false,
            rotating_right: false,
            explosion_timer: 0,
        }
    }

    /// Creates the state at program start.
    pub fn new() -> (s: Self)
        ensures
            s == Self::initial(),
            s.well_formed(),
            s.settled(),
    {
        KinematicState {
            vertical_offset: FLOOR_LEVEL,
            vertical_velocity: 0,
            on_ground: true,
            rotation: 0,
            total_rotation: 0,
            rotating_left: false,
            rotating_right: false,
            explosion_timer: 0,
        }
    }

    /// Advances the state by one step and tells whether this step triggered
    /// the explosion.
    ///
    /// A running explosion timer decays first. In the air, gravity acts on
    /// the velocity and the held inputs turn the shape. The velocity is then
    /// added to the offset. A step that ends at or below the floor is a
    /// landing: the shape is put on the floor at rest, the trick is judged,
    /// a perfect one restarts the explosion timer at `ONE`, and orientation,
    /// net rotation and both inputs are cleared.
    pub fn update_physics(&mut self) -> (exploded: bool)
        ensures
            *final(self) == old(self).after_tick(),
            exploded == old(self).perfect_landing(),
            exploded ==> final(self).explosion_timer == ONE,
            final(self).on_ground == old(self).lands(),
            final(self).settled(),
            final(self).on_ground ==> final(self).rotation == 0 && final(self).total_rotation == 0
                && !final(self).rotating_left && !final(self).rotating_right,
            old(self).well_formed() ==> final(self).well_formed(),
    {
        if self.explosion_timer > 0 {
            self.explosion_timer = self.explosion_timer - EXPLOSION_DECAY;
            if self.explosion_timer <= 0 {
                self.explosion_timer = 0;
            }
        }
        if !self.on_ground {
            self.vertical_velocity = saturating_sum(self.vertical_velocity, GRAVITY);
            let mut turn: i64 = 0;
            if self.rotating_left {
                turn = turn - ROTATION_SPEED;
            }
            if self.rotating_right {
                turn = turn + ROTATION_SPEED;
            }
            self.rotation = saturating_sum(self.rotation, turn);
            self.total_rotation = saturating_sum(self.total_rotation, turn);
        }
        self.vertical_offset = saturating_sum(self.vertical_offset, self.vertical_velocity);
        if self.vertical_offset <= FLOOR_LEVEL {
            self.vertical_offset = FLOOR_LEVEL;
            self.vertical_velocity = 0;
            self.on_ground = true;
            let exploded: bool = completed_full_rotation(self.total_rotation) && landed_even(
                self.rotation,
            );
            if exploded {
                self.explosion_timer = ONE;
            }
            self.rotation = 0;
            self.total_rotation = 0;
            self.rotating_left = false;
            self.rotating_right = false;
            exploded
        } else {
            self.on_ground = false;
            false
        }
    }

    /// Handles the jump trigger: from the ground the shape takes off at once
    /// with `JUMP_VELOCITY`; in the air nothing changes. Tells whether it took off.
    pub fn jump(&mut self) -> (launched: bool)
        ensures
            *final(self) == old(self).after_jump(),
            launched == old(self).on_ground,
            !old(self).on_ground ==> *final(self) == *old(self),
            !final(self).on_ground,
            old(self).well_formed() ==> final(self).well_formed(),
    {
        if self.on_ground {
            self.vertical_velocity = JUMP_VELOCITY;
            self.on_ground = false;
            true
        } else {
            false
        }
    }

    /// Handles a press or release of the rotate-left input: stored in the
    /// air, ignored on the ground.
    pub fn set_rotating_left(&mut self, held: bool)
        ensures
            *final(self) == old(self).after_rotate_left(held),
            old(self).well_formed() ==> final(self).well_formed(),
    {
        if !self.on_ground {
            self.rotating_left = held;
        }
    }

    /// Handles a press or release of the rotate-right input: stored in the
    /// air, ignored on the ground.
    pub fn set_rotating_right(&mut self, held: bool)
        ensures
            *final(self) == old(self).after_rotate_right(held),
            old(self).well_formed() ==> final(self).well_formed(),
    {
        if !self.on_ground {
            self.rotating_right = held;
        }
    }

    /// Moves the shape up by `NUDGE`, whether grounded or not.
    pub fn nudge_up(&mut self)
        ensures
            *final(self) == old(self).after_nudge(NUDGE as int),
            old(self).well_formed() ==> final(self).well_formed(),
    {
        self.vertical_offset = saturating_sum(self.vertical_offset, NUDGE);
    }

    /// Moves the shape down by `NUDGE`, whether grounded or not.
    pub fn nudge_down(&mut self)
        ensures
            *final(self) == old(self).after_nudge(-NUDGE),
            old(self).well_formed() ==> final(self).well_formed(),
    {
        self.vertical_offset = saturating_sum(self.vertical_offset, -NUDGE);
    }
}

/// After one step or more, from any state whatever, the shape is not below
/// the floor, it is grounded exactly when it lies on the floor at rest, and a
/// grounded shape is upright with its net rotation and both inputs cleared.
pub proof fn lemma_settled_after_ticks(s: KinematicState, n: nat)
    requires
        n >= 1,
    ensures
        s.after_ticks(n).settled(),
        s.after_ticks(n).vertical_offset >= FLOOR_LEVEL,
        s.after_ticks(n).on_ground <==> s.after_ticks(n).vertical_offset == FLOOR_LEVEL
            && s.after_ticks(n).vertical_velocity == 0,
        s.after_ticks(n).on_ground ==> s.after_ticks(n).rotation == 0 && s.after_ticks(
            n,
        ).total_rotation == 0,
{
    let before: KinematicState = s.after_ticks((n - 1) as nat);
    assert(s.after_ticks(n) == before.after_tick());
}

/// Steps keep a well-formed state well-formed: the timer stays a phase in
/// `[0, ONE]`, and no rotation or input survives on the ground.
pub proof fn lemma_well_formed_after_ticks(s: KinematicState, n: nat)
    requires
        s.well_formed(),
    ensures
        s.after_ticks(n).well_formed(),
    decreases n,
{
    if n > 0 {
        lemma_well_formed_after_ticks(s, (n - 1) as nat);
    }
}

/// While the shape stays in the air for `n` steps, the net rotation moves by
/// exactly `n` times what the held inputs ask for per step: `ROTATION_SPEED`
/// for right, its negative for left, nothing for both or neither. So does
/// the orientation. The sum is required to fit in an `i64`; beyond that
/// range the accumulator stops at its end.
pub proof fn lemma_rotation_accumulates(s: KinematicState, n: nat)
    requires
        forall|k: nat| k <= n ==> !(#[trigger] s.after_ticks(k)).on_ground,
        i64::MIN <= s.total_rotation + n * s.held_turn() <= i64::MAX,
    ensures
        s.after_ticks(n).total_rotation == s.total_rotation + n * s.held_turn(),
        i64::MIN <= s.rotation + n * s.held_turn() <= i64::MAX ==> s.after_ticks(n).rotation
            == s.rotation + n * s.held_turn(),
        s.after_ticks(n).rotating_left == s.rotating_left,
        s.after_ticks(n).rotating_right == s.rotating_right,
        s.rotating_right && !s.rotating_left ==> s.after_ticks(n).total_rotation
            == s.total_rotation + n * ROTATION_SPEED,
        s.rotating_left && !s.rotating_right ==> s.after_ticks(n).total_rotation
            == s.total_rotation - n * ROTATION_SPEED,
        s.rotating_left == s.rotating_right ==> s.after_ticks(n).total_rotation
            == s.total_rotation,
    decreases n,
{
    let h: int = s.held_turn();
    if n > 0 {
        let m: nat = (n - 1) as nat;
        assert(m * h + h == n * h) by (nonlinear_arith)
            requires
                m + 1 == n,
        ;
        assert(i64::MIN <= s.total_rotation + m * h <= i64::MAX) by (nonlinear_arith)
            requires
                i64::MIN <= s.total_rotation <= i64::MAX,
                i64::MIN <= s.total_rotation + n * h <= i64::MAX,
                m + 1 == n,
        ;
        if i64::MIN <= s.rotation + n * h <= i64::MAX {
            assert(i64::MIN <= s.rotation + m * h <= i64::MAX) by (nonlinear_arith)
                requires
                    i64::MIN <= s.rotation <= i64::MAX,
                    i64::MIN <= s.rotation + n * h <= i64::MAX,
                    m + 1 == n,
            ;
        }
        assert forall|k: nat| k <= m implies !(#[trigger] s.after_ticks(k)).on_ground by {
            assert(k <= n);
        }
        lemma_rotation_accumulates(s, m);
        let before: KinematicState = s.after_ticks(m);
        assert(!before.on_ground);
        assert(s.after_ticks(n) == before.after_tick());
        assert(!s.after_ticks(n).on_ground);
        assert(before.held_turn() == h);
    } else {
        assert(n * h == 0) by (nonlinear_arith)
            requires
                n == 0,
        ;
    }
    if h == ROTATION_SPEED {
        assert(n * h == n * ROTATION_SPEED) by (nonlinear_arith)
            requires
                h == ROTATION_SPEED,
        ;
    } else if h == -ROTATION_SPEED {
        assert(n * h == -(n * ROTATION_SPEED)) by (nonlinear_arith)
            requires
                h == -ROTATION_SPEED,
        ;
    } else {
        assert(n * h == 0) by (nonlinear_arith)
            requires
                h == 0,
        ;
    }
}

} // verus!
