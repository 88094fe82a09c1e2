//! The ball's velocity and the two contact rules that change it.
//!
//! The velocity is kept in a decomposed exact form: the squared magnitude of
//! the full vector, the vertical component, and the sign of the horizontal
//! component. The horizontal magnitude is implied (squared speed minus the
//! squared vertical component), so the two gameplay rules — reflection off a
//! paddle, which changes direction but never the magnitude, and the speed-up
//! on contact, which scales the vertical component and clamps the magnitude —
//! are exact integer arithmetic, with no rounding of the speed itself.

use crate::config::{
    INITIAL_SPEED_SQ, INITIAL_VELOCITY_Y, MAX_BALL_SPEED, MAX_COORD, MAX_SPEED_SQ,
    PADDLE_HALF_HEIGHT, SPEED_INCREASE,
};
use vstd::arithmetic::div_mod::{lemma_div_is_ordered, lemma_div_multiples_vanish};
use vstd::arithmetic::mul::lemma_mul_inequality;
use vstd::prelude::*;

verus! {

/// `r` is the floor of the square root of `n`.
pub open spec fn is_floor_sqrt(r: int, n: int) -> bool {
    0 <= r && r * r <= n && n < (r + 1) * (r + 1)
}

/// The floor of the square root of a non-negative number.
pub open spec fn spec_sqrt(n: int) -> int
    decreases n,
{
    if n <= 0 {
        0
    } else {
        let r = spec_sqrt(n - 1);
        if (r + 1) * (r + 1) <= n {
            r + 1
        } else {
            r
        }
    }
}

/// `spec_sqrt` really is the floor square root.
pub proof fn lemma_spec_sqrt(n: int)
    requires
        0 <= n,
    ensures
        is_floor_sqrt(spec_sqrt(n), n),
    decreases n,
{
    if n > 0 {
        lemma_spec_sqrt(n - 1);
        let r = spec_sqrt(n - 1);
        if (r + 1) * (r + 1) <= n {
            assert(n == (r + 1) * (r + 1));
            assert((r + 1) * (r + 1) < (r + 2) * (r + 2)) by (nonlinear_arith)
                requires
                    0 <= r,
            ;
        }
    }
}

/// The floor square root is unique.
pub proof fn lemma_floor_sqrt_unique(r1: int, r2: int, n: int)
    requires
        is_floor_sqrt(r1, n),
        is_floor_sqrt(r2, n),
    ensures
        r1 == r2,
{
    if r1 < r2 {
        lemma_mul_inequality(r1 + 1, r2, r1 + 1);
        lemma_mul_inequality(r1 + 1, r2, r2);
    }
    if r2 < r1 {
        lemma_mul_inequality(r2 + 1, r1, r2 + 1);
        lemma_mul_inequality(r2 + 1, r1, r1);
    }
}

/// Floor square root, by counting up; the inputs the game hands in are a few
/// million at most.
pub fn isqrt(n: i64) -> (r: i64)
    requires
        0 <= n < 0x4000000000000000,
    ensures
        r == spec_sqrt(n as int),
        is_floor_sqrt(r as int, n as int),
{
    let mut r: i64 = 0;
    let mut next: i64 = 1;
    while next <= n
        invariant
            0 <= r <= 0x80000000,
            next == (r + 1) * (r + 1),
            r * r <= n < 0x4000000000000000,
            next <= 0x4100000000000000,
        decreases 0x80000001 - r,
    {
        proof {
            // (r + 1)^2 <= n < 2^62, so r + 1 is below 2^31 and the next
            // square still fits comfortably.
            assert(r + 1 <= 0x80000000) by (nonlinear_arith)
                requires
                    0 <= r,
                    (r + 1) * (r + 1) <= 0x3fffffffffffffff,
            ;
            assert((r + 2) * (r + 2) == (r + 1) * (r + 1) + 2 * (r + 1) + 1) by (nonlinear_arith);
        }
        r = r + 1;
        next = next + 2 * r + 1;
    }
    proof {
        lemma_spec_sqrt(n as int);
        lemma_floor_sqrt_unique(r as int, spec_sqrt(n as int), n as int);
    }
    r
}

/// Scaling `b` down by the proper fraction `a / d` stays within `[0, b]`.
pub proof fn lemma_scale_frac(a: int, b: int, d: int)
    requires
        0 <= a <= d,
        0 < d,
        0 <= b,
    ensures
        0 <= a * b / d <= b,
{
    lemma_mul_inequality(a, d, b);
    lemma_div_is_ordered(0, a * b, d);
    lemma_div_is_ordered(a * b, d * b, d);
    lemma_div_multiples_vanish(b, d);
}

/// `a * b / d`, all non-negative with `a <= d`: `b` scaled down by `a / d`.
fn scale_frac(a: i64, b: i64, d: i64) -> (r: i64)
    requires
        0 <= a <= d,
        0 < d <= 1000000,
        0 <= b <= 1000000,
    ensures
        r == a as int * b as int / d as int,
        0 <= r <= b,
{
    proof {
        assert(0 <= a * b <= 1000000000000) by (nonlinear_arith)
            requires
                0 <= a <= 1000000,
                0 <= b <= 1000000,
        ;
        lemma_scale_frac(a as int, b as int, d as int);
    }
    a * b / d
}

/// The ball's velocity in decomposed exact form.
///
/// The full vector is `(vx, vy)` with `vx = ±sqrt(speed_sq - vy²)`, the sign
/// given by `moving_right`; the front end derives `vx` only to draw and
/// integrate, while every rule in the core works on this exact state.
#[derive(Clone, Copy, Debug, PartialEq, Eq, Structural)]
pub struct BallVelocity {
    vy: i64,
    speed_sq: i64,
    moving_right: bool,
}

impl BallVelocity {
    /// The vertical velocity component.
    pub closed spec fn spec_vy(self) -> i64 {
        self.vy
    }

    /// The squared magnitude of the full velocity vector.
    pub closed spec fn spec_speed_sq(self) -> i64 {
        self.speed_sq
    }

    /// Whether the horizontal component points to the right.
    pub closed spec fn spec_moving_right(self) -> bool {
        self.moving_right
    }

    /// A velocity is well formed when its squared speed is within the cap
    /// and the vertical component does not exceed the full magnitude.
    pub open spec fn wf(self) -> bool {
        &&& 0 <= self.spec_speed_sq() <= MAX_SPEED_SQ
        &&& self.spec_vy() * self.spec_vy() <= self.spec_speed_sq()
    }

    pub fn vy(&self) -> (v: i64)
        ensures
            v == self.spec_vy(),
    {
        self.vy
    }

    pub fn speed_sq(&self) -> (s: i64)
        ensures
            s == self.spec_speed_sq(),
    {
        self.speed_sq
    }

    pub fn moving_right(&self) -> (b: bool)
        ensures
            b == self.spec_moving_right(),
    {
        self.moving_right
    }

    /// The velocity every serve starts with: the fixed serve vector, moving
    /// right and upward.
    pub fn initial() -> (v: BallVelocity)
        ensures
            v == BallVelocity::spec_initial(),
            v.spec_vy() == INITIAL_VELOCITY_Y,
            v.spec_speed_sq() == INITIAL_SPEED_SQ,
            v.spec_moving_right(),
            v.wf(),
    {
        BallVelocity { vy: INITIAL_VELOCITY_Y, speed_sq: INITIAL_SPEED_SQ, moving_right: true }
    }

    /// The fixed serve velocity.
    pub closed spec fn spec_initial() -> BallVelocity {
        BallVelocity { vy: INITIAL_VELOCITY_Y, speed_sq: INITIAL_SPEED_SQ, moving_right: true }
    }

    /// What the serve velocity is: moving right, vertical component and
    /// squared speed those of the fixed serve vector.
    pub proof fn lemma_spec_initial()
        ensures
            BallVelocity::spec_initial().spec_vy() == INITIAL_VELOCITY_Y,
            BallVelocity::spec_initial().spec_speed_sq() == INITIAL_SPEED_SQ,
            BallVelocity::spec_initial().spec_moving_right(),
            BallVelocity::spec_initial().wf(),
    {
    }

    /// The squared speed after one speed-up: the vertical component scaled
    /// by [`SPEED_INCREASE`] changes the squared magnitude from
    /// `speed_sq` to `speed_sq + 3 * vy²`, capped at the maximum.
    pub open spec fn spec_sped_up_sq(self) -> int {
        let scaled = self.spec_speed_sq() + 3 * (self.spec_vy() * self.spec_vy());
        if scaled > MAX_SPEED_SQ {
            MAX_SPEED_SQ as int
        } else {
            scaled
        }
    }

    /// The contact speed-up rule: the vertical component is doubled and the
    /// whole vector is clamped to the maximum speed, keeping its direction.
    ///
    /// The squared speed afterwards is exactly the scaled squared speed
    /// capped at the maximum, so the speed never decreases here, and once
    /// the cap is hit it stays exactly there.
    pub fn speed_up(&mut self)
        requires
            old(self).wf(),
        ensures
            final(self).wf(),
            *final(self) == old(self).spec_sped_up(),
            final(self).spec_speed_sq() == old(self).spec_sped_up_sq(),
            final(self).spec_speed_sq() >= old(self).spec_speed_sq(),
            final(self).spec_moving_right() == old(self).spec_moving_right(),
            old(self).spec_vy() == 0 ==> final(self).spec_vy() == 0,
            old(self).spec_vy() > 0 ==> final(self).spec_vy() >= 0,
            old(self).spec_vy() < 0 ==> final(self).spec_vy() <= 0,
            old(self).spec_speed_sq() + 3 * (old(self).spec_vy() * old(self).spec_vy())
                <= MAX_SPEED_SQ ==> final(self).spec_vy() == 2 * old(self).spec_vy(),
            final(self).spec_vy() * final(self).spec_vy() <= final(self).spec_speed_sq(),
    {
        proof {
            assert(-1000 <= self.vy <= 1000 && 0 <= self.vy * self.vy) by (nonlinear_arith)
                requires
                    self.vy * self.vy <= self.speed_sq,
                    self.speed_sq <= 1000000,
            ;
        }
        let vy_scaled = SPEED_INCREASE * self.vy;
        let scaled_sq = self.speed_sq + 3 * (self.vy * self.vy);
        if scaled_sq <= MAX_SPEED_SQ {
            proof {
                assert(vy_scaled * vy_scaled <= scaled_sq) by (nonlinear_arith)
                    requires
                        vy_scaled == 2 * self.vy,
                        scaled_sq == self.speed_sq + 3 * (self.vy * self.vy),
                        self.vy * self.vy <= self.speed_sq,
                ;
            }
            self.vy = vy_scaled;
            self.speed_sq = scaled_sq;
        } else {
            let len = isqrt(scaled_sq);
            let mag = if vy_scaled < 0 {
                -vy_scaled
            } else {
                vy_scaled
            };
            proof {
                // mag² = 4·vy² <= speed_sq + 3·vy² = scaled_sq < (len+1)²,
                // so mag <= len.
                assert(mag * mag <= scaled_sq) by (nonlinear_arith)
                    requires
                        mag == vy_scaled || mag as int == -(vy_scaled as int),
                        vy_scaled == 2 * self.vy,
                        scaled_sq == self.speed_sq + 3 * (self.vy * self.vy),
                        self.vy * self.vy <= self.speed_sq,
                ;
                assert(mag <= len) by (nonlinear_arith)
                    requires
                        mag * mag <= scaled_sq,
                        scaled_sq < (len + 1) * (len + 1),
                        0 <= mag,
                        0 <= len,
                ;
                assert(len <= 1000000) by (nonlinear_arith)
                    requires
                        len * len <= scaled_sq,
                        scaled_sq <= 4 * MAX_SPEED_SQ,
                        0 <= len,
                ;
            }
            let scaled_down = scale_frac(mag, MAX_BALL_SPEED, len);
            let vy_clamped = if vy_scaled < 0 {
                -scaled_down
            } else {
                scaled_down
            };
            proof {
                assert(vy_clamped * vy_clamped <= 1000000) by (nonlinear_arith)
                    requires
                        0 <= scaled_down <= 1000,
                        vy_clamped == scaled_down || vy_clamped as int == -(scaled_down as int),
                ;
            }
            self.vy = vy_clamped;
            self.speed_sq = MAX_SPEED_SQ;
        }
    }

    /// The vertical component after a reflection: the contact offset,
    /// clamped to the paddle's half height, sets the new vertical direction
    /// as a fraction of the (floor of the) current speed.
    pub open spec fn spec_reflected_vy(self, offset: int) -> int {
        let c = clamp_spec(offset, -PADDLE_HALF_HEIGHT as int, PADDLE_HALF_HEIGHT as int);
        let speed = spec_sqrt(self.spec_speed_sq() as int);
        if c >= 0 {
            c * speed / (PADDLE_HALF_HEIGHT as int)
        } else {
            -((-c) * speed / (PADDLE_HALF_HEIGHT as int))
        }
    }

    /// The paddle reflection rule: the horizontal component is inverted and
    /// the vertical component is recomputed from the normalized vertical
    /// offset between ball and paddle center — and the squared magnitude is
    /// left exactly as it was: a reflection changes direction, not speed.
    pub fn paddle_reflect(&mut self, ball_y: i64, paddle_y: i64)
        requires
            old(self).wf(),
            -MAX_COORD <= ball_y <= MAX_COORD,
            -MAX_COORD <= paddle_y <= MAX_COORD,
        ensures
            final(self).wf(),
            *final(self) == old(self).spec_reflected(ball_y - paddle_y),
            final(self).spec_speed_sq() == old(self).spec_speed_sq(),
            final(self).spec_moving_right() == !old(self).spec_moving_right(),
            final(self).spec_vy() == old(self).spec_reflected_vy(ball_y - paddle_y),
    {
        let offset = ball_y - paddle_y;
        let c = if offset < -PADDLE_HALF_HEIGHT {
            -PADDLE_HALF_HEIGHT
        } else if offset > PADDLE_HALF_HEIGHT {
            PADDLE_HALF_HEIGHT
        } else {
            offset
        };
        let speed = isqrt(self.speed_sq);
        proof {
            assert(speed <= 1000000) by (nonlinear_arith)
                requires
                    speed * speed <= self.speed_sq,
                    self.speed_sq <= MAX_SPEED_SQ,
                    0 <= speed,
            ;
        }
        let mag = if c < 0 {
            -c
        } else {
            c
        };
        let scaled = scale_frac(mag, speed, PADDLE_HALF_HEIGHT);
        let vy_new = if c < 0 {
            -scaled
        } else {
            scaled
        };
        proof {
            // |vy_new| <= speed, so vy_new^2 <= speed^2 <= speed_sq.
            assert(vy_new * vy_new <= self.speed_sq) by (nonlinear_arith)
                requires
                    0 <= scaled <= speed,
                    vy_new == scaled || vy_new as int == -(scaled as int),
                    speed * speed <= self.speed_sq,
            ;
        }
        self.vy = vy_new;
        self.moving_right = !self.moving_right;
    }
}

impl BallVelocity {
    /// The exact velocity one contact speed-up produces: the model the
    /// executable rule is proved against, and the step the rally-speed
    /// lemmas below iterate.
    pub closed spec fn spec_sped_up(self) -> BallVelocity {
        let vy_scaled = 2 * self.vy;
        let scaled_sq = self.speed_sq + 3 * (self.vy * self.vy);
        if scaled_sq <= MAX_SPEED_SQ {
            BallVelocity {
                vy: vy_scaled as i64,
                speed_sq: scaled_sq as i64,
                moving_right: self.moving_right,
            }
        } else {
            let len = spec_sqrt(scaled_sq as int);
            let mag = if vy_scaled < 0 {
                -vy_scaled
            } else {
                vy_scaled
            };
            let scaled_down = mag * MAX_BALL_SPEED / len;
            BallVelocity {
                vy: (if vy_scaled < 0 {
                    -scaled_down
                } else {
                    scaled_down
                }) as i64,
                speed_sq: MAX_SPEED_SQ,
                moving_right: self.moving_right,
            }
        }
    }

    /// The velocity after `n` contact speed-ups.
    pub open spec fn spec_sped_up_n(self, n: nat) -> BallVelocity
        decreases n,
    {
        if n == 0 {
            self
        } else {
            self.spec_sped_up_n((n - 1) as nat).spec_sped_up()
        }
    }

    /// One speed-up step, characterized: it keeps the velocity well formed
    /// and the horizontal direction, its squared speed is exactly the scaled
    /// squared speed capped at the maximum — never below the old speed — and
    /// short of the cap a moving vertical component stays moving.
    pub proof fn lemma_sped_up(self)
        requires
            self.wf(),
        ensures
            self.spec_sped_up().wf(),
            self.spec_sped_up().spec_speed_sq() == self.spec_sped_up_sq(),
            self.spec_sped_up().spec_speed_sq() >= self.spec_speed_sq(),
            self.spec_sped_up().spec_moving_right() == self.spec_moving_right(),
            self.spec_vy() != 0 && self.spec_sped_up().spec_speed_sq() < MAX_SPEED_SQ
                ==> self.spec_sped_up().spec_vy() != 0,
    {
        let vy_scaled = 2 * self.vy;
        let scaled_sq = self.speed_sq + 3 * (self.vy * self.vy);
        assert(0 <= self.vy * self.vy && -1000 <= self.vy <= 1000) by (nonlinear_arith)
            requires
                self.vy * self.vy <= self.speed_sq,
                self.speed_sq <= 1000000,
        ;
        if scaled_sq <= MAX_SPEED_SQ {
            assert(vy_scaled * vy_scaled <= scaled_sq) by (nonlinear_arith)
                requires
                    vy_scaled == 2 * self.vy,
                    scaled_sq == self.speed_sq + 3 * (self.vy * self.vy),
                    self.vy * self.vy <= self.speed_sq,
            ;
        } else {
            let len = spec_sqrt(scaled_sq as int);
            lemma_spec_sqrt(scaled_sq as int);
            let mag = if vy_scaled < 0 {
                -vy_scaled
            } else {
                vy_scaled
            };
            assert(mag * mag <= scaled_sq) by (nonlinear_arith)
                requires
                    mag == vy_scaled || mag == -vy_scaled,
                    0 <= mag,
                    vy_scaled == 2 * self.vy,
                    scaled_sq == self.speed_sq + 3 * (self.vy * self.vy),
                    self.vy * self.vy <= self.speed_sq,
            ;
            assert(mag <= len) by (nonlinear_arith)
                requires
                    mag * mag <= scaled_sq,
                    scaled_sq < (len + 1) * (len + 1),
                    0 <= mag,
                    0 <= len,
            ;
            lemma_scale_frac(mag, MAX_BALL_SPEED as int, len);
            let scaled_down = mag * MAX_BALL_SPEED / len;
            assert(scaled_down * scaled_down <= 1000000) by (nonlinear_arith)
                requires
                    0 <= scaled_down <= 1000,
            ;
            let vy_new = if vy_scaled < 0 {
                -scaled_down
            } else {
                scaled_down
            };
            assert(vy_new * vy_new <= 1000000) by (nonlinear_arith)
                requires
                    0 <= scaled_down <= 1000,
                    vy_new == scaled_down || vy_new == -scaled_down,
            ;
        }
    }

    /// The exact velocity a paddle reflection produces for a given contact
    /// offset: the model the executable rule is proved against.
    pub closed spec fn spec_reflected(self, offset: int) -> BallVelocity {
        BallVelocity {
            vy: self.spec_reflected_vy(offset) as i64,
            speed_sq: self.speed_sq,
            moving_right: !self.moving_right,
        }
    }

    /// A reflection changes direction, never the speed: the squared
    /// magnitude after a reflection is exactly the one before it.
    pub proof fn lemma_reflected_preserves_speed(self, offset: int)
        ensures
            self.spec_reflected(offset).spec_speed_sq() == self.spec_speed_sq(),
    {
    }

    /// However many speed-ups hit the ball, its speed never decreases.
    pub proof fn lemma_sped_up_n_speed_monotone(self, n: nat)
        requires
            self.wf(),
        ensures
            self.spec_sped_up_n(n).wf(),
            self.spec_sped_up_n(n).spec_speed_sq() >= self.spec_speed_sq(),
        decreases n,
    {
        if n > 0 {
            self.lemma_sped_up_n_speed_monotone((n - 1) as nat);
            self.spec_sped_up_n((n - 1) as nat).lemma_sped_up();
        }
    }

    /// Once the ball runs at the maximum speed, a further speed-up leaves it
    /// exactly there: the cap is absorbing.
    pub proof fn lemma_cap_absorbing(self)
        requires
            self.wf(),
            self.spec_speed_sq() == MAX_SPEED_SQ,
        ensures
            self.spec_sped_up().wf(),
            self.spec_sped_up().spec_speed_sq() == MAX_SPEED_SQ,
    {
        self.lemma_sped_up();
        assert(0 <= self.vy * self.vy) by (nonlinear_arith);
    }

    /// After `n` speed-ups a velocity with a moving vertical component has
    /// either reached the cap exactly, or gained at least `3 n` of squared
    /// speed and kept its vertical component moving.
    pub proof fn lemma_sped_up_n_progress(self, n: nat)
        requires
            self.wf(),
            self.spec_vy() != 0,
        ensures
            self.spec_sped_up_n(n).wf(),
            self.spec_sped_up_n(n).spec_speed_sq() == MAX_SPEED_SQ || (self.spec_sped_up_n(
                n,
            ).spec_vy() != 0 && self.spec_sped_up_n(n).spec_speed_sq() >= self.spec_speed_sq() + 3
                * n),
        decreases n,
    {
        if n > 0 {
            self.lemma_sped_up_n_progress((n - 1) as nat);
            let u = self.spec_sped_up_n((n - 1) as nat);
            if u.spec_speed_sq() == MAX_SPEED_SQ {
                u.lemma_cap_absorbing();
            } else {
                u.lemma_sped_up();
                assert(u.spec_vy() * u.spec_vy() >= 1) by (nonlinear_arith)
                    requires
                        u.spec_vy() != 0,
                ;
            }
        }
    }

    /// Repeated contacts never slow the ball down, and with any vertical
    /// motion at all its speed converges to exactly the maximum: after
    /// enough speed-ups the squared speed is exactly the cap, and it stays
    /// there. A purely horizontal velocity is the one exception: scaling its
    /// zero vertical component changes nothing, so it holds its speed
    /// forever instead.
    pub proof fn lemma_speed_converges_to_cap(self, n: nat)
        requires
            self.wf(),
            self.spec_vy() != 0,
            n >= MAX_SPEED_SQ,
        ensures
            self.spec_sped_up_n(n).spec_speed_sq() == MAX_SPEED_SQ,
    {
        self.lemma_sped_up_n_progress(n);
    }
}

/// `v` clamped into `[lo, hi]`.
pub open spec fn clamp_spec(v: int, lo: int, hi: int) -> int {
    if v < lo {
        lo
    } else if v > hi {
        hi
    } else {
        v
    }
}

} // verus!
