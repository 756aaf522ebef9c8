use crate::vector2::{Vector2, UNITS_PER_PIXEL};
use vstd::prelude::*;

verus! {

/// Microseconds in one second: time steps are counted in microseconds.
pub const MICROS_PER_SECOND: i64 = 1_000_000;

/// Below this speed (units per frame) a bounce leaves the body at rest.
pub const REST_SPEED: i64 = 200;

/// Position and size of a body; the position is its top-left corner in units,
/// the size is in whole pixels.
#[derive(Clone, Copy, Debug, PartialEq, Eq, Structural)]
pub struct Transform {
    pub position: Vector2,
    pub width: u32,
    pub height: u32,
}

impl Transform {
    pub fn new(x: i64, y: i64, w: u32, h: u32) -> (r: Transform)
        ensures
            r.position == (Vector2 { x, y }),
            r.width == w,
            r.height == h,
    {
        Transform { position: Vector2::new(x, y), width: w, height: h }
    }
}

/// The rectangle that bodies are confined to, in whole pixels.
#[derive(Clone, Copy, Debug, PartialEq, Eq, Structural)]
pub struct Bounds {
    pub x: i32,
    pub y: i32,
    pub w: u32,
    pub h: u32,
}

impl Bounds {
    pub fn new(x: i32, y: i32, w: u32, h: u32) -> (r: Bounds)
        ensures
            r == (Bounds { x, y, w, h }),
    {
        Bounds { x, y, w, h }
    }

    pub open spec fn lower_x(self) -> int {
        self.x * UNITS_PER_PIXEL
    }

    pub open spec fn upper_x(self) -> int {
        (self.x + self.w) * UNITS_PER_PIXEL
    }

    pub open spec fn lower_y(self) -> int {
        self.y * UNITS_PER_PIXEL
    }

    pub open spec fn upper_y(self) -> int {
        (self.y + self.h) * UNITS_PER_PIXEL
    }
}

pub open spec fn abs(v: int) -> int {
    if v < 0 {
        -v
    } else {
        v
    }
}

/// `n / d` rounded toward zero.
pub open spec fn div_toward_zero(n: int, d: int) -> int {
    if n >= 0 {
        n / d
    } else {
        -((-n) / d)
    }
}

/// The velocity that acceleration `a` adds over `dt` microseconds.
pub open spec fn velocity_gain(a: int, dt: int) -> int {
    div_toward_zero(a * dt, MICROS_PER_SECOND as int)
}

/// Speed kept by a bounce at velocity `v`: three tenths of the speed are lost.
pub open spec fn kept_speed(v: int) -> int {
    abs(v) - (3 * abs(v)) / 10
}

/// A bounce at velocity `v` leaves the body slower than `REST_SPEED`: seven
/// tenths of its speed, taken exactly, fall below the rest speed.
pub open spec fn comes_to_rest(v: int) -> bool {
    7 * abs(v) < 10 * REST_SPEED
}

/// Speed after a bounce of a body that hit at velocity `v`: the kept speed,
/// or 0 when the body comes to rest.
pub open spec fn bounce_speed(v: int) -> int {
    if comes_to_rest(v) {
        0
    } else {
        kept_speed(v)
    }
}

/// Position and velocity along one axis after a step, from position `c`,
/// velocity `v` and acceleration `a`, within `[lower, upper]` for a body of
/// length `extent`. `high_first` says which edge is checked first when both
/// are crossed. A free body moves by its new velocity; a body past an edge is
/// reflected back across it and bounces.
pub open spec fn axis_step(
    c: int,
    v: int,
    a: int,
    dt: int,
    lower: int,
    upper: int,
    extent: int,
    high_first: bool,
) -> (int, int) {
    let nv = v + velocity_gain(a, dt);
    let low = c < lower;
    let high = c + extent > upper;
    if low && !(high_first && high) {
        (2 * lower - c, bounce_speed(v))
    } else if high {
        (2 * upper - 2 * extent - c, -bounce_speed(v))
    } else {
        (c + nv, nv)
    }
}

pub open spec fn fits_i64(v: int) -> bool {
    i64::MIN <= v <= i64::MAX
}

/// A body: its transform, velocity (units per frame) and acceleration (units
/// per frame per second).
#[derive(Clone, Copy, Debug, PartialEq, Eq, Structural)]
pub struct Physics {
    pub transform: Transform,
    pub velocity: Vector2,
    pub acceleration: Vector2,
}

impl Physics {
    pub fn new(transform: Transform, velocity: Vector2, acceleration: Vector2) -> (r: Physics)
        ensures
            r == (Physics { transform, velocity, acceleration }),
    {
        Physics { transform, velocity, acceleration }
    }

    /// Vertical position and velocity after a step of `dt` microseconds.
    pub open spec fn step_y(self, dt: int, b: Bounds) -> (int, int) {
        axis_step(
            self.transform.position.y as int,
            self.velocity.y as int,
            self.acceleration.y as int,
            dt,
            b.lower_y(),
            b.upper_y(),
            self.transform.height * UNITS_PER_PIXEL,
            false,
        )
    }

    /// Horizontal position and velocity after a step of `dt` microseconds.
    pub open spec fn step_x(self, dt: int, b: Bounds) -> (int, int) {
        axis_step(
            self.transform.position.x as int,
            self.velocity.x as int,
            self.acceleration.x as int,
            dt,
            b.lower_x(),
            b.upper_x(),
            self.transform.width * UNITS_PER_PIXEL,
            true,
        )
    }

    /// Whether a step of `dt` is taken: its results fit the fields.
    pub open spec fn step_fits(self, dt: int, b: Bounds) -> bool {
        &&& fits_i64(self.step_x(dt, b).0)
        &&& fits_i64(self.step_x(dt, b).1)
        &&& fits_i64(self.step_y(dt, b).0)
        &&& fits_i64(self.step_y(dt, b).1)
    }

    /// The body after a step of `dt` microseconds.
    pub open spec fn stepped(self, dt: int, b: Bounds) -> Physics {
        Physics {
            transform: Transform {
                position: Vector2 { x: self.step_x(dt, b).0 as i64, y: self.step_y(dt, b).0 as i64 },
                ..self.transform
            },
            velocity: Vector2 { x: self.step_x(dt, b).1 as i64, y: self.step_y(dt, b).1 as i64 },
            acceleration: self.acceleration,
        }
    }

    /// Advances the body by `dt` microseconds within `bounds`: velocity grows
    /// by acceleration times `dt`, position grows by the new velocity, and on
    /// each axis a body past an edge is reflected and bounces. Returns whether
    /// the step was taken; when it does not fit, the body is left as it was.
    pub fn update(&mut self, dt: u64, bounds: &Bounds) -> (moved: bool)
        ensures
            moved == old(self).step_fits(dt as int, *bounds),
            moved ==> *final(self) == old(self).stepped(dt as int, *bounds),
            !moved ==> *final(self) == *old(self),
    {
        let u = UNITS_PER_PIXEL as i128;
        let (py, vy) = axis_update(
            self.transform.position.y,
            self.velocity.y,
            self.acceleration.y,
            dt,
            bounds.y as i128 * u,
            (bounds.y as i128 + bounds.h as i128) * u,
            self.transform.height as i128 * u,
            false,
        );
        let (px, vx) = axis_update(
            self.transform.position.x,
            self.velocity.x,
            self.acceleration.x,
            dt,
            bounds.x as i128 * u,
            (bounds.x as i128 + bounds.w as i128) * u,
            self.transform.width as i128 * u,
            true,
        );
        let lo = i64::MIN as i128;
        let hi = i64::MAX as i128;
        if px < lo || px > hi || vx < lo || vx > hi || py < lo || py > hi || vy < lo || vy > hi {
            return false;
        }
        self.transform.position.x = px as i64;
        self.transform.position.y = py as i64;
        self.velocity.x = vx as i64;
        self.velocity.y = vy as i64;
        true
    }
}

/// One axis of `Physics::update`, computed without overflow in `i128`.
fn axis_update(
    c: i64,
    v: i64,
    a: i64,
    dt: u64,
    lower: i128,
    upper: i128,
    extent: i128,
    high_first: bool,
) -> (r: (i128, i128))
    requires
        -0x10_0000_0000_0000 <= lower <= 0x10_0000_0000_0000,
        -0x10_0000_0000_0000 <= upper <= 0x10_0000_0000_0000,
        0 <= extent <= 0x10_0000_0000_0000,
    ensures
        r.0 as int == axis_step(c as int, v as int, a as int, dt as int, lower as int, upper as int, extent as int, high_first).0,
        r.1 as int == axis_step(c as int, v as int, a as int, dt as int, lower as int, upper as int, extent as int, high_first).1,
{
    let gain = velocity_gain_of(a, dt);
    let nv = v as i128 + gain;
    let c = c as i128;
    let low = c < lower;
    let high = c + extent > upper;
    if low && !(high_first && high) {
        (2 * lower - c, bounce_speed_of(v))
    } else if high {
        (2 * upper - 2 * extent - c, -bounce_speed_of(v))
    } else {
        (c + nv, nv)
    }
}

fn velocity_gain_of(a: i64, dt: u64) -> (r: i128)
    ensures
        r == velocity_gain(a as int, dt as int),
        -0x1_0000_0000_0000_0000_0000_0000_0000 <= r <= 0x1_0000_0000_0000_0000_0000_0000_0000,
{
    let ai = a as i128;
    let di = dt as i128;
    assert(-0x8000_0000_0000_0000 * 0xFFFF_FFFF_FFFF_FFFF <= ai * di <= 0x8000_0000_0000_0000 * 0xFFFF_FFFF_FFFF_FFFF)
        by (nonlinear_arith)
        requires
            -0x8000_0000_0000_0000 <= ai <= 0x8000_0000_0000_0000,
            0 <= di <= 0xFFFF_FFFF_FFFF_FFFF,
    ;
    let p = ai * di;
    let m = MICROS_PER_SECOND as i128;
    if p >= 0 {
        p / m
    } else {
        -((-p) / m)
    }
}

fn bounce_speed_of(v: i64) -> (r: i128)
    ensures
        r == bounce_speed(v as int),
        0 <= r <= 0x1_0000_0000_0000_0000,
{
    let s: i128 = if v < 0 {
        -(v as i128)
    } else {
        v as i128
    };
    if 7 * s < 10 * (REST_SPEED as i128) {
        0
    } else {
        s - (3 * s) / 10
    }
}

/// Confinement along the vertical axis: a body whose top edge was above the
/// bounds comes back to or below the top edge; one whose bottom edge was past
/// the bottom comes back to or above it; a body within the bounds moves by its
/// new velocity, so it overshoots an edge by at most one frame's travel, and
/// that overshoot is corrected by the next step.
pub proof fn lemma_confined_y(p: Physics, dt: int, b: Bounds)
    ensures
        ({
            let c = p.transform.position.y as int;
            let e = p.transform.height * UNITS_PER_PIXEL;
            let (np, nv) = p.step_y(dt, b);
            &&& c < b.lower_y() ==> np >= b.lower_y()
            &&& !(c < b.lower_y()) && c + e > b.upper_y() ==> np + e <= b.upper_y()
            &&& b.lower_y() <= c && c + e <= b.upper_y() ==> {
                &&& np == c + nv
                &&& b.lower_y() - abs(nv) <= np
                &&& np + e <= b.upper_y() + abs(nv)
            }
        }),
{
}

/// Confinement along the horizontal axis, as `lemma_confined_y` states it for
/// the vertical one; there the right edge is checked before the left.
pub proof fn lemma_confined_x(p: Physics, dt: int, b: Bounds)
    ensures
        ({
            let c = p.transform.position.x as int;
            let e = p.transform.width * UNITS_PER_PIXEL;
            let (np, nv) = p.step_x(dt, b);
            &&& c + e > b.upper_x() ==> np + e <= b.upper_x()
            &&& !(c + e > b.upper_x()) && c < b.lower_x() ==> np >= b.lower_x()
            &&& b.lower_x() <= c && c + e <= b.upper_x() ==> {
                &&& np == c + nv
                &&& b.lower_x() - abs(nv) <= np
                &&& np + e <= b.upper_x() + abs(nv)
            }
        }),
{
}

/// Restitution: a body whose bottom edge has passed the bottom of the bounds
/// (and whose top edge has not passed the top) bounces upward with seven
/// tenths of the speed it hit with, short of less than one unit, and is
/// stopped exactly when seven tenths of that speed fall below `REST_SPEED`;
/// a body that keeps moving is never slower than `REST_SPEED`.
pub proof fn lemma_restitution(p: Physics, dt: int, b: Bounds)
    requires
        b.lower_y() <= p.transform.position.y,
        p.transform.position.y + p.transform.height * UNITS_PER_PIXEL > b.upper_y(),
    ensures
        ({
            let s = abs(p.velocity.y as int);
            let nv = p.step_y(dt, b).1;
            &&& nv <= 0
            &&& nv == 0 || nv == -kept_speed(p.velocity.y as int)
            &&& 7 * s <= 10 * kept_speed(p.velocity.y as int) < 7 * s + 10
            &&& 7 * s < 10 * REST_SPEED ==> nv == 0
            &&& 7 * s >= 10 * REST_SPEED ==> 7 * s <= 10 * abs(nv) < 7 * s + 10
            &&& nv != 0 ==> abs(nv) >= REST_SPEED
        }),
{
}

} // verus!
