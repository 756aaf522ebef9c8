use crate::physics::{fits_i64, Bounds, Physics, Transform};
use crate::registry::{has_id, Immunity, Pest, Registry};
use crate::vector2::{Vector2, UNITS_PER_PIXEL};
use vstd::prelude::*;

verus! {

/// Side of a pest's square window, in pixels.
pub const PEST_SIZE: u32 = 200;

/// Gravity, in units per frame per second.
pub const GRAVITY_X: i64 = 0;

pub const GRAVITY_Y: i64 = 3810;

/// A replacement pest's velocity components are drawn from `[0, this)`.
pub const REPLACEMENT_SPEED: i64 = 10 * UNITS_PER_PIXEL;

/// A flood pest's velocity components are drawn from `[-this, this)`.
pub const FLOOD_SPEED: i64 = 10 * UNITS_PER_PIXEL;

/// The first pest's age after which flood mode starts, in microseconds.
pub const FLOOD_AFTER_MICROS: u64 = 5_000_000;

/// The time between two flood spawns, in microseconds.
pub const FLOOD_INTERVAL_MICROS: u64 = 150_000;

/// The playable area of a display `display_w` by `display_h` pixels: 10
/// pixels in from the top-left corner, 20 pixels narrower and 80 pixels
/// shorter than the display. None when that leaves no room to spawn a pest:
/// no width, or a height of no more than `PEST_SIZE`.
pub fn screen_bounds(display_w: u32, display_h: u32) -> (r: Option<Bounds>)
    ensures
        r is None <==> display_w <= 20 || display_h <= 80 + PEST_SIZE,
        r is Some ==> r == Some(Bounds { x: 10, y: 10, w: (display_w - 20) as u32, h: (display_h - 80) as u32 }),
        r matches Some(b) ==> b.w > 0 && b.h > PEST_SIZE,
{
    if display_w <= 20 || display_h <= 80 + PEST_SIZE {
        None
    } else {
        Some(Bounds::new(10, 10, display_w - 20, display_h - 80))
    }
}

/// What a new pest is made of, once its window exists: the top-left corner in
/// units, its immunity and its initial velocity.
#[derive(Clone, Copy, Debug, PartialEq, Eq, Structural)]
pub struct SpawnRequest {
    pub x: i64,
    pub y: i64,
    pub immunity: Immunity,
    pub velocity: Vector2,
}

impl SpawnRequest {
    /// The body of the pest: `PEST_SIZE` square at the requested corner,
    /// with the requested velocity, under gravity.
    pub open spec fn body(self) -> Physics {
        Physics {
            transform: Transform {
                position: Vector2 { x: self.x, y: self.y },
                width: PEST_SIZE,
                height: PEST_SIZE,
            },
            velocity: self.velocity,
            acceleration: Vector2 { x: GRAVITY_X, y: GRAVITY_Y },
        }
    }

    pub fn physics(&self) -> (r: Physics)
        ensures
            r == self.body(),
    {
        Physics::new(
            Transform::new(self.x, self.y, PEST_SIZE, PEST_SIZE),
            self.velocity,
            Vector2::new(GRAVITY_X, GRAVITY_Y),
        )
    }
}

/// A pest at the pixel `(x, y)`.
pub fn spawn_at(x: i64, y: i64, immunity: Immunity, velocity: Vector2) -> (r: SpawnRequest)
    requires
        fits_i64(x * UNITS_PER_PIXEL),
        fits_i64(y * UNITS_PER_PIXEL),
    ensures
        r.x == x * UNITS_PER_PIXEL,
        r.y == y * UNITS_PER_PIXEL,
        r.immunity == immunity,
        r.velocity == velocity,
{
    SpawnRequest {
        x: x * UNITS_PER_PIXEL,
        y: y * UNITS_PER_PIXEL,
        immunity,
        velocity,
    }
}

/// `r` lies on a whole pixel of the spawn area of `b`: the bounds less a
/// pest's height at the bottom.
pub open spec fn in_spawn_area(r: SpawnRequest, b: Bounds) -> bool {
    &&& r.x % UNITS_PER_PIXEL == 0
    &&& r.y % UNITS_PER_PIXEL == 0
    &&& b.x * UNITS_PER_PIXEL <= r.x < (b.x + b.w) * UNITS_PER_PIXEL
    &&& b.y * UNITS_PER_PIXEL <= r.y < (b.y + b.h - PEST_SIZE) * UNITS_PER_PIXEL
}

/// A pest at a pixel drawn uniformly from the spawn area of `bounds`.
pub fn spawn_random(bounds: &Bounds, immunity: Immunity, velocity: Vector2) -> (r: SpawnRequest)
    requires
        bounds.w > 0,
        bounds.h > PEST_SIZE,
    ensures
        in_spawn_area(r, *bounds),
        r.immunity == immunity,
        r.velocity == velocity,
{
    let px = crate::rng::random_in(bounds.x as i64, bounds.x as i64 + bounds.w as i64);
    let py = crate::rng::random_in(
        bounds.y as i64,
        bounds.y as i64 + bounds.h as i64 - PEST_SIZE as i64,
    );
    spawn_at(px, py, immunity, velocity)
}

/// `r` replaces a killed pest: it lies in the spawn area of `b`, has the
/// given immunity, and a velocity in `[0, REPLACEMENT_SPEED)` on each axis.
pub open spec fn is_replacement(r: SpawnRequest, b: Bounds, immunity: Immunity) -> bool {
    &&& in_spawn_area(r, b)
    &&& r.immunity == immunity
    &&& 0 <= r.velocity.x < REPLACEMENT_SPEED
    &&& 0 <= r.velocity.y < REPLACEMENT_SPEED
}

fn spawn_replacement(bounds: &Bounds, immunity: Immunity) -> (r: SpawnRequest)
    requires
        bounds.w > 0,
        bounds.h > PEST_SIZE,
    ensures
        is_replacement(r, *bounds, immunity),
{
    spawn_random(bounds, immunity, Vector2::new_rand(0..REPLACEMENT_SPEED))
}

/// An input or window event, addressed to a window where it has one.
#[derive(Clone, Copy, Debug, PartialEq, Eq, Structural)]
pub enum Event {
    LeftClick { window_id: u32 },
    RightClick,
    TakeFocus { window_id: u32 },
    Quit,
    Other,
}

/// What the frame loop does after an event.
pub enum Outcome<W> {
    Continue,
    /// Close the window of `killed`, if any, and spawn `spawn`.
    Replace { killed: Option<Pest<W>>, spawn: SpawnRequest },
    /// Crash the process on purpose.
    Abort,
    Quit,
}

/// `new` is `old` after a kill of `id` that handed back `killed`.
pub open spec fn killed_by<W>(
    old: Seq<Pest<W>>,
    new: Seq<Pest<W>>,
    id: u32,
    killed: Option<Pest<W>>,
) -> bool {
    &&& has_id(old, id) <==> killed is Some
    &&& killed is None ==> new == old
    &&& killed is Some ==> exists|i: int|
        0 <= i < old.len() && old[i].window_id == id && killed == Some(old[i]) && new
            == old.remove(i)
}

/// Whether `b` leaves room to spawn a pest.
pub open spec fn can_spawn_in(b: Bounds) -> bool {
    b.w > 0 && b.h > PEST_SIZE
}

impl<W> Registry<W> {
    /// Whether `event` asks for a replacement pest: a left click always does;
    /// a focus event does, unless `alt_held`, when it reaches a vulnerable pest.
    pub open spec fn spawns_replacement(&self, event: Event, alt_held: bool) -> bool {
        match event {
            Event::LeftClick { .. } => true,
            Event::TakeFocus { window_id } => !alt_held && exists|i: int|
                0 <= i < self@.len() && self@[i].window_id == window_id && self@[i].immunity
                    == Immunity::Vulnerable,
            _ => false,
        }
    }

    /// Makes the pest that `request` describes, for a window already created,
    /// and adds it. A window identifier already taken hands the window back.
    pub fn spawn(&mut self, window: W, window_id: u32, request: &SpawnRequest) -> (r: Result<(), W>)
        requires
            old(self).wf(),
        ensures
            final(self).wf(),
            has_id(old(self)@, window_id) <==> r is Err,
            r is Ok ==> final(self)@ == old(self)@.push(
                Pest {
                    window,
                    window_id,
                    physics: request.body(),
                    immunity: request.immunity,
                    time_alive: 0,
                },
            ),
            r is Err ==> final(self)@ == old(self)@ && r == Err::<(), W>(window),
    {
        let pest = Pest::new(window, window_id, request.immunity, request.physics());
        match self.insert(pest) {
            Ok(()) => Ok(()),
            Err(p) => Err(p.window),
        }
    }

    /// Applies one event. A left click kills the clicked pest whatever its
    /// immunity and asks for a vulnerable replacement. A focus event, unless
    /// `alt_held`, takes the immunity of an `OnFirstFocus` pest, or kills a
    /// vulnerable one and asks for an `OnFirstFocus` replacement; an `Always`
    /// pest ignores it. A right click aborts; quit quits.
    pub fn handle_event(&mut self, event: Event, alt_held: bool, bounds: &Bounds) -> (r: Outcome<W>)
        requires
            old(self).wf(),
            old(self).spawns_replacement(event, alt_held) ==> can_spawn_in(*bounds),
        ensures
            final(self).wf(),
            match event {
                Event::LeftClick { window_id } => match r {
                    Outcome::Replace { killed, spawn } => {
                        &&& killed_by(old(self)@, final(self)@, window_id, killed)
                        &&& is_replacement(spawn, *bounds, Immunity::Vulnerable)
                    },
                    _ => false,
                },
                Event::TakeFocus { window_id } => {
                    let s = old(self)@;
                    if alt_held || !has_id(s, window_id) {
                        r is Continue && final(self)@ == s
                    } else {
                        exists|i: int|
                            0 <= i < s.len() && s[i].window_id == window_id && match s[i].immunity {
                                Immunity::OnFirstFocus => r is Continue && final(self)@ == s.update(
                                    i,
                                    Pest { immunity: Immunity::Vulnerable, ..s[i] },
                                ),
                                Immunity::Vulnerable => match r {
                                    Outcome::Replace { killed, spawn } => {
                                        &&& killed == Some(s[i])
                                        &&& final(self)@ == s.remove(i)
                                        &&& is_replacement(spawn, *bounds, Immunity::OnFirstFocus)
                                    },
                                    _ => false,
                                },
                                Immunity::Always => r is Continue && final(self)@ == s,
                            }
                    }
                },
                Event::RightClick => r is Abort && final(self)@ == old(self)@,
                Event::Quit => r is Quit && final(self)@ == old(self)@,
                Event::Other => r is Continue && final(self)@ == old(self)@,
            },
    {
        match event {
            Event::LeftClick { window_id } => {
                let killed = self.kill(window_id);
                let spawn = spawn_replacement(bounds, Immunity::Vulnerable);
                Outcome::Replace { killed, spawn }
            },
            Event::TakeFocus { window_id } => {
                if alt_held {
                    return Outcome::Continue;
                }
                match self.find(window_id) {
                    None => Outcome::Continue,
                    Some(i) => {
                        let immunity = self.get(i).immunity;
                        match immunity {
                            Immunity::OnFirstFocus => {
                                self.set_immunity(i, Immunity::Vulnerable);
                                Outcome::Continue
                            },
                            Immunity::Vulnerable => {
                                let killed = self.kill(window_id);
                                let spawn = spawn_replacement(bounds, Immunity::OnFirstFocus);
                                Outcome::Replace { killed, spawn }
                            },
                            Immunity::Always => Outcome::Continue,
                        }
                    },
                }
            },
            Event::RightClick => Outcome::Abort,
            Event::Quit => Outcome::Quit,
            Event::Other => Outcome::Continue,
        }
    }
}

/// Whether flood mode is on after a frame that found it `active` and the
/// first pest aged `first_alive` (none when the registry is empty).
pub open spec fn flood_next(active: bool, first_alive: Option<u64>) -> bool {
    active || match first_alive {
        Some(t) => t > FLOOD_AFTER_MICROS,
        None => false,
    }
}

/// Flood mode after frames that saw the first pest's ages `ages`, in order,
/// starting from `active`.
pub open spec fn flood_after(active: bool, ages: Seq<Option<u64>>) -> bool
    decreases ages.len(),
{
    if ages.len() == 0 {
        active
    } else {
        flood_next(flood_after(active, ages.drop_last()), ages.last())
    }
}

/// Flood mode: once on, a pest is spawned at the screen's centre every
/// `FLOOD_INTERVAL_MICROS`.
#[derive(Clone, Copy, Debug, PartialEq, Eq, Structural)]
pub struct Flood {
    pub active: bool,
}

impl Flood {
    pub fn new() -> (r: Flood)
        ensures
            !r.active,
    {
        Flood { active: false }
    }

    /// One frame: turns flood mode on when the first pest has lived longer
    /// than `FLOOD_AFTER_MICROS`, and says whether a flood pest is due, the
    /// spawn timer showing `since_spawn`; the caller resets the timer when so.
    pub fn tick(&mut self, first_alive: Option<u64>, since_spawn: u64) -> (spawn_now: bool)
        ensures
            final(self).active == flood_next(old(self).active, first_alive),
            spawn_now == (final(self).active && since_spawn > FLOOD_INTERVAL_MICROS),
    {
        match first_alive {
            Some(t) => {
                if t > FLOOD_AFTER_MICROS {
                    self.active = true;
                }
            },
            None => {},
        }
        self.active && since_spawn > FLOOD_INTERVAL_MICROS
    }
}

/// A flood pest: at the centre of a display `display_w` by `display_h`
/// pixels, vulnerable, with a velocity in `[-FLOOD_SPEED, FLOOD_SPEED)` on
/// each axis.
pub fn flood_spawn(display_w: u32, display_h: u32) -> (r: SpawnRequest)
    ensures
        r.x == (display_w / 2) * UNITS_PER_PIXEL,
        r.y == (display_h / 2) * UNITS_PER_PIXEL,
        r.immunity == Immunity::Vulnerable,
        -FLOOD_SPEED <= r.velocity.x < FLOOD_SPEED,
        -FLOOD_SPEED <= r.velocity.y < FLOOD_SPEED,
{
    let velocity = Vector2::new_rand(-FLOOD_SPEED..FLOOD_SPEED);
    SpawnRequest {
        x: (display_w / 2) as i64 * UNITS_PER_PIXEL,
        y: (display_h / 2) as i64 * UNITS_PER_PIXEL,
        immunity: Immunity::Vulnerable,
        velocity,
    }
}

/// Flood mode never turns off: if it is on after the first `i` frames of a
/// run, it is on after every later frame, whatever the first pest's age was
/// then, and also when there was no first pest any more.
pub proof fn lemma_flood_persists(active: bool, ages: Seq<Option<u64>>, i: int, j: int)
    requires
        0 <= i <= j <= ages.len(),
        flood_after(active, ages.take(i)),
    ensures
        flood_after(active, ages.take(j)),
    decreases j - i,
{
    if i < j {
        lemma_flood_persists(active, ages, i, j - 1);
        assert(ages.take(j).drop_last() =~= ages.take(j - 1));
    }
}

} // verus!
