use crate::physics::{Bounds, Physics};
use vstd::prelude::*;

verus! {

/// Whether a focus event may kill a pest.
#[derive(Clone, Copy, Debug, PartialEq, Eq, Structural)]
pub enum Immunity {
    Vulnerable,
    OnFirstFocus,
    Always,
}

/// A bouncing window: its handle `W`, the identifier the windowing toolkit
/// gave it, its body, its immunity, and how long it has lived (microseconds).
pub struct Pest<W> {
    pub window: W,
    pub window_id: u32,
    pub physics: Physics,
    pub immunity: Immunity,
    pub time_alive: u64,
}

impl<W> Pest<W> {
    /// A pest that has just been spawned.
    pub fn new(window: W, window_id: u32, immunity: Immunity, physics: Physics) -> (r: Pest<W>)
        ensures
            r == (Pest { window, window_id, physics, immunity, time_alive: 0 }),
    {
        Pest { window, window_id, physics, immunity, time_alive: 0 }
    }
}

/// The live pests, at most one for each window identifier, in spawn order.
pub struct Registry<W> {
    pests: Vec<Pest<W>>,
}

impl<W> View for Registry<W> {
    type V = Seq<Pest<W>>;

    closed spec fn view(&self) -> Seq<Pest<W>> {
        self.pests@
    }
}

/// No two pests of `s` share a window identifier.
pub open spec fn ids_unique<W>(s: Seq<Pest<W>>) -> bool {
    forall|i: int, j: int|
        0 <= i < s.len() && 0 <= j < s.len() && i != j ==> s[i].window_id != s[j].window_id
}

/// Some pest of `s` has window identifier `id`.
pub open spec fn has_id<W>(s: Seq<Pest<W>>, id: u32) -> bool {
    exists|i: int| 0 <= i < s.len() && s[i].window_id == id
}

impl<W> Registry<W> {
    pub open spec fn wf(&self) -> bool {
        ids_unique(self@)
    }

    pub fn new() -> (r: Registry<W>)
        ensures
            r@ == Seq::<Pest<W>>::empty(),
            r.wf(),
    {
        Registry { pests: Vec::new() }
    }

    pub fn len(&self) -> (r: usize)
        ensures
            r == self@.len(),
    {
        self.pests.len()
    }

    pub fn is_empty(&self) -> (r: bool)
        ensures
            r == (self@.len() == 0),
    {
        self.pests.len() == 0
    }

    pub fn get(&self, i: usize) -> (r: &Pest<W>)
        requires
            i < self@.len(),
        ensures
            *r == self@[i as int],
    {
        &self.pests[i]
    }

    /// The window of the pest at index `i`, to act on; the rest of the pest
    /// stays as it is.
    pub fn window_mut(&mut self, i: usize) -> (r: &mut W)
        requires
            old(self).wf(),
            i < old(self)@.len(),
        ensures
            *r == old(self)@[i as int].window,
            final(self)@ == old(self)@.update(i as int, Pest { window: *final(r), ..old(self)@[i as int] }),
            final(self).wf(),
    {
        &mut self.pests[i].window
    }

    /// The index of the pest with window identifier `id`, if there is one.
    pub fn find(&self, id: u32) -> (r: Option<usize>)
        ensures
            match r {
                Some(i) => i < self@.len() && self@[i as int].window_id == id,
                None => !has_id(self@, id),
            },
    {
        let mut i: usize = 0;
        while i < self.pests.len()
            invariant
                0 <= i <= self.pests@.len(),
                forall|k: int| 0 <= k < i ==> self.pests@[k].window_id != id,
            decreases self.pests@.len() - i,
        {
            if self.pests[i].window_id == id {
                return Some(i);
            }
            i += 1;
        }
        None
    }

    /// Adds a pest at the end. A pest whose window identifier is already
    /// taken is handed back and the registry is left as it was.
    pub fn insert(&mut self, pest: Pest<W>) -> (r: Result<(), Pest<W>>)
        requires
            old(self).wf(),
        ensures
            final(self).wf(),
            has_id(old(self)@, pest.window_id) <==> r is Err,
            r is Ok ==> final(self)@ == old(self)@.push(pest),
            r is Err ==> final(self)@ == old(self)@ && r == Err::<(), Pest<W>>(pest),
    {
        match self.find(pest.window_id) {
            Some(_) => Err(pest),
            None => {
                self.pests.push(pest);
                Ok(())
            },
        }
    }

    /// Removes the pest with window identifier `id` and hands it back, so that
    /// the caller closes its window; an unknown identifier changes nothing.
    pub fn kill(&mut self, id: u32) -> (killed: Option<Pest<W>>)
        requires
            old(self).wf(),
        ensures
            final(self).wf(),
            has_id(old(self)@, id) <==> killed is Some,
            killed is None ==> final(self)@ == old(self)@,
            killed is Some ==> exists|i: int|
                0 <= i < old(self)@.len() && old(self)@[i].window_id == id && killed == Some(
                    old(self)@[i],
                ) && final(self)@ == old(self)@.remove(i),
    {
        match self.find(id) {
            Some(i) => {
                let p = self.pests.remove(i);
                assert(forall|k: int|
                    0 <= k < self.pests@.len() ==> self.pests@[k] == if k < i {
                        old(self)@[k]
                    } else {
                        old(self)@[k + 1]
                    });
                Some(p)
            },
            None => None,
        }
    }

    /// Sets the immunity of the pest at index `i`.
    pub fn set_immunity(&mut self, i: usize, immunity: Immunity)
        requires
            old(self).wf(),
            i < old(self)@.len(),
        ensures
            final(self).wf(),
            final(self)@ == old(self)@.update(
                i as int,
                Pest { immunity, ..old(self)@[i as int] },
            ),
    {
        self.pests[i].immunity = immunity;
    }

    /// How long the first pest has lived, if there is one.
    pub fn first_time_alive(&self) -> (r: Option<u64>)
        ensures
            self@.len() == 0 ==> r is None,
            self@.len() > 0 ==> r == Some(self@[0].time_alive),
    {
        if self.pests.len() == 0 {
            None
        } else {
            Some(self.pests[0].time_alive)
        }
    }

    /// Advances the pest at index `i` by the frame's time `base_dt` plus
    /// `elapsed`, the time spent so far on this frame's batch of updates: its
    /// body takes a step of that length (when the step fits) and its age grows
    /// by it, saturating. Returns whether the body moved.
    pub fn update_pest(&mut self, i: usize, base_dt: u64, elapsed: u64, bounds: &Bounds) -> (moved: bool)
        requires
            old(self).wf(),
            i < old(self)@.len(),
        ensures
            final(self).wf(),
            ({
                let p = old(self)@[i as int];
                let dt = step_time(base_dt as int, elapsed as int);
                &&& moved == p.physics.step_fits(dt, *bounds)
                &&& final(self)@ == old(self)@.update(
                    i as int,
                    Pest {
                        physics: if moved {
                            p.physics.stepped(dt, *bounds)
                        } else {
                            p.physics
                        },
                        time_alive: step_time(p.time_alive as int, dt) as u64,
                        ..p
                    },
                )
            }),
            final(self)@[i as int].window_id == old(self)@[i as int].window_id,
            final(self)@[i as int].time_alive >= old(self)@[i as int].time_alive,
    {
        let dt = base_dt.saturating_add(elapsed);
        let p = &mut self.pests[i];
        let moved = p.physics.update(dt, bounds);
        p.time_alive = p.time_alive.saturating_add(dt);
        moved
    }
}

/// `a + b`, saturating at `u64::MAX`.
pub open spec fn step_time(a: int, b: int) -> int {
    if a + b > u64::MAX {
        u64::MAX as int
    } else {
        a + b
    }
}

} // verus!
