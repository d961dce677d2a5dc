//! The set of independent particles that share one scene, and the count of
//! ticks from which the scene's rotation angle is derived.
use vstd::prelude::*;
use crate::orbit::window;
use crate::particle::Particle;

verus! {

/// A fixed set of particles advanced together, once per tick.
pub struct Ensemble<T> {
    particles: Vec<Particle<T>>,
    ticks: u64,
    orbit_len: usize,
}

impl<T> Ensemble<T> {
    pub closed spec fn well_formed(&self) -> bool {
        &&& self.orbit_len > 0
        &&& forall|i: int|
            0 <= i < self.particles@.len() ==> {
                &&& (#[trigger] self.particles@[i]).well_formed()
                &&& self.particles@[i].orbit_len() == self.orbit_len
            }
    }

    /// Each particle's recorded states, oldest first.
    pub closed spec fn orbits(&self) -> Seq<Seq<T>> {
        self.particles@.map_values(|p: Particle<T>| p@)
    }

    /// Ticks elapsed since the ensemble was made; the scene's rotation angle is
    /// this count times the angle per tick.
    pub closed spec fn ticks(&self) -> nat {
        self.ticks as nat
    }

    /// The number of states each particle's orbit keeps.
    pub closed spec fn orbit_len(&self) -> nat {
        self.orbit_len as nat
    }
}

impl<T: Copy> Ensemble<T> {
    /// One particle at each of `starts`, each orbit filled with copies of its
    /// start, at tick zero.
    pub fn new(starts: &Vec<T>, orbit_len: usize) -> (r: Self)
        requires
            orbit_len > 0,
        ensures
            r.well_formed(),
            r.ticks() == 0,
            r.orbit_len() == orbit_len,
            r.orbits().len() == starts@.len(),
            forall|i: int|
                0 <= i < starts@.len() ==> #[trigger] r.orbits()[i] == Seq::new(
                    orbit_len as nat,
                    |k: int| starts@[i],
                ),
    {
        let mut particles: Vec<Particle<T>> = Vec::new();
        let mut i: usize = 0;
        while i < starts.len()
            invariant
                orbit_len > 0,
                i <= starts@.len(),
                particles@.len() == i,
                forall|j: int|
                    0 <= j < i ==> {
                        &&& (#[trigger] particles@[j]).well_formed()
                        &&& particles@[j].orbit_len() == orbit_len
                        &&& particles@[j]@ == Seq::new(orbit_len as nat, |k: int| starts@[j])
                    },
            decreases starts@.len() - i,
        {
            particles.push(Particle::new(starts[i], orbit_len));
            i = i + 1;
        }
        Ensemble { particles, ticks: 0, orbit_len }
    }

    /// One tick: each particle moves to its entry of `nexts` (the integrator's
    /// step from its current state), and the tick count goes up by one.
    pub fn advance(&mut self, nexts: &Vec<T>)
        requires
            old(self).well_formed(),
            nexts@.len() == old(self).orbits().len(),
            old(self).ticks() < u64::MAX,
        ensures
            final(self).well_formed(),
            final(self).ticks() == old(self).ticks() + 1,
            final(self).orbit_len() == old(self).orbit_len(),
            final(self).orbits().len() == old(self).orbits().len(),
            forall|i: int|
                0 <= i < nexts@.len() ==> #[trigger] final(self).orbits()[i] == window(
                    old(self).orbits()[i].push(nexts@[i]),
                    old(self).orbit_len(),
                ),
    {
        let n = self.particles.len();
        let mut i: usize = 0;
        while i < n
            invariant
                n == self.particles@.len(),
                n == nexts@.len(),
                i <= n,
                self.orbit_len == old(self).orbit_len,
                self.ticks == old(self).ticks,
                old(self).particles@.len() == n,
                old(self).well_formed(),
                self.well_formed(),
                forall|j: int|
                    0 <= j < i ==> (#[trigger] self.particles@[j])@ == window(
                        old(self).particles@[j]@.push(nexts@[j]),
                        self.orbit_len as nat,
                    ),
                forall|j: int| i <= j < n ==> #[trigger] self.particles@[j] == old(self).particles@[j],
            decreases n - i,
        {
            self.particles[i].advance(nexts[i]);
            i = i + 1;
        }
        self.ticks = self.ticks + 1;
    }

    /// The number of particles.
    pub fn len(&self) -> (r: usize)
        ensures
            r == self.orbits().len(),
    {
        self.particles.len()
    }

    /// Ticks elapsed since the ensemble was made.
    pub fn ticks_elapsed(&self) -> (r: u64)
        ensures
            r == self.ticks(),
    {
        self.ticks
    }

    /// The current state of every particle, in particle order.
    pub fn lasts(&self) -> (r: Vec<T>)
        requires
            self.well_formed(),
        ensures
            r@.len() == self.orbits().len(),
            forall|i: int| 0 <= i < r@.len() ==> #[trigger] r@[i] == self.orbits()[i].last(),
    {
        let mut r: Vec<T> = Vec::new();
        let mut i: usize = 0;
        while i < self.particles.len()
            invariant
                self.well_formed(),
                i <= self.particles@.len(),
                r@.len() == i,
                forall|j: int| 0 <= j < i ==> #[trigger] r@[j] == self.particles@[j]@.last(),
            decreases self.particles@.len() - i,
        {
            r.push(self.particles[i].last());
            i = i + 1;
        }
        r
    }

    /// The recorded states of particle `i`, oldest first.
    pub fn orbit(&self, i: usize) -> (r: Vec<T>)
        requires
            self.well_formed(),
            i < self.orbits().len(),
        ensures
            r@ == self.orbits()[i as int],
    {
        self.particles[i].orbit()
    }
}

} // verus!
