//! One trajectory: its current state and the window of its recent states.
use vstd::prelude::*;
use crate::orbit::{window, Orbit};

verus! {

/// A trajectory whose newest recorded state is always its current one.
pub struct Particle<T> {
    orbit: Orbit<T>,
    last: T,
}

impl<T> Particle<T> {
    pub closed spec fn well_formed(&self) -> bool {
        &&& self.orbit.well_formed()
        &&& self.orbit@.len() > 0
        &&& self.last == self.orbit@.last()
    }

    /// The largest number of states the orbit keeps.
    pub closed spec fn orbit_len(&self) -> nat {
        self.orbit.cap()
    }

    pub closed spec fn spec_view(&self) -> Seq<T> {
        self.orbit@
    }
}

impl<T> View for Particle<T> {
    /// The recorded states, oldest first.
    type V = Seq<T>;

    open spec fn view(&self) -> Seq<T> {
        self.spec_view()
    }
}

impl<T: Copy> Particle<T> {
    /// A particle at `start` whose orbit is `orbit_len` copies of it, so that
    /// its trail has full length from the first frame.
    pub fn new(start: T, orbit_len: usize) -> (r: Self)
        requires
            orbit_len > 0,
        ensures
            r.well_formed(),
            r.orbit_len() == orbit_len,
            r@ == Seq::new(orbit_len as nat, |i: int| start),
    {
        let orbit = Orbit::filled(start, orbit_len);
        assert(orbit@.last() == start);
        Particle { orbit, last: start }
    }

    /// Moves the particle to `next`, the integrator's step from its current
    /// state, and records it as the newest state of the orbit.
    pub fn advance(&mut self, next: T)
        requires
            old(self).well_formed(),
        ensures
            final(self).well_formed(),
            final(self).orbit_len() == old(self).orbit_len(),
            final(self)@ == window(old(self)@.push(next), old(self).orbit_len()),
            final(self)@.last() == next,
    {
        self.orbit.push(next);
        self.last = next;
    }

    /// The current state.
    pub fn last(&self) -> (r: T)
        requires
            self.well_formed(),
        ensures
            r == self@.last(),
    {
        self.last
    }

    /// The recorded states, oldest first.
    pub fn orbit(&self) -> (r: Vec<T>)
        requires
            self.well_formed(),
        ensures
            r@ == self@,
    {
        self.orbit.to_vec()
    }
}

} // verus!
