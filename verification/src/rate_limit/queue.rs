//! Admission control by a ceiling on the number of requests in flight.

use vstd::prelude::*;

verus! {

/// Counts the requests in flight and refuses one more once the ceiling is
/// reached. Without a ceiling every request is admitted.
#[derive(Debug)]
pub struct ConcurrencyLimiter {
    ceiling: Option<u32>,
    in_flight: u32,
}

impl ConcurrencyLimiter {
    #[verifier::type_invariant]
    spec fn within_ceiling(&self) -> bool {
        self.ceiling matches Some(c) ==> self.in_flight <= c
    }

    /// The ceiling, if there is one.
    pub closed spec fn spec_ceiling(&self) -> Option<u32> {
        self.ceiling
    }

    /// The number of requests admitted and not yet released.
    pub closed spec fn spec_in_flight(&self) -> u32 {
        self.in_flight
    }

    /// Whether one more request would be admitted.
    pub open spec fn has_room(&self) -> bool {
        match self.spec_ceiling() {
            Some(c) => self.spec_in_flight() < c,
            None => self.spec_in_flight() < u32::MAX,
        }
    }

    /// A limiter with nothing in flight.
    pub fn new(ceiling: Option<u32>) -> (limiter: Self)
        ensures
            limiter.spec_ceiling() == ceiling,
            limiter.spec_in_flight() == 0,
    {
        Self { ceiling, in_flight: 0 }
    }

    /// The number of requests in flight, which never exceeds the ceiling.
    pub fn in_flight(&self) -> (n: u32)
        ensures
            n == self.spec_in_flight(),
            self.spec_ceiling() matches Some(c) ==> n <= c,
    {
        proof {
            use_type_invariant(self);
        }
        self.in_flight
    }

    /// Admits one more request if there is room for it, and says whether it
    /// did.
    pub fn try_acquire(&mut self) -> (admitted: bool)
        ensures
            admitted == old(self).has_room(),
            final(self).spec_ceiling() == old(self).spec_ceiling(),
            final(self).spec_in_flight() == old(self).spec_in_flight() + (if admitted {
                1int
            } else {
                0int
            }),
    {
        proof {
            use_type_invariant(&*self);
        }
        let room = match self.ceiling {
            Some(c) => self.in_flight < c,
            None => self.in_flight < u32::MAX,
        };
        if room {
            self.in_flight = self.in_flight + 1;
        }
        room
    }

    /// Marks one admitted request as finished. With nothing in flight this
    /// changes nothing.
    pub fn release(&mut self)
        ensures
            final(self).spec_ceiling() == old(self).spec_ceiling(),
            final(self).spec_in_flight() == if old(self).spec_in_flight() > 0 {
                old(self).spec_in_flight() - 1
            } else {
                0int
            },
    {
        proof {
            use_type_invariant(&*self);
        }
        if self.in_flight > 0 {
            self.in_flight = self.in_flight - 1;
        }
    }
}

} // verus!
