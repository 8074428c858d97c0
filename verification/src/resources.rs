//! The night counter.

use vstd::prelude::*;

verus! {

/// The number of a night. Night 0 is the setup night.
#[derive(Clone, Copy, Debug)]
pub struct Night(u8);

impl View for Night {
    type V = u8;

    closed spec fn view(&self) -> u8 {
        self.0
    }
}

impl Night {
    pub fn new(n: u8) -> (night: Self)
        ensures
            night@ == n,
    {
        Night(n)
    }

    pub fn get(&self) -> (n: u8)
        ensures
            n == self@,
    {
        self.0
    }
}

impl Default for Night {
    fn default() -> (night: Self)
        ensures
            night@ == 0,
    {
        Night(0)
    }
}

/// The night that the next run of the pipeline resolves.
#[derive(Clone, Copy, Debug)]
pub struct CurrentNight(pub Night);

impl Default for CurrentNight {
    fn default() -> (current: Self)
        ensures
            current.0@ == 0,
    {
        CurrentNight(Night::new(0))
    }
}

} // verus!
