//! The rate at which a prover works, as it reports it.

use vstd::prelude::*;

verus! {

/// Proofs per second, averaged over the last 1, 5, 15, 30 and 60 minutes.
#[derive(Debug, Clone, Copy, PartialEq, Eq, Structural)]
pub struct ProverSpeed {
    speed_1m: u32,
    speed_5m: u32,
    speed_15m: u32,
    speed_30m: u32,
    speed_60m: u32,
}

impl ProverSpeed {
    /// The five averages, as a sequence from the shortest window to the longest.
    pub closed spec fn averages(self) -> Seq<u32> {
        seq![self.speed_1m, self.speed_5m, self.speed_15m, self.speed_30m, self.speed_60m]
    }

    pub fn new(speed_1m: u32, speed_5m: u32, speed_15m: u32, speed_30m: u32, speed_60m: u32) -> (speed:
        Self)
        ensures
            speed.averages() == seq![speed_1m, speed_5m, speed_15m, speed_30m, speed_60m],
    {
        Self { speed_1m, speed_5m, speed_15m, speed_30m, speed_60m }
    }

    pub fn speed_1m(&self) -> (speed: u32)
        ensures
            speed == self.averages()[0],
    {
        self.speed_1m
    }

    pub fn speed_5m(&self) -> (speed: u32)
        ensures
            speed == self.averages()[1],
    {
        self.speed_5m
    }

    pub fn speed_15m(&self) -> (speed: u32)
        ensures
            speed == self.averages()[2],
    {
        self.speed_15m
    }

    pub fn speed_30m(&self) -> (speed: u32)
        ensures
            speed == self.averages()[3],
    {
        self.speed_30m
    }

    pub fn speed_60m(&self) -> (speed: u32)
        ensures
            speed == self.averages()[4],
    {
        self.speed_60m
    }
}

impl Default for ProverSpeed {
    /// No proofs in any window.
    fn default() -> (speed: Self)
        ensures
            speed.averages() == seq![0u32, 0u32, 0u32, 0u32, 0u32],
    {
        ProverSpeed::new(0, 0, 0, 0, 0)
    }
}

} // verus!
