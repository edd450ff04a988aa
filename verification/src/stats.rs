//! Counters of what became of the walkers.

use vstd::prelude::*;

verus! {

/// How many walkers were spawned, killed and saved in the level being played,
/// and how many the level will spawn in all.
#[derive(Clone, Copy, Debug, PartialEq, Eq, Structural)]
pub struct SpawnStats {
    pub spawned: u64,
    pub killed: u64,
    pub saved: u64,
    pub total: u64,
}

/// `n + 1`, except at the top of the range, where the counter stays.
pub open spec fn bumped(n: u64) -> u64 {
    if n < u64::MAX {
        (n + 1) as u64
    } else {
        n
    }
}

impl SpawnStats {
    /// Counters at zero for a level that spawns `total` walkers.
    pub open spec fn fresh(total: u64) -> SpawnStats {
        SpawnStats { spawned: 0, killed: 0, saved: 0, total }
    }

    /// Counters at zero for a level that spawns `total` walkers.
    pub fn new(total: u64) -> (s: Self)
        ensures
            s == Self::fresh(total),
    {
        SpawnStats { spawned: 0, killed: 0, saved: 0, total }
    }

    /// Starts counting anew, as on every load of a level.
    pub fn reset(&mut self, total: u64)
        ensures
            *final(self) == Self::fresh(total),
    {
        self.spawned = 0;
        self.killed = 0;
        self.saved = 0;
        self.total = total;
    }

    /// Counts one more walker as spawned.
    pub fn record_spawned(&mut self)
        ensures
            *final(self) == (SpawnStats { spawned: bumped(old(self).spawned), ..*old(self) }),
    {
        self.spawned = self.spawned.saturating_add(1);
    }

    /// Counts one more walker as killed.
    pub fn record_killed(&mut self)
        ensures
            *final(self) == (SpawnStats { killed: bumped(old(self).killed), ..*old(self) }),
    {
        self.killed = self.killed.saturating_add(1);
    }

    /// Counts one more walker as saved.
    pub fn record_saved(&mut self)
        ensures
            *final(self) == (SpawnStats { saved: bumped(old(self).saved), ..*old(self) }),
    {
        self.saved = self.saved.saturating_add(1);
    }
}

impl Default for SpawnStats {
    fn default() -> (s: Self)
        ensures
            s == Self::fresh(0),
    {
        SpawnStats { spawned: 0, killed: 0, saved: 0, total: 0 }
    }
}

} // verus!
