//! Physical session permits: how many decoder sessions exist at a time.

use crate::audio_source::fault::{check_surroundings, imposed_fault, DecodeFault, Surroundings};
use crate::audio_source::process::SpawnStep;
use vstd::prelude::*;

verus! {

/// A capacity within `1..=limit`.
pub open spec fn clamped_capacity(capacity: usize, limit: usize) -> usize {
    if capacity < 1 {
        1
    } else if capacity > limit {
        limit
    } else {
        capacity
    }
}

/// A capacity within `1..=limit`.
pub fn clamp_capacity(capacity: usize, limit: usize) -> (r: usize)
    requires
        limit >= 1,
    ensures
        r == clamped_capacity(capacity, limit),
        1 <= r <= limit,
{
    if capacity < 1 {
        1
    } else if capacity > limit {
        limit
    } else {
        capacity
    }
}

/// Counts of a permit pool.
#[derive(Debug, Clone, Copy, PartialEq, Eq, Structural)]
pub struct PermitDiagnostics {
    pub in_use: usize,
    pub capacity: usize,
    pub peak_in_use: usize,
}

/// What asking for a permit brings.
#[derive(Debug, PartialEq, Eq)]
pub enum PermitDecision {
    Granted,
    /// All permits are in use: ask again later.
    Wait,
    Refused(DecodeFault),
}

/// Permits for physical sessions. A permit is held from before its process starts until
/// the session is retired.
pub struct DecoderSessionPermitPool {
    limit: usize,
    capacity: usize,
    in_use: usize,
    peak_in_use: usize,
}

impl DecoderSessionPermitPool {
    /// The counts.
    pub closed spec fn counts(&self) -> PermitDiagnostics {
        PermitDiagnostics {
            in_use: self.in_use,
            capacity: self.capacity,
            peak_in_use: self.peak_in_use,
        }
    }

    /// The largest capacity.
    pub closed spec fn limit(&self) -> usize {
        self.limit
    }

    #[verifier::type_invariant]
    closed spec fn bounded(self) -> bool {
        &&& 1 <= self.capacity <= self.limit
        &&& self.in_use <= self.peak_in_use <= self.limit
    }

    /// A pool without permits in use. Its capacity is within `1..=limit`.
    pub fn new(capacity: usize, limit: usize) -> (pool: DecoderSessionPermitPool)
        requires
            limit >= 1,
        ensures
            pool.limit() == limit,
            pool.counts() == (PermitDiagnostics {
                in_use: 0,
                capacity: clamped_capacity(capacity, limit),
                peak_in_use: 0,
            }),
    {
        DecoderSessionPermitPool {
            limit,
            capacity: clamp_capacity(capacity, limit),
            in_use: 0,
            peak_in_use: 0,
        }
    }

    /// The counts: permits in use never exceed their peak, nor the peak the limit.
    pub fn diagnostics(&self) -> (r: PermitDiagnostics)
        ensures
            r == self.counts(),
            r.in_use <= r.peak_in_use <= self.limit(),
            1 <= r.capacity <= self.limit(),
    {
        proof {
            use_type_invariant(self);
        }
        PermitDiagnostics {
            in_use: self.in_use,
            capacity: self.capacity,
            peak_in_use: self.peak_in_use,
        }
    }

    /// Asks for a permit.
    pub fn acquire(&mut self, around: Surroundings) -> (r: PermitDecision)
        ensures
            final(self).limit() == old(self).limit(),
            match (imposed_fault(around), r) {
                (Some(expected), PermitDecision::Refused(fault)) => fault == expected,
                (None, PermitDecision::Granted) => old(self).counts().in_use < old(
                    self,
                ).counts().capacity,
                (None, PermitDecision::Wait) => old(self).counts().in_use >= old(
                    self,
                ).counts().capacity,
                _ => false,
            },
            final(self).counts() == (if r is Granted {
                PermitDiagnostics {
                    in_use: (old(self).counts().in_use + 1) as usize,
                    peak_in_use: if old(self).counts().in_use + 1 > old(self).counts().peak_in_use {
                        (old(self).counts().in_use + 1) as usize
                    } else {
                        old(self).counts().peak_in_use
                    },
                    ..old(self).counts()
                }
            } else {
                old(self).counts()
            }),
    {
        proof {
            use_type_invariant(&*self);
        }
        match check_surroundings(around) {
            Err(fault) => PermitDecision::Refused(fault),
            Ok(()) => {
                if self.in_use < self.capacity {
                    let in_use: usize = self.in_use + 1;
                    let peak: usize = if in_use > self.peak_in_use {
                        in_use
                    } else {
                        self.peak_in_use
                    };
                    *self =
                    DecoderSessionPermitPool {
                        limit: self.limit,
                        capacity: self.capacity,
                        in_use,
                        peak_in_use: peak,
                    };
                    PermitDecision::Granted
                } else {
                    PermitDecision::Wait
                }
            },
        }
    }

    /// Gives a permit back.
    pub fn release(&mut self)
        ensures
            final(self).limit() == old(self).limit(),
            final(self).counts() == (PermitDiagnostics {
                in_use: old(self).counts().in_use.saturating_sub(1),
                ..old(self).counts()
            }),
    {
        proof {
            use_type_invariant(&*self);
        }
        self.in_use = self.in_use.saturating_sub(1);
    }

    /// Takes the permit back that a step in the making of a session releases, and tells
    /// whether there was one. A session, or the parts of one, keeps its permit.
    pub fn settle_spawn(&mut self, step: &SpawnStep) -> (released: bool)
        ensures
            final(self).limit() == old(self).limit(),
            released == (*step matches SpawnStep::Failed { permit_released, .. }
                && permit_released),
            final(self).counts() == (if released {
                PermitDiagnostics {
                    in_use: old(self).counts().in_use.saturating_sub(1),
                    ..old(self).counts()
                }
            } else {
                old(self).counts()
            }),
    {
        let released = match step {
            SpawnStep::Failed { permit_released, .. } => *permit_released,
            _ => false,
        };
        if released {
            self.release();
        }
        released
    }

    /// Changes the capacity. Permits in use stay in use.
    pub fn reconfigure(&mut self, capacity: usize)
        ensures
            final(self).limit() == old(self).limit(),
            final(self).counts() == (PermitDiagnostics {
                capacity: clamped_capacity(capacity, old(self).limit()),
                ..old(self).counts()
            }),
    {
        proof {
            use_type_invariant(&*self);
        }
        self.capacity = clamp_capacity(capacity, self.limit);
    }
}

/// A capacity is what was asked for where that is possible, and the nearest possible one
/// otherwise.
pub proof fn capacities_are_the_nearest(capacity: usize, limit: usize, other: usize)
    requires
        1 <= other <= limit,
    ensures
        1 <= clamped_capacity(capacity, limit) <= limit,
        1 <= capacity <= limit ==> clamped_capacity(capacity, limit) == capacity,
        capacity < 1 ==> clamped_capacity(capacity, limit) <= other,
        capacity > limit ==> clamped_capacity(capacity, limit) >= other,
{
}

} // verus!
