//! Bookkeeping of acquired and released resources.
//!
//! The one non-negotiable invariant of the sequencer is that no run leaks
//! a resource: every handle acquired is released and every volume mounted
//! is unmounted, on every exit path. The ledger counts those four events
//! so that the guarantee can be stated and observed.

use vstd::prelude::*;

verus! {

/// Counts of the resource events of one run.
#[derive(Clone, Copy, Debug, PartialEq, Eq, Structural)]
pub struct ResourceLedger {
    /// Handles handed out by the controller.
    pub handles_acquired: u32,
    /// Handles given back to the controller.
    pub handles_released: u32,
    /// Volumes mounted.
    pub volumes_mounted: u32,
    /// Volumes unmounted.
    pub volumes_unmounted: u32,
}

impl ResourceLedger {
    /// Nothing leaked: releases match acquisitions and unmounts match
    /// mounts.
    pub open spec fn balanced(self) -> bool {
        self.handles_released == self.handles_acquired
            && self.volumes_unmounted == self.volumes_mounted
    }

    /// A ledger with nothing recorded yet.
    pub fn new() -> (r: ResourceLedger)
        ensures
            r == (ResourceLedger {
                handles_acquired: 0,
                handles_released: 0,
                volumes_mounted: 0,
                volumes_unmounted: 0,
            }),
    {
        ResourceLedger {
            handles_acquired: 0,
            handles_released: 0,
            volumes_mounted: 0,
            volumes_unmounted: 0,
        }
    }

    /// Record that a handle was acquired.
    pub fn record_acquire(&mut self)
        requires
            old(self).handles_acquired < u32::MAX,
        ensures
            *final(self) == (ResourceLedger {
                handles_acquired: (old(self).handles_acquired + 1) as u32,
                ..*old(self)
            }),
    {
        self.handles_acquired = self.handles_acquired + 1;
    }

    /// Record that a handle was released.
    pub fn record_release(&mut self)
        requires
            old(self).handles_released < u32::MAX,
        ensures
            *final(self) == (ResourceLedger {
                handles_released: (old(self).handles_released + 1) as u32,
                ..*old(self)
            }),
    {
        self.handles_released = self.handles_released + 1;
    }

    /// Record that a volume was mounted.
    pub fn record_mount(&mut self)
        requires
            old(self).volumes_mounted < u32::MAX,
        ensures
            *final(self) == (ResourceLedger {
                volumes_mounted: (old(self).volumes_mounted + 1) as u32,
                ..*old(self)
            }),
    {
        self.volumes_mounted = self.volumes_mounted + 1;
    }

    /// Record that a volume was unmounted.
    pub fn record_unmount(&mut self)
        requires
            old(self).volumes_unmounted < u32::MAX,
        ensures
            *final(self) == (ResourceLedger {
                volumes_unmounted: (old(self).volumes_unmounted + 1) as u32,
                ..*old(self)
            }),
    {
        self.volumes_unmounted = self.volumes_unmounted + 1;
    }
}

} // verus!
