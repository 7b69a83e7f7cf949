//! The block-device controller: handing out and taking back handles.
//!
//! `configure` validates the bus parameters, takes the observed outcome of
//! bringing up the physical controller, and on success hands out an owned
//! [`Handle`]. The handle is single-use and non-cloneable: the only way to
//! destroy it is [`Handle::release`], which consumes it, so releasing it a
//! second time is impossible by type, not by runtime check.

use vstd::prelude::*;

use crate::bus::BusParameters;
use crate::errors::ConfigureError;
use crate::ledger::ResourceLedger;

verus! {

/// The controller slot a bus is configured into when the caller does not
/// choose another one.
pub const DEFAULT_SLOT: u8 = 1;

/// An owned, initialized block-device peripheral. Exclusively owned by its
/// holder until released; there is no way to duplicate it.
#[derive(Debug)]
pub struct Handle {
    slot: u8,
    freq_khz: u32,
}

impl Handle {
    /// The slot the bus was configured into.
    pub closed spec fn slot_spec(self) -> u8 {
        self.slot
    }

    /// The frequency, in kHz, the bus was clocked at.
    pub closed spec fn freq_spec(self) -> u32 {
        self.freq_khz
    }

    /// The slot the bus was configured into.
    pub fn slot(&self) -> (r: u8)
        ensures
            r == self.slot_spec(),
    {
        self.slot
    }

    /// The frequency, in kHz, the bus was clocked at.
    pub fn freq_khz(&self) -> (r: u32)
        ensures
            r == self.freq_spec(),
    {
        self.freq_khz
    }

    /// Give the handle back to the controller. Consumes the handle, so a
    /// handle can be released exactly once, and records the release.
    pub fn release(self, ledger: &mut ResourceLedger)
        requires
            old(ledger).handles_released < u32::MAX,
        ensures
            *final(ledger) == (ResourceLedger {
                handles_released: (old(ledger).handles_released + 1) as u32,
                ..*old(ledger)
            }),
    {
        ledger.record_release();
    }
}

/// Configure the block-device controller for the given bus.
///
/// `controller_ready` is the observed outcome of bringing up the physical
/// controller; the caller that talks to the hardware reports it here.
/// Succeeds exactly when the parameters are well formed and the controller
/// came up; ill-formed parameters are rejected as `InvalidWidth` before
/// the controller outcome is even considered, and a handle is acquired
/// (and recorded in the ledger) only on success.
pub fn configure(
    params: &BusParameters,
    controller_ready: bool,
    ledger: &mut ResourceLedger,
) -> (r: Result<Handle, ConfigureError>)
    requires
        old(ledger).handles_acquired < u32::MAX,
    ensures
        r is Ok <==> params.wf() && controller_ready,
        !params.wf() ==> (r matches Err(e) && e == ConfigureError::InvalidWidth),
        params.wf() && !controller_ready ==> (r matches Err(e)
            && e == ConfigureError::ControllerInitFailed),
        r matches Ok(h) ==> h.slot_spec() == DEFAULT_SLOT
            && h.freq_spec() == params.effective_freq_spec(),
        r is Ok ==> *final(ledger) == (ResourceLedger {
            handles_acquired: (old(ledger).handles_acquired + 1) as u32,
            ..*old(ledger)
        }),
        r is Err ==> *final(ledger) == *old(ledger),
{
    match params.validate() {
        Err(e) => Err(e),
        Ok(()) => {
            if !controller_ready {
                Err(ConfigureError::ControllerInitFailed)
            } else {
                let freq = params.effective_freq_khz();
                ledger.record_acquire();
                Ok(Handle { slot: DEFAULT_SLOT, freq_khz: freq })
            }
        },
    }
}

} // verus!
