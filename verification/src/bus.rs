//! Bus parameters for the block-device controller.
//!
//! A bus is described by its clock and command pins, up to eight optional
//! data-line pins, optional card-detect and write-protect pins, the bus
//! width, and a handful of capability flags. The one invariant with teeth
//! is that the bus width must be 1, 4 or 8 and that the data lines the
//! width needs are actually configured.

use vstd::prelude::*;

use crate::errors::ConfigureError;

verus! {

/// The bus clock frequency, in kHz, used when the caller does not ask for
/// another one.
pub const DEFAULT_FREQ_KHZ: u32 = 20000;

/// Everything the block-device controller needs to know about the bus:
/// pin assignments, bus width and capability flags. Pins are GPIO numbers;
/// a data line, the card-detect pin and the write-protect pin may each be
/// left unconnected.
#[derive(Clone, Copy, Debug)]
pub struct BusParameters {
    /// Clock pin.
    pub clk: u8,
    /// Command pin.
    pub cmd: u8,
    /// Data line 0, if connected.
    pub d0: Option<u8>,
    /// Data line 1, if connected.
    pub d1: Option<u8>,
    /// Data line 2, if connected.
    pub d2: Option<u8>,
    /// Data line 3, if connected.
    pub d3: Option<u8>,
    /// Data line 4, if connected.
    pub d4: Option<u8>,
    /// Data line 5, if connected.
    pub d5: Option<u8>,
    /// Data line 6, if connected.
    pub d6: Option<u8>,
    /// Data line 7, if connected.
    pub d7: Option<u8>,
    /// Card-detect pin, if connected.
    pub card_detect: Option<u8>,
    /// Write-protect pin, if connected.
    pub write_protect: Option<u8>,
    /// Bus width: how many data lines carry data. Must be 1, 4 or 8.
    pub bus_width: u8,
    /// Enable the controller's internal pull-up resistors.
    pub internal_pullups: bool,
    /// The host may drive the bus in DDR mode.
    pub ddr_capable: bool,
    /// Bus clock frequency in kHz; `DEFAULT_FREQ_KHZ` when absent.
    pub max_freq_khz: Option<u32>,
}

/// A bus width the controller accepts: 1, 4 or 8 data lines.
pub open spec fn valid_width(width: u8) -> bool {
    width == 1 || width == 4 || width == 8
}

impl BusParameters {
    /// The data lines the chosen width needs are all configured: width 4
    /// needs d0 through d3, width 8 needs d0 through d7.
    pub open spec fn data_pins_match_width(self) -> bool {
        &&& self.bus_width == 4 ==> self.d0 is Some && self.d1 is Some && self.d2 is Some
            && self.d3 is Some
        &&& self.bus_width == 8 ==> self.d0 is Some && self.d1 is Some && self.d2 is Some
            && self.d3 is Some && self.d4 is Some && self.d5 is Some && self.d6 is Some
            && self.d7 is Some
    }

    /// Well-formed bus parameters: a valid width whose data lines are all
    /// configured.
    pub open spec fn wf(self) -> bool {
        valid_width(self.bus_width) && self.data_pins_match_width()
    }

    /// The frequency the bus will be clocked at: the requested one, or the
    /// default when none was requested.
    pub open spec fn effective_freq_spec(self) -> u32 {
        match self.max_freq_khz {
            Some(f) => f,
            None => DEFAULT_FREQ_KHZ,
        }
    }

    /// The frequency the bus will be clocked at.
    pub fn effective_freq_khz(&self) -> (r: u32)
        ensures
            r == self.effective_freq_spec(),
    {
        match self.max_freq_khz {
            Some(f) => f,
            None => DEFAULT_FREQ_KHZ,
        }
    }

    /// Check the width/pin invariant. Succeeds exactly on well-formed
    /// parameters; every rejection is an `InvalidWidth`.
    pub fn validate(&self) -> (r: Result<(), ConfigureError>)
        ensures
            r is Ok <==> self.wf(),
            r is Err ==> r->Err_0 == ConfigureError::InvalidWidth,
    {
        let ok = match self.bus_width {
            1 => true,
            4 => self.d0.is_some() && self.d1.is_some() && self.d2.is_some()
                && self.d3.is_some(),
            8 => self.d0.is_some() && self.d1.is_some() && self.d2.is_some()
                && self.d3.is_some() && self.d4.is_some() && self.d5.is_some()
                && self.d6.is_some() && self.d7.is_some(),
            _ => false,
        };
        if ok {
            Ok(())
        } else {
            Err(ConfigureError::InvalidWidth)
        }
    }
}

} // verus!
