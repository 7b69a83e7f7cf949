//! A model of the hardware beneath the sequencer.
//!
//! The sequencer never talks to a controller, a card or a filesystem
//! directly; it is driven by what they did. [`DeviceModel`] states all of
//! that up front — whether the controller comes up, whether the card
//! initializes, whether the filesystem structure mounts, whether I/O
//! faults, and what the smoke-test file holds — so that a whole bring-up
//! run can be executed and verified deterministically, fault injection
//! included.

use vstd::prelude::*;

use crate::mounter::DriverMountStatus;

verus! {

/// What the hardware beneath one bring-up run will do.
#[derive(Debug)]
pub struct DeviceModel {
    /// The physical controller comes up.
    pub controller_ok: bool,
    /// The card beneath the filesystem initializes.
    pub card_ok: bool,
    /// The filesystem structure on the card mounts as it is.
    pub filesystem_ok: bool,
    /// File I/O on the mounted volume faults.
    pub io_fault: bool,
    /// Content of the smoke-test file, if the file exists.
    pub file: Option<Vec<u8>>,
}

/// The mathematical value of a [`DeviceModel`].
pub ghost struct DeviceView {
    pub controller_ok: bool,
    pub card_ok: bool,
    pub filesystem_ok: bool,
    pub io_fault: bool,
    pub file: Option<Seq<u8>>,
}

impl View for DeviceModel {
    type V = DeviceView;

    open spec fn view(&self) -> DeviceView {
        DeviceView {
            controller_ok: self.controller_ok,
            card_ok: self.card_ok,
            filesystem_ok: self.filesystem_ok,
            io_fault: self.io_fault,
            file: match self.file {
                Some(v) => Some(v@),
                None => None,
            },
        }
    }
}

/// What the driver reports when asked to mount over this device: a card
/// that does not initialize fails the device, a card whose filesystem
/// structure does not mount reports the structure damaged.
pub open spec fn driver_status_spec(d: DeviceView) -> DriverMountStatus {
    if !d.card_ok {
        DriverMountStatus::DeviceFailed
    } else if !d.filesystem_ok {
        DriverMountStatus::FilesystemDamaged
    } else {
        DriverMountStatus::Mounted
    }
}

impl DeviceModel {
    /// The status the driver reports when asked to mount over this
    /// device.
    pub fn driver_mount_status(&self) -> (r: DriverMountStatus)
        ensures
            r == driver_status_spec(self@),
    {
        if !self.card_ok {
            DriverMountStatus::DeviceFailed
        } else if !self.filesystem_ok {
            DriverMountStatus::FilesystemDamaged
        } else {
            DriverMountStatus::Mounted
        }
    }
}

} // verus!
