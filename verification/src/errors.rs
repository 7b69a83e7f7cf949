//! Errors of the three storage stages.
//!
//! Each stage of the bring-up owns its error type: configuring the bus,
//! mounting the filesystem, and running the smoke test. A stage's error
//! terminates only that stage; teardown still runs for every resource
//! already acquired.

use vstd::prelude::*;

verus! {

/// Why configuring the block-device controller failed.
#[derive(Clone, Copy, Debug, PartialEq, Eq, Structural)]
pub enum ConfigureError {
    /// The requested bus width is not one of 1, 4 or 8, or the data-line
    /// pins it needs are not all configured.
    InvalidWidth,
    /// The physical controller did not come up.
    ControllerInitFailed,
}

/// Why mounting the filesystem failed.
#[derive(Clone, Copy, Debug, PartialEq, Eq, Structural)]
pub enum MountError {
    /// The device beneath the mount could not be initialized.
    DeviceInitFailed,
    /// The filesystem structure is damaged and formatting on failure was
    /// not allowed by the mount options.
    FilesystemCorrupt,
}

/// Why the smoke test failed outright (as opposed to reading back
/// unexpected content, which is reported as a mismatch, not an error).
#[derive(Clone, Copy, Debug, PartialEq, Eq, Structural)]
pub enum SmokeTestError {
    /// An I/O operation other than "create refused because the file
    /// already exists" went wrong.
    IoFailure,
}

} // verus!
