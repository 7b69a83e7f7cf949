//! The filesystem mounter: turning a handle into a mounted volume.
//!
//! Mounting takes the owned [`Handle`], the mount point, the mount
//! options and the observed status of the underlying driver's mount
//! attempt. On success the handle moves into the [`MountedVolume`], so the
//! volume can never outlive it; on failure the handle comes back to the
//! caller, who still owes it a release. Unmounting consumes the volume and
//! gives the handle back.

use vstd::prelude::*;

use crate::controller::Handle;
use crate::errors::MountError;
use crate::ledger::ResourceLedger;

verus! {

/// Options for mounting the FAT-compatible filesystem.
#[derive(Clone, Copy, Debug)]
pub struct MountOptions {
    /// Format the volume and retry when the filesystem structure cannot
    /// be mounted as it is.
    pub format_if_mount_failed: bool,
    /// Maximum number of files open at once.
    pub max_files: u32,
    /// Allocation unit size in bytes; must be a power of two of at least
    /// 512.
    pub allocation_unit_size: u32,
    /// Keep a single FAT table instead of two.
    pub use_single_fat: bool,
    /// Check the disk status before each access.
    pub check_disk_status: bool,
}

impl MountOptions {
    /// Well-formed options: the allocation unit size is a power of two
    /// and at least 512 bytes.
    pub open spec fn wf(self) -> bool {
        self.allocation_unit_size >= 512
            && self.allocation_unit_size & (self.allocation_unit_size - 1) as u32 == 0
    }

    /// Check the allocation-unit invariant.
    pub fn validate(&self) -> (r: bool)
        ensures
            r == self.wf(),
    {
        let a = self.allocation_unit_size;
        if a >= 512 {
            a & (a - 1) == 0
        } else {
            false
        }
    }
}

/// What the driver reported when it was asked to mount.
#[derive(Clone, Copy, Debug, PartialEq, Eq, Structural)]
pub enum DriverMountStatus {
    /// The filesystem mounted as it is.
    Mounted,
    /// The device beneath the filesystem could not be initialized.
    DeviceFailed,
    /// The device is fine but the filesystem structure did not mount.
    FilesystemDamaged,
}

/// Mounting goes through exactly when the driver mounted the filesystem,
/// or when the structure was damaged but the options allow formatting it.
pub open spec fn mount_admits(options: MountOptions, status: DriverMountStatus) -> bool {
    status is Mounted || (status is FilesystemDamaged && options.format_if_mount_failed)
}

/// The error a refused mount reports: a failed device beats a damaged
/// filesystem.
pub open spec fn mount_error_spec(status: DriverMountStatus) -> MountError {
    if status is DeviceFailed {
        MountError::DeviceInitFailed
    } else {
        MountError::FilesystemCorrupt
    }
}

/// A filesystem mounted at a root path over an owned handle. The volume
/// owns the handle, so it cannot outlive it, and it is destroyed exactly
/// once, by [`MountedVolume::unmount`].
#[derive(Debug)]
pub struct MountedVolume {
    root: String,
    handle: Handle,
    formatted: bool,
}

impl MountedVolume {
    /// The root path the filesystem is reachable under.
    pub closed spec fn root_spec(self) -> Seq<char> {
        self.root@
    }

    /// The handle the filesystem is mounted over.
    pub closed spec fn handle_spec(self) -> Handle {
        self.handle
    }

    /// Whether the volume was formatted while mounting, wiping whatever
    /// it held before.
    pub closed spec fn formatted_spec(self) -> bool {
        self.formatted
    }

    /// The root path the filesystem is reachable under.
    pub fn root(&self) -> (r: &String)
        ensures
            r@ == self.root_spec(),
    {
        &self.root
    }

    /// Whether the volume was formatted while mounting.
    pub fn was_formatted(&self) -> (r: bool)
        ensures
            r == self.formatted_spec(),
    {
        self.formatted
    }

    /// Detach the filesystem. Consumes the volume — a volume is unmounted
    /// exactly once — records the unmount, and gives the handle back so
    /// the caller can release it.
    pub fn unmount(self, ledger: &mut ResourceLedger) -> (r: Handle)
        requires
            old(ledger).volumes_unmounted < u32::MAX,
        ensures
            r == self.handle_spec(),
            *final(ledger) == (ResourceLedger {
                volumes_unmounted: (old(ledger).volumes_unmounted + 1) as u32,
                ..*old(ledger)
            }),
    {
        ledger.record_unmount();
        self.handle
    }
}

/// Mount the filesystem at `mount_point` over `handle`.
///
/// `status` is the observed outcome of the underlying driver's mount
/// attempt; the caller that talks to the hardware reports it here. On
/// success the handle moves into the returned volume and the mount is
/// recorded; the volume is marked formatted exactly when a damaged
/// filesystem was formatted on the way. On failure the handle comes back
/// beside the error — a failed device as `DeviceInitFailed`, a damaged
/// filesystem that may not be formatted as `FilesystemCorrupt` — and the
/// ledger is untouched.
pub fn mount(
    handle: Handle,
    mount_point: String,
    options: &MountOptions,
    status: DriverMountStatus,
    ledger: &mut ResourceLedger,
) -> (r: Result<MountedVolume, (Handle, MountError)>)
    requires
        old(ledger).volumes_mounted < u32::MAX,
    ensures
        r is Ok <==> mount_admits(*options, status),
        r matches Ok(v) ==> v.root_spec() == mount_point@
            && v.handle_spec() == handle
            && (v.formatted_spec() <==> status is FilesystemDamaged),
        r matches Err(he) ==> he.0 == handle && he.1 == mount_error_spec(status),
        r is Ok ==> *final(ledger) == (ResourceLedger {
            volumes_mounted: (old(ledger).volumes_mounted + 1) as u32,
            ..*old(ledger)
        }),
        r is Err ==> *final(ledger) == *old(ledger),
{
    match status {
        DriverMountStatus::Mounted => {
            ledger.record_mount();
            Ok(MountedVolume { root: mount_point, handle, formatted: false })
        },
        DriverMountStatus::DeviceFailed => Err((handle, MountError::DeviceInitFailed)),
        DriverMountStatus::FilesystemDamaged => {
            if options.format_if_mount_failed {
                ledger.record_mount();
                Ok(MountedVolume { root: mount_point, handle, formatted: true })
            } else {
                Err((handle, MountError::FilesystemCorrupt))
            }
        },
    }
}

} // verus!
