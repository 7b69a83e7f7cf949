//! The bring-up sequencer: configure, mount, smoke-test, tear down.
//!
//! One run is a strictly linear lifecycle. Each stage is gated on the
//! previous one succeeding; teardown is unconditional once a handle or a
//! volume exists, whatever the smoke test said. The whole run is verified
//! against [`run_spec`], the mathematical description of what every stage
//! decides, and the guaranteed-teardown invariant — no leaked handle or
//! volume on any exit path — is stated over the resource ledger and
//! proved for every input.

use vstd::prelude::*;

use crate::bus::BusParameters;
use crate::controller::configure;
use crate::device::{DeviceModel, DeviceView, driver_status_spec};
use crate::errors::ConfigureError;
use crate::errors::MountError;
use crate::ledger::ResourceLedger;
use crate::mounter::{mount, mount_admits, mount_error_spec, MountOptions};
use crate::smoke::{opt_bytes_view, run_smoke, smoke_spec, SmokeTestResult, SmokeView};

verus! {

/// The stage a run ended in: the first stage that failed, or `Complete`
/// when configuring and mounting succeeded and the smoke test reached a
/// verdict.
#[derive(Clone, Copy, Debug, PartialEq, Eq, Structural)]
pub enum Stage {
    Configure,
    Mount,
    SmokeTest,
    Complete,
}

/// Everything one run reports: the stage reached, the error of the stage
/// that failed (if one did), the smoke-test verdict (if the test ran),
/// and the resource ledger of the run.
#[derive(Debug)]
pub struct SequencerReport {
    pub stage: Stage,
    pub configure_error: Option<ConfigureError>,
    pub mount_error: Option<MountError>,
    pub smoke_result: Option<SmokeTestResult>,
    pub ledger: ResourceLedger,
}

/// The mathematical value of a [`SequencerReport`].
pub ghost struct ReportView {
    pub stage: Stage,
    pub configure_error: Option<ConfigureError>,
    pub mount_error: Option<MountError>,
    pub smoke_result: Option<SmokeView>,
    pub ledger: ResourceLedger,
}

impl View for SequencerReport {
    type V = ReportView;

    open spec fn view(&self) -> ReportView {
        ReportView {
            stage: self.stage,
            configure_error: self.configure_error,
            mount_error: self.mount_error,
            smoke_result: match self.smoke_result {
                Some(s) => Some(s@),
                None => None,
            },
            ledger: self.ledger,
        }
    }
}

/// A report with no stage error and a smoke-test verdict of a readable,
/// uncorrupted file: the run as a whole succeeded.
pub open spec fn success_view(rv: ReportView) -> bool {
    rv.configure_error is None && rv.mount_error is None && match rv.smoke_result {
        Some(s) => s is Match || s is ReadOnly,
        None => false,
    }
}

/// What one whole run decides, for every input: the report it owes and
/// the content of the smoke-test file afterwards.
///
/// Ill-formed bus parameters stop the run before anything is acquired; a
/// controller that does not come up does the same. A refused mount
/// releases the one handle acquired and reports the mount error. An
/// admitted mount runs the smoke test — over a freshly formatted (hence
/// empty) volume when a damaged filesystem was formatted on the way —
/// and then unconditionally unmounts and releases.
pub open spec fn run_spec(
    params: BusParameters,
    options: MountOptions,
    device: DeviceView,
    payload: Seq<u8>,
) -> (ReportView, Option<Seq<u8>>) {
    if !params.wf() {
        (
            ReportView {
                stage: Stage::Configure,
                configure_error: Some(ConfigureError::InvalidWidth),
                mount_error: None,
                smoke_result: None,
                ledger: ResourceLedger {
                    handles_acquired: 0,
                    handles_released: 0,
                    volumes_mounted: 0,
                    volumes_unmounted: 0,
                },
            },
            device.file,
        )
    } else if !device.controller_ok {
        (
            ReportView {
                stage: Stage::Configure,
                configure_error: Some(ConfigureError::ControllerInitFailed),
                mount_error: None,
                smoke_result: None,
                ledger: ResourceLedger {
                    handles_acquired: 0,
                    handles_released: 0,
                    volumes_mounted: 0,
                    volumes_unmounted: 0,
                },
            },
            device.file,
        )
    } else if !mount_admits(options, driver_status_spec(device)) {
        (
            ReportView {
                stage: Stage::Mount,
                configure_error: None,
                mount_error: Some(mount_error_spec(driver_status_spec(device))),
                smoke_result: None,
                ledger: ResourceLedger {
                    handles_acquired: 1,
                    handles_released: 1,
                    volumes_mounted: 0,
                    volumes_unmounted: 0,
                },
            },
            device.file,
        )
    } else {
        let before = if device.filesystem_ok {
            device.file
        } else {
            None
        };
        let (verdict, after) = smoke_spec(device.io_fault, before, payload);
        (
            ReportView {
                stage: if verdict is Failed {
                    Stage::SmokeTest
                } else {
                    Stage::Complete
                },
                configure_error: None,
                mount_error: None,
                smoke_result: Some(verdict),
                ledger: ResourceLedger {
                    handles_acquired: 1,
                    handles_released: 1,
                    volumes_mounted: 1,
                    volumes_unmounted: 1,
                },
            },
            after,
        )
    }
}

impl SequencerReport {
    /// Whether the run as a whole succeeded: no stage failed and the
    /// smoke test found a readable, uncorrupted file. A caller that wants
    /// a failed bring-up to be visible from outside — rather than
    /// swallowed into a normal exit — can turn this into its exit status.
    pub fn succeeded(&self) -> (r: bool)
        ensures
            r == success_view(self@),
    {
        if self.configure_error.is_some() {
            return false;
        }
        if self.mount_error.is_some() {
            return false;
        }
        match &self.smoke_result {
            Some(SmokeTestResult::Match) => true,
            Some(SmokeTestResult::ReadOnly(_)) => true,
            _ => false,
        }
    }
}

/// Run the whole bring-up lifecycle against `device`: configure the bus,
/// mount the filesystem at `mount_point`, smoke-test it with `payload`,
/// and tear everything down. Returns the report and the content of the
/// smoke-test file after the run, exactly as [`run_spec`] describes them.
pub fn run(
    params: &BusParameters,
    options: &MountOptions,
    mount_point: String,
    payload: &Vec<u8>,
    device: DeviceModel,
) -> (r: (SequencerReport, Option<Vec<u8>>))
    ensures
        ({
            let (rv, fv) = run_spec(*params, *options, device@, payload@);
            r.0@ == rv && opt_bytes_view(r.1) == fv
        }),
{
    let mut ledger = ResourceLedger::new();
    let status = device.driver_mount_status();
    let controller_ok = device.controller_ok;
    let filesystem_ok = device.filesystem_ok;
    let io_fault = device.io_fault;
    let file = device.file;

    let handle = match configure(params, controller_ok, &mut ledger) {
        Err(e) => {
            return (
                SequencerReport {
                    stage: Stage::Configure,
                    configure_error: Some(e),
                    mount_error: None,
                    smoke_result: None,
                    ledger,
                },
                file,
            );
        },
        Ok(h) => h,
    };

    let volume = match mount(handle, mount_point, options, status, &mut ledger) {
        Err((returned, e)) => {
            returned.release(&mut ledger);
            return (
                SequencerReport {
                    stage: Stage::Mount,
                    configure_error: None,
                    mount_error: Some(e),
                    smoke_result: None,
                    ledger,
                },
                file,
            );
        },
        Ok(v) => v,
    };

    let before = if volume.was_formatted() {
        None
    } else {
        file
    };
    let (verdict, after) = run_smoke(io_fault, before, payload);

    let handle = volume.unmount(&mut ledger);
    handle.release(&mut ledger);

    let stage = match &verdict {
        SmokeTestResult::Failed(_) => Stage::SmokeTest,
        _ => Stage::Complete,
    };
    (
        SequencerReport {
            stage,
            configure_error: None,
            mount_error: None,
            smoke_result: Some(verdict),
            ledger,
        },
        after,
    )
}

/// No run leaks a resource: whichever stage fails, the report's ledger
/// balances — handles released equal handles acquired and volumes
/// unmounted equal volumes mounted.
pub proof fn lemma_teardown_balanced(
    params: BusParameters,
    options: MountOptions,
    device: DeviceView,
    payload: Seq<u8>,
)
    ensures
        run_spec(params, options, device, payload).0.ledger.balanced(),
{
}

/// Round trip on a fresh volume: with healthy hardware and no smoke-test
/// file yet, the payload is written and read back byte-for-byte equal,
/// and it is exactly what the file holds afterwards.
pub proof fn lemma_fresh_round_trip(
    params: BusParameters,
    options: MountOptions,
    device: DeviceView,
    payload: Seq<u8>,
)
    requires
        params.wf(),
        device.controller_ok,
        device.card_ok,
        device.filesystem_ok,
        !device.io_fault,
        device.file is None,
    ensures
        ({
            let (rv, fv) = run_spec(params, options, device, payload);
            rv.stage is Complete && rv.smoke_result == Some(SmokeView::Match) && fv == Some(
                payload,
            )
        }),
{
}

/// Running the sequence again over the volume a run with healthy
/// hardware left behind fails nowhere — the pre-existing-file path
/// engages — and leaves the file content exactly as the first run left
/// it, whatever payload the second run carries.
pub proof fn lemma_rerun_preserves_content(
    params: BusParameters,
    options: MountOptions,
    device: DeviceView,
    payload: Seq<u8>,
    second_payload: Seq<u8>,
)
    requires
        params.wf(),
        device.controller_ok,
        device.card_ok,
        device.filesystem_ok,
        !device.io_fault,
    ensures
        ({
            let (rv1, f1) = run_spec(params, options, device, payload);
            let second = DeviceView { file: f1, ..device };
            let (rv2, f2) = run_spec(params, options, second, second_payload);
            success_view(rv2) && f2 == f1
        }),
{
}

} // verus!
