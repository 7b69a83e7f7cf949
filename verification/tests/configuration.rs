use sd_bringup::bus::{BusParameters, DEFAULT_FREQ_KHZ};
use sd_bringup::controller::{configure, DEFAULT_SLOT};
use sd_bringup::display::{PanelGeometry, Rect};
use sd_bringup::errors::{ConfigureError, MountError};
use sd_bringup::ledger::ResourceLedger;
use sd_bringup::mounter::{mount, DriverMountStatus, MountOptions};

fn params_with_width(bus_width: u8) -> BusParameters {
    BusParameters {
        clk: 7,
        cmd: 6,
        d0: Some(15),
        d1: Some(16),
        d2: Some(4),
        d3: Some(5),
        d4: None,
        d5: None,
        d6: None,
        d7: None,
        card_detect: Some(17),
        write_protect: None,
        bus_width,
        internal_pullups: true,
        ddr_capable: false,
        max_freq_khz: None,
    }
}

fn options_with_unit(allocation_unit_size: u32) -> MountOptions {
    MountOptions {
        format_if_mount_failed: false,
        max_files: 4,
        allocation_unit_size,
        use_single_fat: false,
        check_disk_status: false,
    }
}

#[test]
fn widths_one_four_eight_with_their_pins_pass_validation() {
    assert!(params_with_width(1).validate().is_ok());
    assert!(params_with_width(4).validate().is_ok());
    let mut eight = params_with_width(8);
    eight.d4 = Some(18);
    eight.d5 = Some(19);
    eight.d6 = Some(20);
    eight.d7 = Some(21);
    assert!(eight.validate().is_ok());
}

#[test]
fn unsupported_or_underpinned_widths_are_invalid() {
    assert_eq!(
        params_with_width(2).validate(),
        Err(ConfigureError::InvalidWidth)
    );
    assert_eq!(
        params_with_width(0).validate(),
        Err(ConfigureError::InvalidWidth)
    );
    let mut four = params_with_width(4);
    four.d2 = None;
    four.d3 = None;
    assert_eq!(four.validate(), Err(ConfigureError::InvalidWidth));
    // width 8 without the upper four data lines
    assert_eq!(
        params_with_width(8).validate(),
        Err(ConfigureError::InvalidWidth)
    );
}

#[test]
fn frequency_defaults_to_twenty_megahertz() {
    assert_eq!(params_with_width(4).effective_freq_khz(), DEFAULT_FREQ_KHZ);
    assert_eq!(DEFAULT_FREQ_KHZ, 20000);
    let mut fast = params_with_width(4);
    fast.max_freq_khz = Some(40000);
    assert_eq!(fast.effective_freq_khz(), 40000);
}

#[test]
fn configure_hands_out_a_recorded_handle() {
    let mut ledger = ResourceLedger::new();
    let handle = configure(&params_with_width(4), true, &mut ledger).unwrap();
    assert_eq!(handle.slot(), DEFAULT_SLOT);
    assert_eq!(handle.freq_khz(), DEFAULT_FREQ_KHZ);
    assert_eq!(ledger.handles_acquired, 1);
    assert_eq!(ledger.handles_released, 0);
    handle.release(&mut ledger);
    assert_eq!(ledger.handles_released, 1);
}

#[test]
fn configure_reports_a_controller_that_stayed_down() {
    let mut ledger = ResourceLedger::new();
    let r = configure(&params_with_width(4), false, &mut ledger);
    assert_eq!(r.unwrap_err(), ConfigureError::ControllerInitFailed);
    assert_eq!(ledger.handles_acquired, 0);
}

#[test]
fn mount_moves_the_handle_into_the_volume_and_back() {
    let mut ledger = ResourceLedger::new();
    let handle = configure(&params_with_width(4), true, &mut ledger).unwrap();
    let volume = mount(
        handle,
        String::from("/sdcard"),
        &options_with_unit(16 * 1024),
        DriverMountStatus::Mounted,
        &mut ledger,
    )
    .unwrap();
    assert_eq!(volume.root(), "/sdcard");
    assert!(!volume.was_formatted());
    assert_eq!(ledger.volumes_mounted, 1);
    let handle = volume.unmount(&mut ledger);
    assert_eq!(ledger.volumes_unmounted, 1);
    assert_eq!(handle.slot(), DEFAULT_SLOT);
    handle.release(&mut ledger);
    assert_eq!(ledger.handles_released, 1);
}

#[test]
fn refused_mount_returns_the_handle_with_the_error() {
    let mut ledger = ResourceLedger::new();
    let handle = configure(&params_with_width(4), true, &mut ledger).unwrap();
    let (handle, error) = mount(
        handle,
        String::from("/sdcard"),
        &options_with_unit(16 * 1024),
        DriverMountStatus::DeviceFailed,
        &mut ledger,
    )
    .unwrap_err();
    assert_eq!(error, MountError::DeviceInitFailed);
    assert_eq!(ledger.volumes_mounted, 0);

    let (handle, error) = mount(
        handle,
        String::from("/sdcard"),
        &options_with_unit(16 * 1024),
        DriverMountStatus::FilesystemDamaged,
        &mut ledger,
    )
    .unwrap_err();
    assert_eq!(error, MountError::FilesystemCorrupt);
    handle.release(&mut ledger);
    assert_eq!(ledger.handles_released, ledger.handles_acquired);
}

#[test]
fn damaged_filesystem_formats_when_the_options_allow_it() {
    let mut ledger = ResourceLedger::new();
    let handle = configure(&params_with_width(4), true, &mut ledger).unwrap();
    let mut options = options_with_unit(16 * 1024);
    options.format_if_mount_failed = true;
    let volume = mount(
        handle,
        String::from("/sdcard"),
        &options,
        DriverMountStatus::FilesystemDamaged,
        &mut ledger,
    )
    .unwrap();
    assert!(volume.was_formatted());
    let handle = volume.unmount(&mut ledger);
    handle.release(&mut ledger);
}

#[test]
fn allocation_unit_must_be_a_power_of_two_of_at_least_512() {
    assert!(options_with_unit(512).validate());
    assert!(options_with_unit(16 * 1024).validate());
    assert!(!options_with_unit(256).validate());
    assert!(!options_with_unit(0).validate());
    assert!(!options_with_unit(12288).validate());
    assert!(!options_with_unit(513).validate());
}

#[test]
fn diagnostic_rect_covers_exactly_the_visible_panel() {
    let panel = PanelGeometry { width: 240, visible_height: 280, v_offset: 20 };
    assert_eq!(panel.driver_height(), 300);
    assert_eq!(
        panel.diagnostic_rect(),
        Rect { x: 0, y: 20, width: 240, height: 280 }
    );
    let flush = PanelGeometry { width: 128, visible_height: 160, v_offset: 0 };
    assert_eq!(flush.driver_height(), 160);
    assert_eq!(
        flush.diagnostic_rect(),
        Rect { x: 0, y: 0, width: 128, height: 160 }
    );
}
