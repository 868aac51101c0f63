use fader_test::device::{
    catalog, catalog_entry, device_type_of_pid, select_device, Device, DeviceLocal, DeviceProbe,
    DeviceType, PID_GOXLR_FULL, PID_GOXLR_MINI,
};
use fader_test::errors::RunError;
use fader_test::version::VersionNumber;

fn id(bus: u8, addr: u8) -> DeviceLocal {
    DeviceLocal { bus_number: bus, address: addr, identifier: Some(String::from("usb-1")) }
}

fn good_probe() -> DeviceProbe {
    DeviceProbe {
        id: id(1, 4),
        product_id: Some(PID_GOXLR_FULL),
        serial: Some(String::from("S210401234CQK")),
        firmware: Some(VersionNumber(1, 3, Some(24), None)),
    }
}

#[test]
fn product_ids_map_to_device_classes() {
    assert_eq!(device_type_of_pid(PID_GOXLR_FULL), Some(DeviceType::Full));
    assert_eq!(device_type_of_pid(PID_GOXLR_MINI), Some(DeviceType::Mini));
    assert_eq!(device_type_of_pid(0x0001), None);
}

#[test]
fn complete_probe_yields_record() {
    let d = catalog_entry(good_probe()).expect("complete probe must validate");
    assert_eq!(d.device_type, DeviceType::Full);
    assert_eq!(d.device_serial, "S210401234CQK");
    assert_eq!(d.version, VersionNumber(1, 3, Some(24), None));
    assert_eq!(d.goxlr_device, id(1, 4));
}

#[test]
fn failed_descriptor_yields_no_record() {
    let mut p = good_probe();
    p.product_id = None;
    assert!(catalog_entry(p).is_none());
}

#[test]
fn unknown_product_id_yields_no_record() {
    let mut p = good_probe();
    p.product_id = Some(0xbeef);
    assert!(catalog_entry(p).is_none());
}

#[test]
fn failed_serial_yields_no_record() {
    let mut p = good_probe();
    p.serial = None;
    assert!(catalog_entry(p).is_none());
}

#[test]
fn empty_serial_yields_no_record() {
    let mut p = good_probe();
    p.serial = Some(String::new());
    assert!(catalog_entry(p).is_none());
}

#[test]
fn failed_firmware_yields_no_record() {
    let mut p = good_probe();
    p.firmware = None;
    assert!(catalog_entry(p).is_none());
}

#[test]
fn catalog_keeps_valid_records_and_drops_the_rest() {
    let mut broken = good_probe();
    broken.serial = Some(String::new());
    let mut mini = good_probe();
    mini.id = id(1, 7);
    mini.product_id = Some(PID_GOXLR_MINI);
    let records = catalog(vec![broken, good_probe(), mini]);
    assert_eq!(records.len(), 2);
    assert_eq!(records[0].device_type, DeviceType::Full);
    assert_eq!(records[1].device_type, DeviceType::Mini);
    for r in &records {
        assert!(!r.device_serial.is_empty());
    }
}

#[test]
fn device_whose_serial_fails_is_excluded_and_alone_aborts_the_run() {
    let mut p = good_probe();
    p.serial = None;
    let records = catalog(vec![p]);
    assert!(records.is_empty());
    let selected = select_device(&records);
    assert_eq!(selected, Err(RunError::NoDevices));
    assert_eq!(RunError::NoDevices.message(), "No GoXLR Devices Detected");
}

fn full_device() -> Device {
    catalog_entry(good_probe()).unwrap()
}

fn mini_device() -> Device {
    let mut p = good_probe();
    p.id = id(2, 9);
    p.product_id = Some(PID_GOXLR_MINI);
    catalog_entry(p).unwrap()
}

#[test]
fn mini_only_discovery_aborts_before_any_fader_command() {
    let devices = vec![mini_device()];
    assert_eq!(select_device(&devices), Err(RunError::NoFullDevice));
    assert_eq!(
        RunError::NoFullDevice.message(),
        "This tool only works on Full GoXLR Devices"
    );
}

#[test]
fn first_full_device_is_selected() {
    let devices = vec![mini_device(), full_device(), full_device()];
    assert_eq!(select_device(&devices), Ok(1));
    let devices = vec![full_device(), mini_device()];
    assert_eq!(select_device(&devices), Ok(0));
}

#[test]
fn identity_comparison_goes_by_content() {
    let a = id(1, 4);
    let b = DeviceLocal {
        bus_number: 1,
        address: 4,
        identifier: Some(String::from("usb-1")),
    };
    assert!(a.same_id(&b));
    let c = DeviceLocal { bus_number: 1, address: 4, identifier: None };
    assert!(!a.same_id(&c));
    assert!(c.same_id(&c));
    let d = DeviceLocal { bus_number: 1, address: 5, identifier: Some(String::from("usb-1")) };
    assert!(!a.same_id(&d));
}
