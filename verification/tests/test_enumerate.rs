//! Tests for the enumerator's classification: hex identifier parsing, the
//! per-record transport classification, and the batch rule that a malformed
//! entry is omitted while the rest survive.

use serialport::enumerate::{parse_hex_u16, port_type, ports_from_records};
use serialport::{available_ports, DeviceRecord, ErrorKind, SerialPortType, UsbPortInfo};

fn record(devnode: &str) -> DeviceRecord {
    DeviceRecord {
        devnode: Some(devnode.to_string()),
        has_parent: true,
        driver: None,
        open_failed: false,
        id_bus: None,
        vendor_id: None,
        model_id: None,
        serial_number: None,
        manufacturer: None,
        product: None,
    }
}

fn usb_record(devnode: &str, vid: &str, pid: &str) -> DeviceRecord {
    DeviceRecord {
        id_bus: Some("usb".to_string()),
        vendor_id: Some(vid.to_string()),
        model_id: Some(pid.to_string()),
        serial_number: Some("A12345".to_string()),
        manufacturer: Some("Acme".to_string()),
        product: Some("Widget".to_string()),
        ..record(devnode)
    }
}

#[test]
fn test_parse_hex_u16_values() {
    assert_eq!(parse_hex_u16("0"), Some(0));
    assert_eq!(parse_hex_u16("0000"), Some(0));
    assert_eq!(parse_hex_u16("04d8"), Some(0x04d8));
    assert_eq!(parse_hex_u16("1A2b"), Some(0x1a2b));
    assert_eq!(parse_hex_u16("ffff"), Some(0xffff));
    assert_eq!(parse_hex_u16("FFFF"), Some(0xffff));
    assert_eq!(parse_hex_u16("00ffff"), Some(0xffff));
    // Empty, non-digit, and too-large strings parse to nothing.
    assert_eq!(parse_hex_u16(""), None);
    assert_eq!(parse_hex_u16("g1"), None);
    assert_eq!(parse_hex_u16("12 4"), None);
    assert_eq!(parse_hex_u16("-1"), None);
    assert_eq!(parse_hex_u16("10000"), None);
    assert_eq!(parse_hex_u16("fffff"), None);
}

#[test]
fn test_port_type_usb() {
    let r = usb_record("/dev/ttyUSB0", "04d8", "f5fe");
    let t = port_type(&r).expect("well-formed USB record classifies");
    assert_eq!(
        t,
        SerialPortType::UsbPort(UsbPortInfo {
            vid: 0x04d8,
            pid: 0xf5fe,
            serial_number: Some("A12345".to_string()),
            manufacturer: Some("Acme".to_string()),
            product: Some("Widget".to_string()),
            manufacturer_database: None,
            product_database: None,
        })
    );
}

#[test]
fn test_port_type_pci_and_unknown() {
    let mut r = record("/dev/ttyS0");
    r.id_bus = Some("pci".to_string());
    assert_eq!(port_type(&r).unwrap(), SerialPortType::PciPort);

    let mut r = record("/dev/ttyS0");
    r.id_bus = Some("pcmcia".to_string());
    assert_eq!(port_type(&r).unwrap(), SerialPortType::Unknown);

    let r = record("/dev/ttyS0");
    assert_eq!(port_type(&r).unwrap(), SerialPortType::Unknown);
}

#[test]
fn test_port_type_malformed_usb_fails() {
    // A USB record whose identifier is not a hex string fails with Unknown.
    let r = usb_record("/dev/ttyUSB0", "zzzz", "f5fe");
    assert_eq!(port_type(&r).unwrap_err().kind(), ErrorKind::Unknown);

    // One whose identifier is missing fails with Unknown too.
    let mut r = usb_record("/dev/ttyUSB0", "04d8", "f5fe");
    r.model_id = None;
    assert_eq!(port_type(&r).unwrap_err().kind(), ErrorKind::Unknown);
}

#[test]
fn test_ports_from_records_skips_malformed_entry() {
    // A single malformed entry is omitted and the remaining valid ones are
    // returned; the batch never fails wholesale.
    let good_usb = usb_record("/dev/ttyUSB0", "04d8", "f5fe");
    let malformed = usb_record("/dev/ttyUSB1", "not-hex", "f5fe");
    let mut pci = record("/dev/ttyS0");
    pci.id_bus = Some("pci".to_string());

    let records = vec![good_usb, malformed, pci];
    let ports = ports_from_records(&records);

    assert_eq!(ports.len(), 2);
    assert_eq!(ports[0].port_name, "/dev/ttyUSB0".to_string());
    assert!(matches!(ports[0].port_type, SerialPortType::UsbPort(_)));
    assert_eq!(ports[1].port_name, "/dev/ttyS0".to_string());
    assert_eq!(ports[1].port_type, SerialPortType::PciPort);
}

#[test]
fn test_ports_from_records_phantom_legacy_skipped() {
    // A node of the generic legacy UART driver that could not be opened is a
    // phantom and is skipped; one that opened stays; another driver's node
    // stays even if its probe failed.
    let mut phantom = record("/dev/ttyS4");
    phantom.driver = Some("serial8250".to_string());
    phantom.open_failed = true;

    let mut real_legacy = record("/dev/ttyS0");
    real_legacy.driver = Some("serial8250".to_string());
    real_legacy.open_failed = false;

    let mut other_driver = usb_record("/dev/ttyUSB0", "0403", "6001");
    other_driver.driver = Some("ftdi_sio".to_string());
    other_driver.open_failed = true;

    let records = vec![phantom, real_legacy, other_driver];
    let ports = ports_from_records(&records);

    assert_eq!(ports.len(), 2);
    assert_eq!(ports[0].port_name, "/dev/ttyS0".to_string());
    assert_eq!(ports[1].port_name, "/dev/ttyUSB0".to_string());
}

#[test]
fn test_ports_from_records_needs_parent_and_devnode() {
    let mut no_parent = record("/dev/ttyS9");
    no_parent.has_parent = false;

    let mut no_node = record("unused");
    no_node.devnode = None;

    let kept = record("/dev/ttyS1");

    let records = vec![no_parent, no_node, kept];
    let ports = ports_from_records(&records);
    assert_eq!(ports.len(), 1);
    assert_eq!(ports[0].port_name, "/dev/ttyS1".to_string());
}

#[test]
fn test_available_ports_reports_unknown() {
    // Without the platform's device-database bindings the walk cannot start,
    // which is reported as a wholesale Unknown failure.
    let err = available_ports().unwrap_err();
    assert_eq!(err.kind(), ErrorKind::Unknown);
}
