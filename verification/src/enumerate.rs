//! The device enumerator's classification logic: given plain records read
//! from the platform's device registry, decide which nodes are real serial
//! ports and extract USB identity metadata.
//!
//! Walking the registry itself needs the platform's device-database bindings,
//! which this build does not link; a caller collects one [`DeviceRecord`] per
//! node of the serial-class subsystem and hands the batch to
//! [`ports_from_records`]. Classification is total: a malformed record is
//! omitted, never an error for the whole batch.

use vstd::prelude::*;

use crate::error::{Error, ErrorKind, Result};
use vstd::string::StrSliceExecFns;

verus! {

/// Contains all possible USB information about a serial port.
#[derive(Debug, Clone, PartialEq, Eq)]
pub struct UsbPortInfo {
    /// Vendor ID
    pub vid: u16,
    /// Product ID
    pub pid: u16,
    /// Serial number (arbitrary string)
    pub serial_number: Option<String>,
    /// Manufacturer (arbitrary string)
    pub manufacturer: Option<String>,
    /// Product name (arbitrary string)
    pub product: Option<String>,
    /// Manufacturer from database (arbitrary string)
    pub manufacturer_database: Option<String>,
    /// Product name from database (arbitrary string)
    pub product_database: Option<String>,
}

/// The physical type of a serial port.
#[derive(Debug, Clone, PartialEq, Eq)]
pub enum SerialPortType {
    /// The serial port is connected via USB
    UsbPort(UsbPortInfo),
    /// The serial port is connected via PCI (permanent port)
    PciPort,
    /// The serial port is connected via Bluetooth
    BluetoothPort,
    /// It can't be determined how the serial port is connected
    Unknown,
}

/// A device-independent implementation of serial port information.
#[derive(Debug, Clone, PartialEq, Eq)]
pub struct SerialPortInfo {
    /// The short name of the serial port
    pub port_name: String,
    /// The hardware device type that exposes this port
    pub port_type: SerialPortType,
}

/// One node of the platform's serial-class subsystem, as plain values: the
/// registry properties this library's classification reads.
///
/// `open_failed` reports whether an attempt to open the node's device path
/// failed; the walker probes a node when the registry names a driver for it.
/// Legacy UART drivers and the registry frequently advertise ports that do
/// not exist, so a node of the legacy driver that cannot be opened is treated
/// as a phantom and skipped.
#[derive(Debug, Clone, PartialEq, Eq)]
pub struct DeviceRecord {
    /// The device path of the node, if it has one.
    pub devnode: Option<String>,
    /// Whether the node has a parent device in the registry.
    pub has_parent: bool,
    /// The kernel driver bound to the node's parent, if the registry names
    /// one.
    pub driver: Option<String>,
    /// Whether an attempt to open the device path failed.
    pub open_failed: bool,
    /// The `ID_BUS` property: the transport the node sits on.
    pub id_bus: Option<String>,
    /// The `ID_VENDOR_ID` property: the USB vendor id as a hex string.
    pub vendor_id: Option<String>,
    /// The `ID_MODEL_ID` property: the USB product id as a hex string.
    pub model_id: Option<String>,
    /// The `ID_SERIAL_SHORT` property: the USB serial number.
    pub serial_number: Option<String>,
    /// The `ID_VENDOR` property: the USB manufacturer string.
    pub manufacturer: Option<String>,
    /// The `ID_MODEL` property: the USB product string.
    pub product: Option<String>,
}

// Views: the mathematical rendering of the record and classification types,
// with every string as its character sequence.

/// The view of [`UsbPortInfo`].
pub ghost struct UsbPortInfoView {
    /// Vendor ID.
    pub vid: u16,
    /// Product ID.
    pub pid: u16,
    /// Serial number.
    pub serial_number: Option<Seq<char>>,
    /// Manufacturer.
    pub manufacturer: Option<Seq<char>>,
    /// Product name.
    pub product: Option<Seq<char>>,
    /// Manufacturer from database.
    pub manufacturer_database: Option<Seq<char>>,
    /// Product name from database.
    pub product_database: Option<Seq<char>>,
}

/// The view of [`SerialPortType`].
pub ghost enum SerialPortTypeView {
    /// Connected via USB.
    UsbPort(UsbPortInfoView),
    /// Connected via PCI.
    PciPort,
    /// Connected via Bluetooth.
    BluetoothPort,
    /// Undetermined transport.
    Unknown,
}

/// The view of [`SerialPortInfo`].
pub ghost struct SerialPortInfoView {
    /// The short name of the serial port.
    pub port_name: Seq<char>,
    /// The hardware device type that exposes this port.
    pub port_type: SerialPortTypeView,
}

/// The view of [`DeviceRecord`].
pub ghost struct DeviceRecordView {
    /// The device path of the node.
    pub devnode: Option<Seq<char>>,
    /// Whether the node has a parent device.
    pub has_parent: bool,
    /// The kernel driver bound to the node's parent.
    pub driver: Option<Seq<char>>,
    /// Whether an attempt to open the device path failed.
    pub open_failed: bool,
    /// The transport the node sits on.
    pub id_bus: Option<Seq<char>>,
    /// The USB vendor id as a hex string.
    pub vendor_id: Option<Seq<char>>,
    /// The USB product id as a hex string.
    pub model_id: Option<Seq<char>>,
    /// The USB serial number.
    pub serial_number: Option<Seq<char>>,
    /// The USB manufacturer string.
    pub manufacturer: Option<Seq<char>>,
    /// The USB product string.
    pub product: Option<Seq<char>>,
}

/// The view of an optional string: its character sequence, if present.
pub open spec fn spec_opt_view(o: Option<String>) -> Option<Seq<char>> {
    match o {
        Some(s) => Some(s@),
        _ => None,
    }
}

impl View for UsbPortInfo {
    type V = UsbPortInfoView;

    open spec fn view(&self) -> UsbPortInfoView {
        UsbPortInfoView {
            vid: self.vid,
            pid: self.pid,
            serial_number: spec_opt_view(self.serial_number),
            manufacturer: spec_opt_view(self.manufacturer),
            product: spec_opt_view(self.product),
            manufacturer_database: spec_opt_view(self.manufacturer_database),
            product_database: spec_opt_view(self.product_database),
        }
    }
}

impl View for SerialPortType {
    type V = SerialPortTypeView;

    open spec fn view(&self) -> SerialPortTypeView {
        match self {
            SerialPortType::UsbPort(info) => SerialPortTypeView::UsbPort(info@),
            SerialPortType::PciPort => SerialPortTypeView::PciPort,
            SerialPortType::BluetoothPort => SerialPortTypeView::BluetoothPort,
            SerialPortType::Unknown => SerialPortTypeView::Unknown,
        }
    }
}

impl View for SerialPortInfo {
    type V = SerialPortInfoView;

    open spec fn view(&self) -> SerialPortInfoView {
        SerialPortInfoView { port_name: self.port_name@, port_type: self.port_type@ }
    }
}

impl View for DeviceRecord {
    type V = DeviceRecordView;

    open spec fn view(&self) -> DeviceRecordView {
        DeviceRecordView {
            devnode: spec_opt_view(self.devnode),
            has_parent: self.has_parent,
            driver: spec_opt_view(self.driver),
            open_failed: self.open_failed,
            id_bus: spec_opt_view(self.id_bus),
            vendor_id: spec_opt_view(self.vendor_id),
            model_id: spec_opt_view(self.model_id),
            serial_number: spec_opt_view(self.serial_number),
            manufacturer: spec_opt_view(self.manufacturer),
            product: spec_opt_view(self.product),
        }
    }
}

// Hex identifiers: registry identifier strings are 16-bit integers encoded in
// hexadecimal.

/// The numeric value of one hexadecimal digit, or `None` for any other
/// character. Both letter cases are digits.
pub open spec fn spec_hex_digit(c: char) -> Option<u8> {
    if '0' <= c && c <= '9' {
        Some((c as u32 - 48) as u8)
    } else if 'A' <= c && c <= 'F' {
        Some((c as u32 - 55) as u8)
    } else if 'a' <= c && c <= 'f' {
        Some((c as u32 - 87) as u8)
    } else {
        None
    }
}

/// Whether a string is a non-empty run of hexadecimal digits.
pub open spec fn spec_is_hex_string(s: Seq<char>) -> bool {
    s.len() > 0 && forall|i: int| 0 <= i < s.len() ==> spec_hex_digit(#[trigger] s[i]) is Some
}

/// The number a run of hexadecimal digits denotes, most significant digit
/// first. Meaningful when every character is a digit.
pub open spec fn spec_hex_value(s: Seq<char>) -> nat
    decreases s.len(),
{
    if s.len() == 0 {
        0
    } else {
        spec_hex_value(s.drop_last()) * 16 + spec_hex_digit(s.last())->Some_0 as nat
    }
}

/// The 16-bit integer a string denotes in hexadecimal: `None` when the string
/// is empty, holds a character that is not a hex digit, or denotes a number
/// that does not fit in 16 bits.
pub open spec fn spec_parse_hex_u16(s: Seq<char>) -> Option<u16> {
    if spec_is_hex_string(s) && spec_hex_value(s) < 0x10000 {
        Some(spec_hex_value(s) as u16)
    } else {
        None
    }
}

/// The value a prefix of a digit run denotes never exceeds the value of the
/// whole run: appending a digit multiplies by the base and adds the digit.
proof fn lemma_hex_prefix_le(s: Seq<char>, j: int)
    requires
        0 <= j <= s.len(),
        forall|i: int| 0 <= i < s.len() ==> spec_hex_digit(#[trigger] s[i]) is Some,
    ensures
        spec_hex_value(s.subrange(0, j)) <= spec_hex_value(s),
    decreases s.len() - j,
{
    if j == s.len() {
        assert(s.subrange(0, j) =~= s);
    } else {
        assert(s.subrange(0, j + 1).drop_last() =~= s.subrange(0, j));
        assert(s.subrange(0, j + 1).last() == s[j]);
        lemma_hex_prefix_le(s, j + 1);
    }
}

/// Parses a string as a hexadecimal 16-bit integer, most significant digit
/// first: the integer it denotes, or `None` when the string is empty, holds a
/// character that is not a hex digit, or denotes a number that does not fit.
pub fn parse_hex_u16(s: &str) -> (r: Option<u16>)
    ensures
        r == spec_parse_hex_u16(s@),
{
    let n = s.unicode_len();
    if n == 0 {
        return None;
    }
    let mut acc: u32 = 0;
    let mut i: usize = 0;
    while i < n
        invariant
            n as nat == s@.len(),
            0 <= i <= n,
            forall|k: int| 0 <= k < i ==> spec_hex_digit(#[trigger] s@[k]) is Some,
            acc == spec_hex_value(s@.subrange(0, i as int)),
            acc <= 0xFFFF,
        decreases n - i,
    {
        let c = s.get_char(i);
        let v = c as u32;
        let d: u32 = if 48 <= v && v <= 57 {
            v - 48
        } else if 65 <= v && v <= 70 {
            v - 55
        } else if 97 <= v && v <= 102 {
            v - 87
        } else {
            return None;
        };
        let next = acc * 16 + d;
        proof {
            assert(s@.subrange(0, i + 1).drop_last() =~= s@.subrange(0, i as int));
            assert(s@.subrange(0, i + 1).last() == s@[i as int]);
        }
        if next > 0xFFFF {
            proof {
                if spec_is_hex_string(s@) {
                    lemma_hex_prefix_le(s@, i + 1);
                }
            }
            return None;
        }
        acc = next;
        i += 1;
    }
    proof {
        assert(s@.subrange(0, n as int) =~= s@);
    }
    Some(acc as u16)
}

// Classification.

/// How a registry record classifies, over its view: a USB node needs both its
/// vendor and product identifiers to parse as hex 16-bit integers, and is
/// otherwise malformed (`None`, the record is skipped); a PCI node is a
/// permanent port; any other transport is unknown.
pub open spec fn spec_port_type(d: DeviceRecordView) -> Option<SerialPortTypeView> {
    if d.id_bus matches Some(bus) && bus == "usb"@ {
        if (d.vendor_id matches Some(v) && spec_parse_hex_u16(v) is Some) && (d.model_id
            matches Some(m) && spec_parse_hex_u16(m) is Some) {
            Some(
                SerialPortTypeView::UsbPort(
                    UsbPortInfoView {
                        vid: spec_parse_hex_u16(d.vendor_id->Some_0)->Some_0,
                        pid: spec_parse_hex_u16(d.model_id->Some_0)->Some_0,
                        serial_number: d.serial_number,
                        manufacturer: d.manufacturer,
                        product: d.product,
                        manufacturer_database: None,
                        product_database: None,
                    },
                ),
            )
        } else {
            None
        }
    } else if d.id_bus matches Some(bus) && bus == "pci"@ {
        Some(SerialPortTypeView::PciPort)
    } else {
        Some(SerialPortTypeView::Unknown)
    }
}

/// Clones an optional string; the clone reads the same.
fn clone_opt_string(o: &Option<String>) -> (r: Option<String>)
    ensures
        spec_opt_view(r) == spec_opt_view(*o),
{
    match o {
        Some(s) => Some(s.clone()),
        _ => None,
    }
}

/// Classifies one registry record by transport, extracting USB identity
/// metadata where the transport is USB.
///
/// ## Errors
///
/// `Unknown` when the record is malformed: its transport is USB but a vendor
/// or product identifier is missing or is not a hex-encoded 16-bit integer.
pub fn port_type(d: &DeviceRecord) -> (r: Result<SerialPortType>)
    ensures
        spec_port_type(d@) matches Some(t) ==> (r matches Ok(rt) && rt@ == t),
        spec_port_type(d@) is None ==> (r matches Err(e) && e.kind == ErrorKind::Unknown),
{
    let usb = "usb".to_owned();
    let pci = "pci".to_owned();
    match &d.id_bus {
        Some(bus) => {
            if String::eq(bus, &usb) {
                let vid = match &d.vendor_id {
                    Some(v) => match parse_hex_u16(v.as_str()) {
                        Some(x) => x,
                        _ => {
                            return Err(Error::new(
                                ErrorKind::Unknown,
                                "value not hex string".to_owned(),
                            ));
                        },
                    },
                    _ => {
                        return Err(Error::new(ErrorKind::Unknown, "key not found".to_owned()));
                    },
                };
                let pid = match &d.model_id {
                    Some(m) => match parse_hex_u16(m.as_str()) {
                        Some(x) => x,
                        _ => {
                            return Err(Error::new(
                                ErrorKind::Unknown,
                                "value not hex string".to_owned(),
                            ));
                        },
                    },
                    _ => {
                        return Err(Error::new(ErrorKind::Unknown, "key not found".to_owned()));
                    },
                };
                Ok(
                    SerialPortType::UsbPort(
                        UsbPortInfo {
                            vid,
                            pid,
                            serial_number: clone_opt_string(&d.serial_number),
                            manufacturer: clone_opt_string(&d.manufacturer),
                            product: clone_opt_string(&d.product),
                            manufacturer_database: None,
                            product_database: None,
                        },
                    ),
                )
            } else if String::eq(bus, &pci) {
                Ok(SerialPortType::PciPort)
            } else {
                Ok(SerialPortType::Unknown)
            }
        },
        _ => Ok(SerialPortType::Unknown),
    }
}

/// Whether a registry record describes a phantom legacy port: its parent is
/// bound to the platform's generic legacy UART driver, yet opening the device
/// failed. Both that driver and the registry frequently advertise ports that
/// do not exist.
pub open spec fn spec_phantom_legacy(d: DeviceRecordView) -> bool {
    d.driver matches Some(dr) && dr == "serial8250"@ && d.open_failed
}

/// Whether enumeration keeps a registry record: it must have a parent device
/// and a device path, must not be a phantom legacy port, and must classify.
pub open spec fn spec_keep_record(d: DeviceRecordView) -> bool {
    d.has_parent && d.devnode is Some && !spec_phantom_legacy(d) && spec_port_type(d) is Some
}

/// The port information a kept record yields.
pub open spec fn spec_record_info(d: DeviceRecordView) -> SerialPortInfoView {
    SerialPortInfoView { port_name: d.devnode->Some_0, port_type: spec_port_type(d)->Some_0 }
}

/// The ports that a batch of registry records yields, in order: each kept
/// record contributes its device path and classification, and every other
/// record is omitted.
pub open spec fn spec_ports_from_records(rs: Seq<DeviceRecordView>) -> Seq<SerialPortInfoView>
    decreases rs.len(),
{
    if rs.len() == 0 {
        Seq::empty()
    } else if spec_keep_record(rs.last()) {
        spec_ports_from_records(rs.drop_last()).push(spec_record_info(rs.last()))
    } else {
        spec_ports_from_records(rs.drop_last())
    }
}

/// The views of a batch of records.
pub open spec fn spec_records_view(rs: Seq<DeviceRecord>) -> Seq<DeviceRecordView> {
    rs.map_values(|d: DeviceRecord| d@)
}

/// The views of a batch of port informations.
pub open spec fn spec_infos_view(ps: Seq<SerialPortInfo>) -> Seq<SerialPortInfoView> {
    ps.map_values(|p: SerialPortInfo| p@)
}

/// Turns a batch of registry records into the list of serial ports they
/// describe.
///
/// Classification is total: a record that is malformed — or that describes a
/// phantom legacy port — is omitted, and the remaining records' ports are
/// returned; one bad entry never fails the batch.
pub fn ports_from_records(records: &Vec<DeviceRecord>) -> (r: Vec<SerialPortInfo>)
    ensures
        spec_infos_view(r@) == spec_ports_from_records(spec_records_view(records@)),
{
    let serial8250 = "serial8250".to_owned();
    let mut out: Vec<SerialPortInfo> = Vec::new();
    let mut i: usize = 0;
    while i < records.len()
        invariant
            0 <= i <= records@.len(),
            spec_infos_view(out@) == spec_ports_from_records(
                spec_records_view(records@.subrange(0, i as int)),
            ),
            serial8250@ == "serial8250"@,
        decreases records@.len() - i,
    {
        let d = &records[i];
        proof {
            assert(spec_records_view(records@.subrange(0, i + 1)).drop_last() =~= spec_records_view(
                records@.subrange(0, i as int),
            ));
            assert(spec_records_view(records@.subrange(0, i + 1)).last() == records@[i as int]@);
        }
        let phantom = match &d.driver {
            Some(dr) => d.open_failed && String::eq(dr, &serial8250),
            _ => false,
        };
        if d.has_parent && !phantom {
            match &d.devnode {
                Some(devnode) => {
                    match port_type(d) {
                        Ok(pt) => {
                            let info = SerialPortInfo { port_name: devnode.clone(), port_type: pt };
                            proof {
                                assert(info@ == spec_record_info(records@[i as int]@));
                            }
                            out.push(info);
                            proof {
                                assert(spec_infos_view(out@) =~= spec_ports_from_records(
                                    spec_records_view(records@.subrange(0, i + 1)),
                                ));
                            }
                        },
                        Err(_) => {
                            // A record whose classification fails is skipped,
                            // so one problematic port never fails the batch.
                        },
                    }
                },
                _ => {},
            }
        }
        i += 1;
        proof {
            assert(spec_infos_view(out@) =~= spec_ports_from_records(
                spec_records_view(records@.subrange(0, i as int)),
            ));
        }
    }
    proof {
        assert(records@.subrange(0, records@.len() as int) =~= records@);
    }
    out
}

/// Omitting law: a record that enumeration does not keep — malformed, or a
/// phantom legacy port — contributes nothing, so removing it from a batch
/// leaves the resulting ports exactly as they were. Enumeration never fails
/// wholesale on account of one bad entry.
pub proof fn lemma_malformed_record_omitted(rs: Seq<DeviceRecordView>, i: int)
    requires
        0 <= i < rs.len(),
        !spec_keep_record(rs[i]),
    ensures
        spec_ports_from_records(rs.remove(i)) == spec_ports_from_records(rs),
    decreases rs.len(),
{
    if i == rs.len() - 1 {
        assert(rs.remove(i) =~= rs.drop_last());
    } else {
        assert(rs.remove(i).drop_last() =~= rs.drop_last().remove(i));
        assert(rs.remove(i).last() == rs.last());
        lemma_malformed_record_omitted(rs.drop_last(), i);
    }
}

/// Returns a list of all serial ports on the system.
///
/// Walking the platform's device registry needs its device-database bindings,
/// which this build does not link, so the walk cannot start: the caller
/// collects a [`DeviceRecord`] per serial-class node and classifies the batch
/// with [`ports_from_records`]. A wholesale failure to start enumeration is
/// reported as `Unknown`.
pub fn available_ports() -> (r: Result<Vec<SerialPortInfo>>)
    ensures
        r matches Err(e) && e.kind == ErrorKind::Unknown,
{
    Err(
        Error::new(
            ErrorKind::Unknown,
            "device registry bindings are not available; classify registry records with ports_from_records".to_owned(),
        ),
    )
}

} // verus!
