//! A POSIX serial-port library: open a device, configure line parameters,
//! perform timeout-bounded blocking reads and writes, toggle and sense modem
//! control lines, and enumerate serial devices present on the host.
//!
//! The portable configuration model (baud rate, data bits, parity, stop bits,
//! flow control, timeout) is translated into terminal-control bit patterns by
//! the [`flags`] module; [`tty::TTYPort`] owns the device descriptor and the
//! cached attribute snapshot; [`enumerate`] classifies device-registry
//! records into [`SerialPortInfo`] values.
//!
//! With one platform backend in scope, the operation set stands directly on
//! the concrete [`tty::TTYPort`] handle: its contracts say more than an
//! abstraction over backends could, and a second backend would carry the same
//! operation set and error taxonomy.

pub mod error;
pub mod config;
pub mod flags;
mod sys;
pub mod tty;
pub mod enumerate;

pub use error::{Error, ErrorKind, IoErrorKind, Result};
pub use config::{
    ClearBuffer, DataBits, FlowControl, Parity, SerialPortBuilder, StopBits, new,
};
pub use tty::TTYPort;
pub use flags::available_baud_rates;
pub use enumerate::{
    DeviceRecord, SerialPortInfo, SerialPortType, UsbPortInfo, available_ports,
    ports_from_records,
};
