//! The portable configuration model: value types for each line parameter and
//! a builder that accumulates a configuration snapshot.
//!
//! No validation happens while building; validity is platform-dependent, so a
//! configuration is checked only when it is applied to a device (see
//! [`crate::tty::TTYPort::open`]).

use vstd::prelude::*;

verus! {

/// Number of bits per character.
#[derive(Debug, Copy, Clone, PartialEq, Eq, Structural)]
pub enum DataBits {
    /// 5 bits per character
    Five,
    /// 6 bits per character
    Six,
    /// 7 bits per character
    Seven,
    /// 8 bits per character
    Eight,
}

/// Parity checking modes.
///
/// When parity checking is enabled (`Odd` or `Even`) an extra bit is
/// transmitted with each character. The value of the parity bit is arranged so
/// that the number of 1 bits in the character (including the parity bit) is an
/// even number (`Even`) or an odd number (`Odd`).
///
/// Parity checking is disabled by setting `Disabled`, in which case parity
/// bits are not transmitted.
#[derive(Debug, Copy, Clone, PartialEq, Eq, Structural)]
pub enum Parity {
    /// No parity bit.
    Disabled,
    /// Parity bit sets odd number of 1 bits.
    Odd,
    /// Parity bit sets even number of 1 bits.
    Even,
}

/// Number of stop bits.
///
/// Stop bits are transmitted after every character.
#[derive(Debug, Copy, Clone, PartialEq, Eq, Structural)]
pub enum StopBits {
    /// One stop bit.
    One,
    /// Two stop bits.
    Two,
}

/// Flow control modes.
#[derive(Debug, Copy, Clone, PartialEq, Eq, Structural)]
pub enum FlowControl {
    /// No flow control.
    Disabled,
    /// Flow control using XON/XOFF bytes.
    Software,
    /// Flow control using RTS/CTS signals.
    Hardware,
}

/// Specifies which buffer or buffers to purge when calling
/// [`crate::tty::TTYPort::clear`].
#[derive(Debug, Copy, Clone, PartialEq, Eq, Structural)]
pub enum ClearBuffer {
    /// Specify to clear data received but not read
    Input,
    /// Specify to clear data written but not yet transmitted
    Output,
    /// Specify to clear both data received and data not yet transmitted
    All,
}

/// A struct containing all serial port settings.
#[derive(Debug, Clone, PartialEq, Eq)]
pub struct SerialPortBuilder {
    /// The port name, usually the device path
    pub path: String,
    /// The baud rate in symbols-per-second
    pub baud_rate: u32,
    /// Number of bits used to represent a character sent on the line
    pub data_bits: DataBits,
    /// The type of signalling to use for controlling data transfer
    pub flow_control: FlowControl,
    /// The type of parity to use for error checking
    pub parity: Parity,
    /// Number of bits to use to signal the end of a character
    pub stop_bits: StopBits,
    /// Amount of time in milliseconds to wait to receive data before timing
    /// out
    pub timeout: u64,
}

impl SerialPortBuilder {
    /// Set the path to the serial port.
    pub fn path(self, path: &str) -> (r: Self)
        ensures
            r.path@ == path@,
            r.baud_rate == self.baud_rate,
            r.data_bits == self.data_bits,
            r.flow_control == self.flow_control,
            r.parity == self.parity,
            r.stop_bits == self.stop_bits,
            r.timeout == self.timeout,
    {
        SerialPortBuilder { path: path.to_owned(), ..self }
    }

    /// Set the baud rate in symbols-per-second.
    pub fn baud_rate(self, baud_rate: u32) -> (r: Self)
        ensures
            r == (SerialPortBuilder { baud_rate, ..self }),
    {
        SerialPortBuilder { baud_rate, ..self }
    }

    /// Set the number of bits used to represent a character sent on the line.
    pub fn data_bits(self, data_bits: DataBits) -> (r: Self)
        ensures
            r == (SerialPortBuilder { data_bits, ..self }),
    {
        SerialPortBuilder { data_bits, ..self }
    }

    /// Set the type of signalling to use for controlling data transfer.
    pub fn flow_control(self, flow_control: FlowControl) -> (r: Self)
        ensures
            r == (SerialPortBuilder { flow_control, ..self }),
    {
        SerialPortBuilder { flow_control, ..self }
    }

    /// Set the type of parity to use for error checking.
    pub fn parity(self, parity: Parity) -> (r: Self)
        ensures
            r == (SerialPortBuilder { parity, ..self }),
    {
        SerialPortBuilder { parity, ..self }
    }

    /// Set the number of bits to use to signal the end of a character.
    pub fn stop_bits(self, stop_bits: StopBits) -> (r: Self)
        ensures
            r == (SerialPortBuilder { stop_bits, ..self }),
    {
        SerialPortBuilder { stop_bits, ..self }
    }

    /// Set the amount of time in milliseconds to wait to receive data before
    /// timing out.
    pub fn timeout(self, timeout: u64) -> (r: Self)
        ensures
            r == (SerialPortBuilder { timeout, ..self }),
    {
        SerialPortBuilder { timeout, ..self }
    }
}

/// Construct a builder of serial-port configurations.
///
/// The builder starts from the conventional 8-N-1 line discipline with no
/// flow control and a zero timeout; each setter replaces one field.
pub fn new(path: &str, baud_rate: u32) -> (r: SerialPortBuilder)
    ensures
        r.path@ == path@,
        r.baud_rate == baud_rate,
        r.data_bits == DataBits::Eight,
        r.flow_control == FlowControl::Disabled,
        r.parity == Parity::Disabled,
        r.stop_bits == StopBits::One,
        r.timeout == 0,
{
    SerialPortBuilder {
        path: path.to_owned(),
        baud_rate,
        data_bits: DataBits::Eight,
        flow_control: FlowControl::Disabled,
        parity: Parity::Disabled,
        stop_bits: StopBits::One,
        timeout: 0,
    }
}

} // verus!
