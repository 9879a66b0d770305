//! The TTY port handle: owns the raw device descriptor and the last-applied
//! terminal-attribute snapshot, and is responsible for acquisition,
//! exclusivity, timeout-bounded transfers, modem-line control, and guaranteed
//! release of the descriptor.

use vstd::prelude::*;

use crate::config::{
    ClearBuffer, DataBits, FlowControl, Parity, SerialPortBuilder, StopBits,
};
use crate::error::{Error, ErrorKind, IoErrorKind, Result};
use crate::flags;
use crate::flags::TermAttrs;
use crate::sys;

verus! {

/// `tcflush` selector: discard data received but not read.
pub const TCIFLUSH: i32 = 0;
/// `tcflush` selector: discard data written but not transmitted.
pub const TCOFLUSH: i32 = 1;
/// `tcflush` selector: discard both queues.
pub const TCIOFLUSH: i32 = 2;

/// Modem-line bit: Data Terminal Ready.
pub const TIOCM_DTR: i32 = 0x002;
/// Modem-line bit: Request To Send.
pub const TIOCM_RTS: i32 = 0x004;
/// Modem-line bit: Clear To Send.
pub const TIOCM_CTS: i32 = 0x020;
/// Modem-line bit: Carrier Detect.
pub const TIOCM_CD: i32 = 0x040;
/// Modem-line bit: Ring Indicator.
pub const TIOCM_RI: i32 = 0x080;
/// Modem-line bit: Data Set Ready.
pub const TIOCM_DSR: i32 = 0x100;

/// The verdict of a readiness wait before a transfer: a wait that saw no
/// ready descriptor elapsed, which fails with the timed-out I/O kind —
/// distinct from "zero bytes available" — and a wait that saw one proceeds.
pub fn wait_verdict(ready: i32) -> (r: Result<()>)
    ensures
        r is Ok <==> ready != 0,
        r matches Err(e) ==> e.kind == ErrorKind::Io(IoErrorKind::TimedOut),
{
    if ready == 0 {
        Err(Error::new(ErrorKind::Io(IoErrorKind::TimedOut), "Operation timed out".to_owned()))
    } else {
        Ok(())
    }
}

/// The verdict of the open sequence's attribute readback: attributes that do
/// not compare equal byte for byte to what was requested fail with `Unknown`,
/// rather than silently continuing with a configuration other than the one
/// the caller believes is active.
pub fn readback_verdict(applied: bool) -> (r: Result<()>)
    ensures
        r is Ok <==> applied,
        r matches Err(e) ==> e.kind == ErrorKind::Unknown,
{
    if applied {
        Ok(())
    } else {
        Err(Error::new(ErrorKind::Unknown, "Settings did not apply correctly".to_owned()))
    }
}

/// Whether one modem line is asserted in a signal-status word.
pub fn pin_level(status: i32, pin: i32) -> (r: bool)
    ensures
        r == (status & pin != 0),
{
    status & pin != 0
}

/// The `tcflush` selector that discards the queues a [`ClearBuffer`] names.
pub open spec fn spec_flush_selector(buffer: ClearBuffer) -> i32 {
    match buffer {
        ClearBuffer::Input => TCIFLUSH,
        ClearBuffer::Output => TCOFLUSH,
        ClearBuffer::All => TCIOFLUSH,
    }
}

/// Maps a buffer selector to the `tcflush` selector that discards it.
pub fn flush_selector(buffer: ClearBuffer) -> (r: i32)
    ensures
        r == spec_flush_selector(buffer),
{
    match buffer {
        ClearBuffer::Input => TCIFLUSH,
        ClearBuffer::Output => TCOFLUSH,
        ClearBuffer::All => TCIOFLUSH,
    }
}

/// A TTY-based serial port.
///
/// The handle owns exactly one device descriptor, which is closed (and its
/// exclusivity released) when the value is dropped. `attrs` is the plain
/// snapshot of the last-applied terminal attributes; every getter answers
/// from it and every setter changes it through the translator functions of
/// [`crate::flags`] before writing it back to the device. `raw` is the full
/// platform attribute structure the snapshot was read from; it carries the
/// fields the portable model does not name (control characters and the line
/// discipline) through unchanged.
#[derive(Debug)]
pub struct TTYPort {
    /// The raw device descriptor.
    pub fd: i32,
    /// The full platform attribute structure, opaque to the portable model.
    pub raw: termios::Termios,
    /// The last-applied attribute snapshot.
    pub attrs: TermAttrs,
    /// The transfer timeout, in milliseconds.
    pub timeout_ms: u64,
    /// Whether the handle holds exclusive access to the device.
    pub exclusive: bool,
    /// The device path this handle was opened from, if it was opened by path.
    pub port_name: Option<String>,
}

impl TTYPort {
    /// Writes the cached snapshot back to the device: the four mode words and
    /// the two speeds are stored into the platform structure, the structure is
    /// applied immediately, and both driver queues are flushed.
    fn write_settings(&mut self) -> (r: Result<()>)
        ensures
            final(self).attrs == old(self).attrs,
            final(self).fd == old(self).fd,
            final(self).timeout_ms == old(self).timeout_ms,
            final(self).exclusive == old(self).exclusive,
            final(self).port_name == old(self).port_name,
    {
        sys::store_flag_words(
            &mut self.raw,
            self.attrs.iflag,
            self.attrs.oflag,
            self.attrs.cflag,
            self.attrs.lflag,
        );
        if let Err(errno) = sys::set_input_speed(&mut self.raw, self.attrs.ispeed) {
            return Err(Error::from_errno(errno));
        }
        if let Err(errno) = sys::set_output_speed(&mut self.raw, self.attrs.ospeed) {
            return Err(Error::from_errno(errno));
        }
        if let Err(errno) = sys::apply_termios(self.fd, &self.raw) {
            return Err(Error::from_errno(errno));
        }
        if let Err(errno) = sys::flush_queue(self.fd, TCIOFLUSH) {
            return Err(Error::from_errno(errno));
        }
        Ok(())
    }

    /// Returns the name of this port if it exists.
    ///
    /// The name is the device path the port was opened from; the controlling
    /// side of a connected pair has none.
    pub fn name(&self) -> (r: Option<String>)
        ensures
            r is Some <==> self.port_name is Some,
            r matches Some(n) ==> self.port_name matches Some(m) && n@ == m@,
    {
        match &self.port_name {
            Some(n) => Some(n.clone()),
            _ => None,
        }
    }

    /// Returns the raw device descriptor this handle owns.
    pub fn as_raw_fd(&self) -> (r: i32)
        ensures
            r == self.fd,
    {
        self.fd
    }

    /// Returns the exclusivity of the port.
    ///
    /// If a port is exclusive, then trying to open the same device path again
    /// will fail.
    pub fn exclusive(&self) -> (r: bool)
        ensures
            r == self.exclusive,
    {
        self.exclusive
    }

    /// Returns the current timeout in milliseconds.
    pub fn timeout(&self) -> (r: u64)
        ensures
            r == self.timeout_ms,
    {
        self.timeout_ms
    }

    /// Returns the baud rate the snapshot encodes.
    ///
    /// `None` when the input and output speeds differ or when the hardware
    /// speed code is one the portable model cannot name.
    pub fn baud_rate(&self) -> (r: Option<u32>)
        ensures
            r == flags::spec_read_baud(self.attrs),
    {
        if self.attrs.ispeed == self.attrs.ospeed {
            flags::baud_for_speed_code(self.attrs.ospeed)
        } else {
            None
        }
    }

    /// Returns the character size the snapshot encodes.
    pub fn data_bits(&self) -> (r: Option<DataBits>)
        ensures
            r == flags::spec_read_data_bits(self.attrs),
    {
        flags::data_bits_of(self.attrs.cflag)
    }

    /// Returns the flow control mode the snapshot encodes.
    pub fn flow_control(&self) -> (r: Option<FlowControl>)
        ensures
            r == Some(flags::spec_read_flow_control(self.attrs)),
    {
        Some(flags::flow_control_of(self.attrs.iflag, self.attrs.cflag))
    }

    /// Returns the parity-checking mode the snapshot encodes.
    pub fn parity(&self) -> (r: Option<Parity>)
        ensures
            r == Some(flags::spec_read_parity(self.attrs)),
    {
        Some(flags::parity_of(self.attrs.cflag))
    }

    /// Returns the number of stop bits the snapshot encodes.
    pub fn stop_bits(&self) -> (r: Option<StopBits>)
        ensures
            r == Some(flags::spec_read_stop_bits(self.attrs)),
    {
        Some(flags::stop_bits_of(self.attrs.cflag))
    }

    /// Sets the baud rate.
    ///
    /// A rate outside the platform's enumerated table is rejected with
    /// `InvalidInput` and the handle is left exactly as it was, including its
    /// previously applied baud rate.
    pub fn set_baud_rate(&mut self, baud_rate: u32) -> (r: Result<()>)
        ensures
            flags::spec_speed_code(baud_rate) is None ==> (r matches Err(e)
                && e.kind == ErrorKind::InvalidInput && *final(self) == *old(self)),
            flags::spec_speed_code(baud_rate) is Some ==> final(self).attrs
                == flags::spec_apply_speed(
                old(self).attrs,
                flags::spec_speed_code(baud_rate)->Some_0,
            ),
            final(self).fd == old(self).fd,
            final(self).timeout_ms == old(self).timeout_ms,
            final(self).exclusive == old(self).exclusive,
            final(self).port_name == old(self).port_name,
    {
        let code = match flags::speed_code_for_baud(baud_rate) {
            Some(code) => code,
            _ => {
                return Err(Error::new(
                    ErrorKind::InvalidInput,
                    "baud rate is not in the platform table".to_owned(),
                ));
            },
        };
        self.attrs.ispeed = code;
        self.attrs.ospeed = code;
        self.write_settings()
    }

    /// Sets the character size.
    pub fn set_data_bits(&mut self, data_bits: DataBits) -> (r: Result<()>)
        ensures
            final(self).attrs == flags::spec_apply_data_bits(old(self).attrs, data_bits),
            final(self).fd == old(self).fd,
            final(self).timeout_ms == old(self).timeout_ms,
            final(self).exclusive == old(self).exclusive,
            final(self).port_name == old(self).port_name,
    {
        self.attrs.cflag = flags::with_data_bits(self.attrs.cflag, data_bits);
        self.write_settings()
    }

    /// Sets the flow control mode.
    ///
    /// Hardware and software flow control are mutually exclusive: enabling
    /// one clears the other's bits.
    pub fn set_flow_control(&mut self, flow_control: FlowControl) -> (r: Result<()>)
        ensures
            final(self).attrs == flags::spec_apply_flow_control(old(self).attrs, flow_control),
            final(self).fd == old(self).fd,
            final(self).timeout_ms == old(self).timeout_ms,
            final(self).exclusive == old(self).exclusive,
            final(self).port_name == old(self).port_name,
    {
        self.attrs.iflag = flags::with_flow_iflag(self.attrs.iflag, flow_control);
        self.attrs.cflag = flags::with_flow_cflag(self.attrs.cflag, flow_control);
        self.write_settings()
    }

    /// Sets the parity-checking mode.
    pub fn set_parity(&mut self, parity: Parity) -> (r: Result<()>)
        ensures
            final(self).attrs == flags::spec_apply_parity(old(self).attrs, parity),
            final(self).fd == old(self).fd,
            final(self).timeout_ms == old(self).timeout_ms,
            final(self).exclusive == old(self).exclusive,
            final(self).port_name == old(self).port_name,
    {
        self.attrs.iflag = flags::with_parity_iflag(self.attrs.iflag, parity);
        self.attrs.cflag = flags::with_parity_cflag(self.attrs.cflag, parity);
        self.write_settings()
    }

    /// Sets the number of stop bits.
    pub fn set_stop_bits(&mut self, stop_bits: StopBits) -> (r: Result<()>)
        ensures
            final(self).attrs == flags::spec_apply_stop_bits(old(self).attrs, stop_bits),
            final(self).fd == old(self).fd,
            final(self).timeout_ms == old(self).timeout_ms,
            final(self).exclusive == old(self).exclusive,
            final(self).port_name == old(self).port_name,
    {
        self.attrs.cflag = flags::with_stop_bits(self.attrs.cflag, stop_bits);
        self.write_settings()
    }

    /// Sets the timeout for future transfers, in milliseconds.
    ///
    /// The timeout is enforced in-process by the readiness wait before each
    /// transfer, not by the device, so setting it always succeeds.
    pub fn set_timeout(&mut self, timeout: u64) -> (r: Result<()>)
        ensures
            r is Ok,
            final(self).timeout_ms == timeout,
            final(self).attrs == old(self).attrs,
            final(self).fd == old(self).fd,
            final(self).exclusive == old(self).exclusive,
            final(self).port_name == old(self).port_name,
    {
        self.timeout_ms = timeout;
        Ok(())
    }

    /// Applies a whole configuration: baud rate, data bits, flow control,
    /// parity, stop bits, then timeout, each individually fallible.
    pub fn set_all(&mut self, settings: &SerialPortBuilder) -> (r: Result<()>)
        ensures
            r is Ok ==> flags::spec_speed_code(settings.baud_rate) is Some
                && final(self).attrs == flags::spec_apply_settings(old(self).attrs, *settings)
                && final(self).timeout_ms == settings.timeout,
            flags::spec_speed_code(settings.baud_rate) is None ==> (r matches Err(e)
                && e.kind == ErrorKind::InvalidInput && *final(self) == *old(self)),
            final(self).fd == old(self).fd,
            final(self).exclusive == old(self).exclusive,
            final(self).port_name == old(self).port_name,
            r is Err ==> final(self).timeout_ms == old(self).timeout_ms,
    {
        self.set_baud_rate(settings.baud_rate)?;
        self.set_data_bits(settings.data_bits)?;
        self.set_flow_control(settings.flow_control)?;
        self.set_parity(settings.parity)?;
        self.set_stop_bits(settings.stop_bits)?;
        self.set_timeout(settings.timeout)?;
        Ok(())
    }
}

impl TTYPort {
    /// Opens a TTY device as a serial port and applies the configuration.
    ///
    /// The open sequence: acquire the descriptor non-blocking with no
    /// controlling terminal; read the current attributes; enable the receiver,
    /// ignore modem control lines, and switch to raw mode; write the
    /// attributes back and read them again, failing with `Unknown` if the
    /// device did not take them byte for byte (some platforms silently clamp
    /// unsupported combinations); flush both queues; acquire exclusive
    /// access; clear non-blocking mode; then apply the whole configuration.
    /// Any failure releases the descriptor before returning.
    ///
    /// ## Errors
    ///
    /// * `NoDevice` if the device could not be opened or is held exclusively
    ///   by another process.
    /// * `InvalidInput` if the configuration's baud rate is not in the
    ///   platform table.
    /// * `Unknown` if the device did not take the requested attributes.
    /// * `Io` for any other error while opening or initializing the device.
    pub fn open(builder: &SerialPortBuilder) -> (r: Result<TTYPort>)
        ensures
            r matches Ok(port) ==> flags::spec_speed_code(builder.baud_rate) is Some
                && flags::spec_read_baud(port.attrs) == Some(builder.baud_rate)
                && flags::spec_read_data_bits(port.attrs) == Some(builder.data_bits)
                && flags::spec_read_flow_control(port.attrs) == builder.flow_control
                && flags::spec_read_parity(port.attrs) == builder.parity
                && flags::spec_read_stop_bits(port.attrs) == builder.stop_bits
                && port.timeout_ms == builder.timeout
                && port.exclusive
                && (port.port_name matches Some(n) && n@ == builder.path@)
                && port.fd >= 0
                && port.attrs.cflag & (flags::CREAD | flags::CLOCAL) == flags::CREAD
                | flags::CLOCAL
                && port.attrs.oflag & flags::OPOST == 0
                && port.attrs.lflag & (flags::ECHO | flags::ECHONL | flags::ICANON | flags::ISIG
                | flags::IEXTEN) == 0
                && port.attrs.iflag & (flags::IGNBRK | flags::BRKINT | flags::PARMRK
                | flags::ISTRIP | flags::INLCR | flags::IGNCR | flags::ICRNL) == 0,
    {
        let fd = match sys::open_port_fd(builder.path.as_str()) {
            Ok(fd) => fd,
            Err(errno) => { return Err(Error::from_errno(errno)); },
        };

        let mut raw = match sys::fetch_termios(fd) {
            Ok(t) => t,
            Err(errno) => {
                sys::close_fd(fd);
                return Err(Error::from_errno(errno));
            },
        };

        // Enable reading from the port, ignore all modem control lines, and
        // switch the whole attribute set to raw mode: the four mode words
        // through the verified transformation, the control characters
        // through the platform's own raw-mode call.
        let (iflag, oflag, cflag, lflag) = sys::read_flag_words(&raw);
        let base = TermAttrs {
            iflag,
            oflag,
            cflag,
            lflag,
            ispeed: sys::input_speed(&raw),
            ospeed: sys::output_speed(&raw),
        };
        let ghost base0 = base;
        let attrs = flags::raw_mode_attrs(base);
        sys::make_raw(&mut raw);
        sys::store_flag_words(&mut raw, attrs.iflag, attrs.oflag, attrs.cflag, attrs.lflag);

        // Write the attributes to the device.
        if let Err(errno) = sys::apply_termios(fd, &raw) {
            sys::close_fd(fd);
            return Err(Error::from_errno(errno));
        }

        // Read the attributes back and compare them against what was
        // requested: some platforms silently clamp or ignore unsupported
        // combinations, and continuing with a configuration other than the
        // one the caller believes is active would be worse than failing.
        let readback = match sys::fetch_termios(fd) {
            Ok(t) => t,
            Err(errno) => {
                sys::close_fd(fd);
                return Err(Error::from_errno(errno));
            },
        };
        if let Err(e) = readback_verdict(sys::termios_equal(&raw, &readback)) {
            sys::close_fd(fd);
            return Err(e);
        }

        // Discard any stale bytes queued before raw mode took effect.
        if let Err(errno) = sys::flush_queue(fd, TCIOFLUSH) {
            sys::close_fd(fd);
            return Err(Error::from_errno(errno));
        }

        // Get exclusive access to the device.
        if let Err(errno) = sys::acquire_exclusive(fd) {
            sys::close_fd(fd);
            return Err(Error::from_errno(errno));
        }

        // Clear the non-blocking flag: subsequent transfers block under the
        // readiness wait's control rather than returning immediately.
        if let Err(errno) = sys::clear_nonblock(fd) {
            sys::close_fd(fd);
            return Err(Error::from_errno(errno));
        }

        let mut port = TTYPort {
            fd,
            raw,
            attrs,
            timeout_ms: 100,
            exclusive: true,
            port_name: Some(builder.path.clone()),
        };
        let ghost pre = port.attrs;

        // Apply the caller's configuration. On failure the port is dropped,
        // which releases exclusivity and closes the descriptor.
        match port.set_all(builder) {
            Ok(_) => {
                proof {
                    flags::lemma_settings_readback(pre, *builder);
                    flags::lemma_raw_mode_survives_settings(base0, *builder);
                }
                Ok(port)
            },
            Err(e) => Err(e),
        }
    }

    /// Creates a pair of pseudo serial terminals.
    ///
    /// The returned ports are connected: bytes written to one side are read
    /// from the other. The companion side is opened through the normal open
    /// sequence under its device path; the controlling side is constructed
    /// directly from the descriptor and shares the companion's attribute
    /// snapshot, since attribute readback on the controlling side fails on
    /// some platforms — a deliberate exception to the readback verification
    /// that `open` performs. Both sides start with a 100 ms timeout.
    ///
    /// ## Errors
    ///
    /// Attempting any transfer or parameter change on the companion side
    /// after the controlling side is closed will return errors.
    pub fn pair() -> (r: Result<(TTYPort, TTYPort)>)
        ensures
            r matches Ok(pair) ==> pair.0.attrs == pair.1.attrs
                && pair.0.fd >= 0 && pair.1.fd >= 0
                && pair.0.timeout_ms == 100 && pair.1.timeout_ms == 100
                && pair.0.exclusive && pair.1.exclusive
                && pair.0.port_name is None && pair.1.port_name is Some
                && flags::spec_read_baud(pair.1.attrs) == Some(9600u32)
                && flags::spec_read_data_bits(pair.1.attrs) == Some(DataBits::Eight)
                && flags::spec_read_flow_control(pair.1.attrs) == FlowControl::Disabled
                && flags::spec_read_parity(pair.1.attrs) == Parity::Disabled
                && flags::spec_read_stop_bits(pair.1.attrs) == StopBits::One,
    {
        // Allocate the next free pseudo-terminal, granted and unlocked.
        let (master_fd, slave_fd) = match sys::open_pty_pair_fds() {
            Ok(fds) => fds,
            Err(errno) => { return Err(Error::from_errno(errno)); },
        };

        // Resolve the companion side's device path, then release its
        // descriptor: the companion is reopened through the normal
        // readback-verifying open sequence.
        let name = match sys::tty_device_name(slave_fd) {
            Ok(name) => name,
            Err(errno) => {
                sys::close_fd(slave_fd);
                sys::close_fd(master_fd);
                return Err(Error::from_errno(errno));
            },
        };
        sys::close_fd(slave_fd);

        let settings = crate::config::new(name.as_str(), 9600).timeout(100);
        let slave = match TTYPort::open(&settings) {
            Ok(port) => port,
            Err(e) => {
                sys::close_fd(master_fd);
                return Err(e);
            },
        };

        // Construct the controlling side directly: it shares the companion's
        // attribute snapshot because attribute readback on the controlling
        // side fails on some platforms.
        let master = TTYPort {
            fd: master_fd,
            raw: sys::copy_termios(&slave.raw),
            attrs: slave.attrs,
            timeout_ms: 100,
            exclusive: true,
            port_name: None,
        };

        Ok((master, slave))
    }

    /// Sets the exclusivity of the port.
    ///
    /// If a port is exclusive, then trying to open the same device path again
    /// will fail.
    ///
    /// ## Errors
    ///
    /// * `Io` for any error while setting exclusivity for the port.
    pub fn set_exclusive(&mut self, exclusive: bool) -> (r: Result<()>)
        ensures
            r is Ok ==> final(self).exclusive == exclusive,
            r is Err ==> *final(self) == *old(self),
            final(self).fd == old(self).fd,
            final(self).attrs == old(self).attrs,
            final(self).timeout_ms == old(self).timeout_ms,
            final(self).port_name == old(self).port_name,
    {
        let setting_result = if exclusive {
            sys::acquire_exclusive(self.fd)
        } else {
            sys::release_exclusive(self.fd)
        };

        match setting_result {
            Ok(_) => {
                self.exclusive = exclusive;
                Ok(())
            },
            Err(errno) => Err(Error::from_errno(errno)),
        }
    }

    /// Asserts (`level` true) or clears (`level` false) one modem-control
    /// line, through the complementary assert-bits and clear-bits device
    /// calls rather than a read-modify-write, so concurrent changes to other
    /// signal lines are not raced with.
    fn set_pin(&mut self, pin: i32, level: bool) -> (r: Result<()>)
        ensures
            *final(self) == *old(self),
    {
        let retval = if level {
            sys::set_modem_bits(self.fd, pin)
        } else {
            sys::clear_modem_bits(self.fd, pin)
        };

        match retval {
            Ok(_) => Ok(()),
            Err(errno) => Err(Error::from_errno(errno)),
        }
    }

    /// Reads one modem-control line out of the full signal-status word.
    fn read_pin(&mut self, pin: i32) -> (r: Result<bool>)
        ensures
            *final(self) == *old(self),
    {
        match sys::modem_bits(self.fd) {
            Ok(bits) => Ok(pin_level(bits, pin)),
            Err(errno) => Err(Error::from_errno(errno)),
        }
    }

    /// Sets the state of the RTS (Request To Send) control signal.
    pub fn write_request_to_send(&mut self, level: bool) -> (r: Result<()>)
        ensures
            *final(self) == *old(self),
    {
        self.set_pin(TIOCM_RTS, level)
    }

    /// Writes to the Data Terminal Ready pin.
    pub fn write_data_terminal_ready(&mut self, level: bool) -> (r: Result<()>)
        ensures
            *final(self) == *old(self),
    {
        self.set_pin(TIOCM_DTR, level)
    }

    /// Reads the state of the CTS (Clear To Send) control signal.
    pub fn read_clear_to_send(&mut self) -> (r: Result<bool>)
        ensures
            *final(self) == *old(self),
    {
        self.read_pin(TIOCM_CTS)
    }

    /// Reads the state of the Data Set Ready control signal.
    pub fn read_data_set_ready(&mut self) -> (r: Result<bool>)
        ensures
            *final(self) == *old(self),
    {
        self.read_pin(TIOCM_DSR)
    }

    /// Reads the state of the Ring Indicator control signal.
    pub fn read_ring_indicator(&mut self) -> (r: Result<bool>)
        ensures
            *final(self) == *old(self),
    {
        self.read_pin(TIOCM_RI)
    }

    /// Reads the state of the Carrier Detect control signal.
    pub fn read_carrier_detect(&mut self) -> (r: Result<bool>)
        ensures
            *final(self) == *old(self),
    {
        self.read_pin(TIOCM_CD)
    }

    /// The configured timeout, clamped to the largest wait the readiness
    /// call accepts.
    fn poll_timeout(&self) -> (r: i32)
        ensures
            r >= 0,
            self.timeout_ms <= 0x7fffffff ==> r == self.timeout_ms as i32,
            self.timeout_ms > 0x7fffffff ==> r == 0x7fffffff,
    {
        if self.timeout_ms > 0x7fffffffu64 {
            0x7fffffffi32
        } else {
            self.timeout_ms as i32
        }
    }

    /// Reads bytes from the port into `buf`.
    ///
    /// The read first waits for the descriptor to become readable, up to the
    /// configured timeout; an elapsed wait fails with the timeout I/O kind,
    /// distinct from "zero bytes available". Once the descriptor is ready,
    /// exactly one underlying read is performed and its count returned, even
    /// if it transferred fewer bytes than the buffer holds.
    pub fn read(&mut self, buf: &mut Vec<u8>) -> (r: Result<usize>)
        ensures
            *final(self) == *old(self),
            final(buf)@.len() == old(buf)@.len(),
            r matches Ok(n) ==> n <= old(buf)@.len(),
            r matches Ok(n) ==> final(buf)@.subrange(n as int, final(buf)@.len() as int) == old(
                buf,
            )@.subrange(n as int, old(buf)@.len() as int),
    {
        let ready = match sys::wait_readable(self.fd, self.poll_timeout()) {
            Ok(n) => n,
            Err(errno) => { return Err(Error::from_errno(errno)); },
        };
        wait_verdict(ready)?;

        match sys::read_fd(self.fd, buf) {
            Ok(n) => Ok(n),
            Err(errno) => Err(Error::from_errno(errno)),
        }
    }

    /// Writes bytes from `buf` to the port.
    ///
    /// The write first waits for the descriptor to become writable, up to the
    /// configured timeout; an elapsed wait fails with the timeout I/O kind.
    /// Once the descriptor is ready, exactly one underlying write is
    /// performed and its count returned, even if it transferred fewer bytes
    /// than the buffer holds.
    pub fn write(&mut self, buf: &[u8]) -> (r: Result<usize>)
        ensures
            *final(self) == *old(self),
            r matches Ok(n) ==> n <= buf@.len(),
    {
        let ready = match sys::wait_writable(self.fd, self.poll_timeout()) {
            Ok(n) => n,
            Err(errno) => { return Err(Error::from_errno(errno)); },
        };
        wait_verdict(ready)?;

        match sys::write_fd(self.fd, buf) {
            Ok(n) => Ok(n),
            Err(errno) => Err(Error::from_errno(errno)),
        }
    }

    /// Blocks until all written output has been transmitted by the driver,
    /// not merely accepted into the kernel buffer.
    pub fn flush(&mut self) -> (r: Result<()>)
        ensures
            *final(self) == *old(self),
    {
        match sys::drain_output(self.fd) {
            Ok(_) => Ok(()),
            Err(errno) => Err(Error::from_errno(errno)),
        }
    }

    /// Discards all bytes from the driver's input buffer, output buffer, or
    /// both, as `buffer_to_clear` selects.
    pub fn clear(&self, buffer_to_clear: ClearBuffer) -> (r: Result<()>) {
        match sys::flush_queue(self.fd, flush_selector(buffer_to_clear)) {
            Ok(_) => Ok(()),
            Err(errno) => Err(Error::from_errno(errno)),
        }
    }
}

impl TTYPort {
    /// Attempts to clone the port, so one device can be written and read
    /// simultaneously from two handles.
    ///
    /// The clone duplicates the descriptor but carries its own copy of the
    /// cached attribute snapshot and timeout: changing settings on one handle
    /// leaves the other handle's cache behind, a caller-documented hazard.
    pub fn try_clone(&self) -> (r: Result<TTYPort>)
        ensures
            r matches Ok(port) ==> port.attrs == self.attrs
                && port.timeout_ms == self.timeout_ms
                && port.exclusive == self.exclusive
                && (port.port_name is Some <==> self.port_name is Some),
    {
        match sys::dup_fd(self.fd) {
            Ok(fd) => Ok(TTYPort {
                fd,
                raw: sys::copy_termios(&self.raw),
                attrs: self.attrs,
                timeout_ms: self.timeout_ms,
                exclusive: self.exclusive,
                port_name: self.name(),
            }),
            Err(errno) => Err(Error::from_errno(errno)),
        }
    }
}

impl SerialPortBuilder {
    /// Opens the port this configuration names, with these settings.
    pub fn open(self) -> (r: Result<TTYPort>)
        ensures
            r matches Ok(port) ==> flags::spec_speed_code(self.baud_rate) is Some
                && flags::spec_read_baud(port.attrs) == Some(self.baud_rate)
                && flags::spec_read_data_bits(port.attrs) == Some(self.data_bits)
                && flags::spec_read_flow_control(port.attrs) == self.flow_control
                && flags::spec_read_parity(port.attrs) == self.parity
                && flags::spec_read_stop_bits(port.attrs) == self.stop_bits
                && port.timeout_ms == self.timeout
                && port.exclusive
                && (port.port_name matches Some(n) && n@ == self.path@)
                && port.fd >= 0
                && port.attrs.cflag & (flags::CREAD | flags::CLOCAL) == flags::CREAD
                | flags::CLOCAL
                && port.attrs.oflag & flags::OPOST == 0
                && port.attrs.lflag & (flags::ECHO | flags::ECHONL | flags::ICANON | flags::ISIG
                | flags::IEXTEN) == 0
                && port.attrs.iflag & (flags::IGNBRK | flags::BRKINT | flags::PARMRK
                | flags::ISTRIP | flags::INLCR | flags::IGNCR | flags::ICRNL) == 0,
    {
        TTYPort::open(&self)
    }

    /// Opens the platform-specific interface to the port with these settings.
    pub fn open_native(self) -> (r: Result<TTYPort>)
        ensures
            r matches Ok(port) ==> flags::spec_speed_code(self.baud_rate) is Some
                && flags::spec_read_baud(port.attrs) == Some(self.baud_rate)
                && flags::spec_read_data_bits(port.attrs) == Some(self.data_bits)
                && flags::spec_read_flow_control(port.attrs) == self.flow_control
                && flags::spec_read_parity(port.attrs) == self.parity
                && flags::spec_read_stop_bits(port.attrs) == self.stop_bits
                && port.timeout_ms == self.timeout
                && port.exclusive
                && (port.port_name matches Some(n) && n@ == self.path@)
                && port.fd >= 0
                && port.attrs.cflag & (flags::CREAD | flags::CLOCAL) == flags::CREAD
                | flags::CLOCAL
                && port.attrs.oflag & flags::OPOST == 0
                && port.attrs.lflag & (flags::ECHO | flags::ECHONL | flags::ICANON | flags::ISIG
                | flags::IEXTEN) == 0
                && port.attrs.iflag & (flags::IGNBRK | flags::BRKINT | flags::PARMRK
                | flags::ISTRIP | flags::INLCR | flags::IGNCR | flags::ICRNL) == 0,
    {
        TTYPort::open(&self)
    }
}

impl Drop for TTYPort {
    /// Releases exclusivity (best effort, its error ignored) and then closes
    /// the descriptor. This order matters: the descriptor's close should not
    /// be treated as implicit abandonment while exclusivity metadata is
    /// inconsistent. Both happen on every path that destroys the handle,
    /// including the error paths of the open sequence.
    fn drop(&mut self)
        opens_invariants none
        no_unwind
    {
        let _ = sys::release_exclusive(self.fd);
        sys::close_fd(self.fd);
    }
}

} // verus!
