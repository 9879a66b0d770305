//! Trusted wrappers around the operating-system calls that the port handle
//! needs: terminal-attribute management, the exclusivity and modem-line
//! ioctls, descriptor polling and transfer, and pseudo-terminal allocation.
//!
//! Each wrapper holds one outside call, or only moves plain values into or
//! out of an outside structure; Verus believes the stated contract and does
//! not read the body.
//! Errors are handed back as the raw `errno` value of the failed call, which
//! verified code maps through [`crate::error::Error::from_errno`].

use vstd::prelude::*;

verus! {

use nix::fcntl::OFlag;

#[verifier::external_type_specification]
#[verifier::external_body]
/// Declares the terminal-attribute structure of the `termios` crate so that
/// it can be cached inside a port handle. It is opaque to Verus; the plain
/// snapshot in [`crate::flags::TermAttrs`] mirrors the fields this library
/// reads and writes.
pub struct ExTermios(termios::Termios);

/// Relies on `nix::fcntl::open`: opens the device read-write, without making
/// it the controlling terminal and without blocking, and returns the new
/// descriptor, which `open(2)` documents to be non-negative.
#[verifier::external_body]
pub(crate) fn open_port_fd(path: &str) -> (r: Result<i32, i32>)
    ensures
        r matches Ok(fd) ==> fd >= 0,
{
    match nix::fcntl::open(
        path,
        OFlag::O_RDWR | OFlag::O_NOCTTY | OFlag::O_NONBLOCK,
        nix::sys::stat::Mode::empty(),
    ) {
        Ok(fd) => Ok(fd),
        Err(e) => Err(e as i32),
    }
}

/// Relies on `nix::unistd::close`: releases the descriptor. The result is
/// ignored: a cleanup path has nothing it can do about a failing `close(2)`.
#[verifier::external_body]
pub(crate) fn close_fd(fd: i32)
    opens_invariants none
    no_unwind
{
    let _ = nix::unistd::close(fd);
}

/// Relies on `termios::Termios::from_fd`: reads the device's current
/// terminal attributes (`tcgetattr(3)`).
#[verifier::external_body]
pub(crate) fn fetch_termios(fd: i32) -> (r: Result<termios::Termios, i32>) {
    match termios::Termios::from_fd(fd) {
        Ok(t) => Ok(t),
        Err(e) => Err(e.raw_os_error().unwrap_or(0)),
    }
}

/// Reads the four mode words out of a terminal-attribute structure, in the
/// order input, output, control, local.
#[verifier::external_body]
pub(crate) fn read_flag_words(t: &termios::Termios) -> (u32, u32, u32, u32) {
    (t.c_iflag, t.c_oflag, t.c_cflag, t.c_lflag)
}

/// Writes the four mode words into a terminal-attribute structure, in the
/// order input, output, control, local.
#[verifier::external_body]
pub(crate) fn store_flag_words(
    t: &mut termios::Termios,
    iflag: u32,
    oflag: u32,
    cflag: u32,
    lflag: u32,
) {
    t.c_iflag = iflag;
    t.c_oflag = oflag;
    t.c_cflag = cflag;
    t.c_lflag = lflag;
}

/// Relies on `termios::cfmakeraw`: switches the attribute structure to raw
/// mode. The open sequence afterwards overwrites the four mode words with the
/// verified raw-mode transformation of [`crate::flags::raw_mode_attrs`]; what
/// this call contributes beyond them is the control-character settings of raw
/// mode (return a read as soon as one byte is available, with no timer).
#[verifier::external_body]
pub(crate) fn make_raw(t: &mut termios::Termios) {
    termios::cfmakeraw(t);
}

/// Relies on `termios::cfsetispeed`: stores the input-speed code in the
/// attribute structure.
#[verifier::external_body]
pub(crate) fn set_input_speed(t: &mut termios::Termios, code: u32) -> (r: Result<(), i32>) {
    match termios::cfsetispeed(t, code) {
        Ok(()) => Ok(()),
        Err(e) => Err(e.raw_os_error().unwrap_or(0)),
    }
}

/// Relies on `termios::cfsetospeed`: stores the output-speed code in the
/// attribute structure.
#[verifier::external_body]
pub(crate) fn set_output_speed(t: &mut termios::Termios, code: u32) -> (r: Result<(), i32>) {
    match termios::cfsetospeed(t, code) {
        Ok(()) => Ok(()),
        Err(e) => Err(e.raw_os_error().unwrap_or(0)),
    }
}

/// Relies on `termios::cfgetispeed`: reads the input-speed code stored in
/// the attribute structure.
#[verifier::external_body]
pub(crate) fn input_speed(t: &termios::Termios) -> u32 {
    termios::cfgetispeed(t)
}

/// Relies on `termios::cfgetospeed`: reads the output-speed code stored in
/// the attribute structure.
#[verifier::external_body]
pub(crate) fn output_speed(t: &termios::Termios) -> u32 {
    termios::cfgetospeed(t)
}

/// Relies on `termios::tcsetattr` with `TCSANOW`: writes the attribute
/// structure to the device immediately.
#[verifier::external_body]
pub(crate) fn apply_termios(fd: i32, t: &termios::Termios) -> (r: Result<(), i32>) {
    match termios::tcsetattr(fd, termios::TCSANOW, t) {
        Ok(()) => Ok(()),
        Err(e) => Err(e.raw_os_error().unwrap_or(0)),
    }
}

/// Relies on `termios::tcflush`: discards data held in the driver queue that
/// the selector names (input, output, or both).
#[verifier::external_body]
pub(crate) fn flush_queue(fd: i32, selector: i32) -> (r: Result<(), i32>) {
    match termios::tcflush(fd, selector) {
        Ok(()) => Ok(()),
        Err(e) => Err(e.raw_os_error().unwrap_or(0)),
    }
}

/// Relies on `termios::tcdrain`: blocks until everything written to the
/// device has been transmitted by the driver, not merely queued.
#[verifier::external_body]
pub(crate) fn drain_output(fd: i32) -> (r: Result<(), i32>) {
    match termios::tcdrain(fd) {
        Ok(()) => Ok(()),
        Err(e) => Err(e.raw_os_error().unwrap_or(0)),
    }
}

/// Relies on the derived `Copy` of `termios::Termios`: duplicates an
/// attribute structure, so a connected pair's controlling side can share the
/// companion side's snapshot.
#[verifier::external_body]
pub(crate) fn copy_termios(t: &termios::Termios) -> termios::Termios {
    *t
}

/// Relies on the derived `PartialEq` of `termios::Termios`: compares two
/// attribute structures field for field, including the control characters.
#[verifier::external_body]
pub(crate) fn termios_equal(a: &termios::Termios, b: &termios::Termios) -> bool {
    a == b
}

/// Relies on `ioctl_rs::tiocexcl`: acquires exclusive access to the device, so
/// that further opens of the same path fail until exclusivity is released.
#[verifier::external_body]
pub(crate) fn acquire_exclusive(fd: i32) -> (r: Result<(), i32>) {
    match ioctl_rs::tiocexcl(fd) {
        Ok(()) => Ok(()),
        Err(e) => Err(e.raw_os_error().unwrap_or(0)),
    }
}

/// Relies on `ioctl_rs::tiocnxcl`: releases exclusive access to the device.
#[verifier::external_body]
pub(crate) fn release_exclusive(fd: i32) -> (r: Result<(), i32>)
    opens_invariants none
    no_unwind
{
    match ioctl_rs::tiocnxcl(fd) {
        Ok(()) => Ok(()),
        Err(e) => Err(e.raw_os_error().unwrap_or(0)),
    }
}

/// Relies on `ioctl_rs::tiocmbis`: asserts the named modem-control bits, leaving
/// all other signal lines alone.
#[verifier::external_body]
pub(crate) fn set_modem_bits(fd: i32, bits: i32) -> (r: Result<(), i32>) {
    match ioctl_rs::tiocmbis(fd, bits) {
        Ok(()) => Ok(()),
        Err(e) => Err(e.raw_os_error().unwrap_or(0)),
    }
}

/// Relies on `ioctl_rs::tiocmbic`: clears the named modem-control bits, leaving
/// all other signal lines alone.
#[verifier::external_body]
pub(crate) fn clear_modem_bits(fd: i32, bits: i32) -> (r: Result<(), i32>) {
    match ioctl_rs::tiocmbic(fd, bits) {
        Ok(()) => Ok(()),
        Err(e) => Err(e.raw_os_error().unwrap_or(0)),
    }
}

/// Relies on `ioctl_rs::tiocmget`: fetches the full modem signal-status word.
#[verifier::external_body]
pub(crate) fn modem_bits(fd: i32) -> (r: Result<i32, i32>) {
    match ioctl_rs::tiocmget(fd) {
        Ok(bits) => Ok(bits),
        Err(e) => Err(e.raw_os_error().unwrap_or(0)),
    }
}

/// Relies on `nix::fcntl::fcntl` with `F_SETFL`: clears the descriptor's
/// status flags, in particular non-blocking mode, so subsequent transfers
/// block under this library's own timeout control.
#[verifier::external_body]
pub(crate) fn clear_nonblock(fd: i32) -> (r: Result<(), i32>) {
    match nix::fcntl::fcntl(fd, nix::fcntl::FcntlArg::F_SETFL(nix::fcntl::OFlag::empty())) {
        Ok(_) => Ok(()),
        Err(e) => Err(e as i32),
    }
}

/// Relies on `nix::poll::poll` with the readable-event flag: waits up to
/// `timeout_ms` milliseconds for the descriptor to become readable and
/// returns the number of ready descriptors, which for a single descriptor is
/// zero (the wait timed out) or one.
#[verifier::external_body]
pub(crate) fn wait_readable(fd: i32, timeout_ms: i32) -> (r: Result<i32, i32>)
    requires
        timeout_ms >= 0,
    ensures
        r matches Ok(n) ==> 0 <= n <= 1,
{
    let mut fds = [nix::poll::PollFd::new(fd, nix::poll::PollFlags::POLLIN)];
    match nix::poll::poll(&mut fds, timeout_ms) {
        Ok(n) => Ok(n),
        Err(e) => Err(e as i32),
    }
}

/// Relies on `nix::poll::poll` with the writable-event flag: waits up to
/// `timeout_ms` milliseconds for the descriptor to become writable and
/// returns the number of ready descriptors, which for a single descriptor is
/// zero (the wait timed out) or one.
#[verifier::external_body]
pub(crate) fn wait_writable(fd: i32, timeout_ms: i32) -> (r: Result<i32, i32>)
    requires
        timeout_ms >= 0,
    ensures
        r matches Ok(n) ==> 0 <= n <= 1,
{
    let mut fds = [nix::poll::PollFd::new(fd, nix::poll::PollFlags::POLLOUT)];
    match nix::poll::poll(&mut fds, timeout_ms) {
        Ok(n) => Ok(n),
        Err(e) => Err(e as i32),
    }
}

/// Relies on `nix::unistd::read`: performs exactly one `read(2)` on the
/// descriptor into the buffer and returns the number of bytes transferred,
/// which `read(2)` documents to be at most the buffer's length. The buffer
/// keeps its length, and only the first transferred-count bytes are written:
/// everything past them keeps its old value.
#[verifier::external_body]
pub(crate) fn read_fd(fd: i32, buf: &mut Vec<u8>) -> (r: Result<usize, i32>)
    ensures
        final(buf)@.len() == old(buf)@.len(),
        r matches Ok(n) ==> n <= old(buf)@.len(),
        r matches Ok(n) ==> final(buf)@.subrange(n as int, final(buf)@.len() as int) == old(
            buf,
        )@.subrange(n as int, old(buf)@.len() as int),
        r is Err ==> final(buf)@ == old(buf)@,
{
    match nix::unistd::read(fd, buf.as_mut_slice()) {
        Ok(n) => Ok(n),
        Err(e) => Err(e as i32),
    }
}

/// Relies on `nix::unistd::write`: performs exactly one `write(2)` on the
/// descriptor from the buffer and returns the number of bytes transferred,
/// which `write(2)` documents to be at most the buffer's length.
#[verifier::external_body]
pub(crate) fn write_fd(fd: i32, buf: &[u8]) -> (r: Result<usize, i32>)
    ensures
        r matches Ok(n) ==> n <= buf@.len(),
{
    match nix::unistd::write(fd, buf) {
        Ok(n) => Ok(n),
        Err(e) => Err(e as i32),
    }
}

/// Relies on `nix::unistd::dup`: duplicates the descriptor, so two handles
/// can address one device simultaneously. `dup(2)` documents the new
/// descriptor to be non-negative.
#[verifier::external_body]
pub(crate) fn dup_fd(fd: i32) -> (r: Result<i32, i32>)
    ensures
        r matches Ok(nfd) ==> nfd >= 0,
{
    match nix::unistd::dup(fd) {
        Ok(nfd) => Ok(nfd),
        Err(e) => Err(e as i32),
    }
}

/// Relies on `nix::pty::openpty`: allocates a connected pseudo-terminal
/// pair, granted and unlocked, and returns the two descriptors as
/// (controlling side, companion side). `openpty(3)` opens two new
/// descriptors, so on success both are non-negative and distinct.
#[verifier::external_body]
pub(crate) fn open_pty_pair_fds() -> (r: Result<(i32, i32), i32>)
    ensures
        r matches Ok(fds) ==> fds.0 >= 0 && fds.1 >= 0 && fds.0 != fds.1,
{
    match nix::pty::openpty(None::<&nix::pty::Winsize>, None::<&nix::sys::termios::Termios>) {
        Ok(pair) => Ok((pair.master, pair.slave)),
        Err(e) => Err(e as i32),
    }
}

/// Relies on `nix::unistd::ttyname`: resolves the device path of the
/// terminal open on the descriptor.
#[verifier::external_body]
pub(crate) fn tty_device_name(fd: i32) -> (r: Result<String, i32>) {
    match nix::unistd::ttyname(fd) {
        Ok(path) => Ok(path.to_string_lossy().into_owned()),
        Err(e) => Err(e as i32),
    }
}

} // verus!
