//! Tests for the `tty::TTYPort` struct, exercised over connected
//! pseudo-terminal pairs.

use serialport::tty::{
    pin_level, readback_verdict, wait_verdict, TIOCM_CTS, TIOCM_RTS, TTYPort,
};
use serialport::{DataBits, ErrorKind, FlowControl, IoErrorKind, Parity, StopBits};

#[test]
fn test_ttyport_pair() {
    let (mut master, mut slave) = TTYPort::pair().expect("Unable to create ptty pair");

    // Test file descriptors.
    assert!(master.as_raw_fd() > 0, "Invalid file descriptor on master ptty");
    assert!(slave.as_raw_fd() > 0, "Invalid file descriptor on slae ptty");
    assert_ne!(
        master.as_raw_fd(),
        slave.as_raw_fd(),
        "master and slave ptty's share the same file descriptor."
    );

    let msg = "Test Message";
    let mut buf = vec![0u8; 128];

    // Write the string on the master
    assert_eq!(
        master.write(msg.as_bytes()).unwrap(),
        msg.len(),
        "Unable to write message on master."
    );

    // Read it on the slave
    let nbytes = slave.read(&mut buf).expect("Unable to read bytes.");
    assert_eq!(
        nbytes,
        msg.len(),
        "Read message length differs from sent message."
    );

    assert_eq!(
        std::str::from_utf8(&buf[..nbytes]).unwrap(),
        msg,
        "Received message does not match sent"
    );
}

#[test]
fn test_ttyport_timeout() {
    let (mut master, _slave) = TTYPort::pair().expect("Unable to create ptty pair");
    master.set_timeout(1000).unwrap();

    let mut buffer = vec![0u8; 1];
    let read_res = master.read(&mut buffer);

    match read_res {
        Ok(_) => panic!("Received data without sending"),
        Err(e) => assert_eq!(
            e.kind(),
            ErrorKind::Io(IoErrorKind::TimedOut),
            "Read did not time out"
        ),
    }
}

#[test]
fn test_ttyport_set_standard_baud() {
    // `master` must be kept alive: dropping it causes the slave to be
    // deleted by the OS.
    let (_master, mut slave) = TTYPort::pair().expect("Unable to create ptty pair");

    slave.set_baud_rate(9600).unwrap();
    assert_eq!(slave.baud_rate().unwrap(), 9600);
    slave.set_baud_rate(57600).unwrap();
    assert_eq!(slave.baud_rate().unwrap(), 57600);
    slave.set_baud_rate(115200).unwrap();
    assert_eq!(slave.baud_rate().unwrap(), 115200);
}

#[test]
fn test_ttyport_invalid_baud_leaves_rate_unchanged() {
    let (_master, mut slave) = TTYPort::pair().expect("Unable to create ptty pair");

    slave.set_baud_rate(19200).unwrap();
    assert_eq!(slave.baud_rate().unwrap(), 19200);

    // A rate absent from the platform table is rejected with InvalidInput
    // and the previously applied rate stays.
    let err = slave.set_baud_rate(12345).unwrap_err();
    assert_eq!(err.kind(), ErrorKind::InvalidInput);
    assert_eq!(slave.baud_rate().unwrap(), 19200);

    let err = slave.set_baud_rate(0).unwrap_err();
    assert_eq!(err.kind(), ErrorKind::InvalidInput);
    assert_eq!(slave.baud_rate().unwrap(), 19200);
}

#[test]
fn test_ttyport_open_readback() {
    // Opening a device and immediately reading back its configuration
    // returns exactly the values passed to open.
    let (_master, slave) = TTYPort::pair().expect("Unable to create ptty pair");
    let path = slave.name().expect("slave has a device path");
    std::mem::drop(slave);

    let builder = serialport::new(path.as_str(), 19200)
        .data_bits(DataBits::Eight)
        .parity(Parity::Disabled)
        .stop_bits(StopBits::Two)
        .flow_control(FlowControl::Software)
        .timeout(50);
    let port = TTYPort::open(&builder).expect("Unable to open the slave side");
    assert_eq!(port.baud_rate(), Some(19200));
    assert_eq!(port.data_bits(), Some(DataBits::Eight));
    assert_eq!(port.parity(), Some(Parity::Disabled));
    assert_eq!(port.stop_bits(), Some(StopBits::Two));
    assert_eq!(port.flow_control(), Some(FlowControl::Software));
    assert_eq!(port.timeout(), 50);
}

#[test]
fn test_ttyport_exclusive_reopen() {
    // Opening the same device path twice, both exclusively, makes the
    // second open fail with NoDevice; after the first handle is closed the
    // second open succeeds.
    let (_master, slave) = TTYPort::pair().expect("Unable to create ptty pair");
    assert!(slave.exclusive());
    let path = slave.name().expect("slave has a device path");

    let second = TTYPort::open(&serialport::new(path.as_str(), 9600));
    let err = match second {
        Ok(_) => panic!("second exclusive open of the same path succeeded"),
        Err(e) => e,
    };
    assert_eq!(err.kind(), ErrorKind::NoDevice);

    std::mem::drop(slave);

    let reopened = TTYPort::open(&serialport::new(path.as_str(), 9600));
    assert!(reopened.is_ok(), "open after closing the first handle failed");
}

#[test]
fn test_ttyport_set_exclusive_toggle() {
    let (_master, mut slave) = TTYPort::pair().expect("Unable to create ptty pair");
    assert!(slave.exclusive());
    slave.set_exclusive(false).expect("could not release exclusivity");
    assert!(!slave.exclusive());
    slave.set_exclusive(true).expect("could not reacquire exclusivity");
    assert!(slave.exclusive());
}

#[test]
fn test_ttyport_pair_transfer_content() {
    // Writing N bytes on one side and reading from the other returns
    // exactly N bytes with identical content; partial reads are allowed and
    // the total across reads must equal N.
    let (mut master, mut slave) = TTYPort::pair().expect("Unable to create ptty pair");
    master.set_timeout(1000).unwrap();
    slave.set_timeout(1000).unwrap();

    let mut msg: Vec<u8> = Vec::new();
    let mut i: usize = 0;
    while i < 1000 {
        msg.push((i % 251) as u8);
        i += 1;
    }

    let mut written: usize = 0;
    while written < msg.len() {
        let n = master.write(&msg[written..]).expect("Unable to write on master");
        assert!(n > 0, "write made no progress");
        written += n;
    }

    let mut received: Vec<u8> = Vec::new();
    while received.len() < msg.len() {
        let mut buf = vec![0u8; 256];
        let n = slave.read(&mut buf).expect("Unable to read on slave");
        assert!(n > 0, "read made no progress");
        received.extend_from_slice(&buf[..n]);
    }

    assert_eq!(received.len(), msg.len(), "total read differs from total written");
    assert_eq!(received, msg, "received bytes differ from sent bytes");
}

#[test]
fn test_ttyport_names_and_flush() {
    let (mut master, slave) = TTYPort::pair().expect("Unable to create ptty pair");
    assert!(master.name().is_none(), "master side has no device path");
    let name = slave.name().expect("slave side has a device path");
    assert!(name.len() > 0);

    master.write("x".as_bytes()).unwrap();
    master.flush().expect("flush failed");
}

#[test]
fn test_ttyport_clear_buffers() {
    let (_master, slave) = TTYPort::pair().expect("Unable to create ptty pair");
    slave.clear(serialport::ClearBuffer::Input).expect("clearing the input buffer failed");
    slave.clear(serialport::ClearBuffer::Output).expect("clearing the output buffer failed");
    slave.clear(serialport::ClearBuffer::All).expect("clearing both buffers failed");
}

#[test]
fn test_builder_open_native() {
    let (_master, slave) = TTYPort::pair().expect("Unable to create ptty pair");
    let path = slave.name().expect("slave has a device path");
    std::mem::drop(slave);

    let port = serialport::new(path.as_str(), 19200)
        .timeout(25)
        .open_native()
        .expect("open_native failed");
    assert_eq!(port.baud_rate(), Some(19200));
    assert_eq!(port.timeout(), 25);
    assert_eq!(port.name().unwrap(), path);
}

#[test]
fn test_ttyport_try_clone() {
    let (mut master, slave) = TTYPort::pair().expect("Unable to create ptty pair");
    let mut clone = slave.try_clone().expect("could not clone the slave side");
    assert_eq!(clone.timeout(), slave.timeout());
    assert_eq!(clone.baud_rate(), slave.baud_rate());
    assert_ne!(clone.as_raw_fd(), slave.as_raw_fd());

    // The clone addresses the same device: bytes written on the master are
    // readable through it.
    clone.set_timeout(1000).unwrap();
    master.write("ping".as_bytes()).unwrap();
    let mut buf = vec![0u8; 16];
    let n = clone.read(&mut buf).expect("could not read through the clone");
    assert_eq!(&buf[..n], "ping".as_bytes());
}

#[test]
fn test_wait_and_readback_verdicts() {
    // An elapsed readiness wait is a timeout-kind error, distinct from a
    // generic failure; a ready descriptor proceeds.
    let timed_out = wait_verdict(0).unwrap_err();
    assert_eq!(timed_out.kind(), ErrorKind::Io(IoErrorKind::TimedOut));
    assert!(wait_verdict(1).is_ok());

    // A readback mismatch is an Unknown error; a match proceeds.
    let mismatch = readback_verdict(false).unwrap_err();
    assert_eq!(mismatch.kind(), ErrorKind::Unknown);
    assert_eq!(mismatch.description, "Settings did not apply correctly".to_string());
    assert!(readback_verdict(true).is_ok());

    // A modem-line read tests the relevant bit of the status word.
    assert!(pin_level(TIOCM_CTS | TIOCM_RTS, TIOCM_CTS));
    assert!(!pin_level(TIOCM_RTS, TIOCM_CTS));
    assert!(!pin_level(0, TIOCM_RTS));
}
