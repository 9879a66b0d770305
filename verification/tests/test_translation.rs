//! Tests for the flag translator: the baud table and the bit-level mappings
//! of data bits, parity, stop bits, and flow control.

use serialport::flags::{
    available_baud_rates, baud_for_speed_code, data_bits_of, flow_control_of, parity_of,
    speed_code_for_baud, stop_bits_of, with_data_bits, with_flow_cflag, with_flow_iflag,
    with_parity_cflag, with_parity_iflag, with_stop_bits, CRTSCTS, CS7, CSIZE, CSTOPB, IGNPAR,
    INPCK, IXOFF, IXON, PARENB, PARODD,
};
use serialport::{DataBits, Error, ErrorKind, FlowControl, IoErrorKind, Parity, StopBits};

#[test]
fn test_baud_table_round_trip_all_rates() {
    // For all supported baud rates b in the enumerated table:
    // reading back the speed code written for b returns b.
    let rates = available_baud_rates();
    assert_eq!(rates.len(), 30);
    for &b in rates.iter() {
        let code = speed_code_for_baud(b)
            .expect("an officially supported rate is in the platform table");
        assert_eq!(baud_for_speed_code(code), Some(b));
    }
}

#[test]
fn test_baud_table_exact_codes() {
    assert_eq!(speed_code_for_baud(9600), Some(0o15));
    assert_eq!(speed_code_for_baud(38400), Some(0o17));
    assert_eq!(speed_code_for_baud(57600), Some(0o10001));
    assert_eq!(speed_code_for_baud(115200), Some(0o10002));
    assert_eq!(speed_code_for_baud(4000000), Some(0o10017));
    assert_eq!(baud_for_speed_code(0o15), Some(9600));
    assert_eq!(baud_for_speed_code(0o1), Some(50));
    // Rates absent from the table translate to nothing.
    assert_eq!(speed_code_for_baud(0), None);
    assert_eq!(speed_code_for_baud(12345), None);
    assert_eq!(speed_code_for_baud(128000), None);
    // Speed codes the portable model cannot name read back as nothing.
    assert_eq!(baud_for_speed_code(0o20), None);
    assert_eq!(baud_for_speed_code(0xFFFF), None);
}

#[test]
fn test_data_bits_translation() {
    let cflag = 0xFFFFFFFFu32;
    assert_eq!(data_bits_of(with_data_bits(cflag, DataBits::Five)), Some(DataBits::Five));
    assert_eq!(data_bits_of(with_data_bits(cflag, DataBits::Six)), Some(DataBits::Six));
    assert_eq!(data_bits_of(with_data_bits(cflag, DataBits::Seven)), Some(DataBits::Seven));
    assert_eq!(data_bits_of(with_data_bits(cflag, DataBits::Eight)), Some(DataBits::Eight));
    // The character-size field is exactly the CSIZE region.
    assert_eq!(with_data_bits(0, DataBits::Seven), CS7);
    assert_eq!(with_data_bits(CSIZE, DataBits::Five), 0);
}

#[test]
fn test_parity_translation() {
    let cflag = 0u32;
    let odd = with_parity_cflag(cflag, Parity::Odd);
    assert_eq!(odd, PARENB | PARODD);
    assert_eq!(parity_of(odd), Parity::Odd);

    let even = with_parity_cflag(PARODD, Parity::Even);
    assert_eq!(even, PARENB);
    assert_eq!(parity_of(even), Parity::Even);

    let off = with_parity_cflag(PARENB | PARODD, Parity::Disabled);
    assert_eq!(off, 0);
    assert_eq!(parity_of(off), Parity::Disabled);

    // Disabling parity ignores parity errors; enabling it checks input.
    assert_eq!(with_parity_iflag(INPCK, Parity::Disabled), IGNPAR);
    assert_eq!(with_parity_iflag(IGNPAR, Parity::Odd), INPCK);
    assert_eq!(with_parity_iflag(0, Parity::Even), INPCK);
}

#[test]
fn test_stop_bits_translation() {
    assert_eq!(with_stop_bits(0, StopBits::Two), CSTOPB);
    assert_eq!(with_stop_bits(CSTOPB, StopBits::One), 0);
    assert_eq!(stop_bits_of(CSTOPB), StopBits::Two);
    assert_eq!(stop_bits_of(0), StopBits::One);
    assert_eq!(stop_bits_of(with_stop_bits(0xFFFFFFFF, StopBits::One)), StopBits::One);
}

#[test]
fn test_flow_control_translation() {
    // Enabling one flow-control mechanism clears the other's bits.
    assert_eq!(with_flow_cflag(CRTSCTS, FlowControl::Software), 0);
    assert_eq!(with_flow_iflag(IXON | IXOFF, FlowControl::Hardware), 0);
    assert_eq!(with_flow_cflag(0, FlowControl::Hardware), CRTSCTS);
    assert_eq!(with_flow_iflag(0, FlowControl::Software), IXON | IXOFF);

    assert_eq!(flow_control_of(0, CRTSCTS), FlowControl::Hardware);
    assert_eq!(flow_control_of(IXON | IXOFF, 0), FlowControl::Software);
    assert_eq!(flow_control_of(IXON, 0), FlowControl::Software);
    assert_eq!(flow_control_of(0, 0), FlowControl::Disabled);

    // Read-back prefers the hardware flag when both could apply.
    assert_eq!(flow_control_of(IXON | IXOFF, CRTSCTS), FlowControl::Hardware);
}

#[test]
fn test_builder_accumulates_settings() {
    let b = serialport::new("/dev/ttyUSB0", 115200)
        .data_bits(DataBits::Seven)
        .parity(Parity::Even)
        .stop_bits(StopBits::Two)
        .flow_control(FlowControl::Hardware)
        .timeout(250);
    assert_eq!(b.path, "/dev/ttyUSB0".to_string());
    assert_eq!(b.baud_rate, 115200);
    assert_eq!(b.data_bits, DataBits::Seven);
    assert_eq!(b.parity, Parity::Even);
    assert_eq!(b.stop_bits, StopBits::Two);
    assert_eq!(b.flow_control, FlowControl::Hardware);
    assert_eq!(b.timeout, 250);

    let b = b.path("/dev/ttyS1").baud_rate(9600);
    assert_eq!(b.path, "/dev/ttyS1".to_string());
    assert_eq!(b.baud_rate, 9600);
    assert_eq!(b.parity, Parity::Even);

    let d = serialport::new("/dev/ttyS0", 300);
    assert_eq!(d.data_bits, DataBits::Eight);
    assert_eq!(d.parity, Parity::Disabled);
    assert_eq!(d.stop_bits, StopBits::One);
    assert_eq!(d.flow_control, FlowControl::Disabled);
    assert_eq!(d.timeout, 0);
}

#[test]
fn test_error_kinds_from_errno() {
    assert_eq!(Error::from_errno(2).kind(), ErrorKind::NoDevice);
    assert_eq!(Error::from_errno(6).kind(), ErrorKind::NoDevice);
    assert_eq!(Error::from_errno(16).kind(), ErrorKind::NoDevice);
    assert_eq!(Error::from_errno(19).kind(), ErrorKind::NoDevice);
    assert_eq!(Error::from_errno(22).kind(), ErrorKind::InvalidInput);
    assert_eq!(Error::from_errno(13).kind(), ErrorKind::Io(IoErrorKind::PermissionDenied));
    assert_eq!(Error::from_errno(1).kind(), ErrorKind::Io(IoErrorKind::PermissionDenied));
    assert_eq!(Error::from_errno(4).kind(), ErrorKind::Io(IoErrorKind::Interrupted));
    assert_eq!(Error::from_errno(11).kind(), ErrorKind::Io(IoErrorKind::WouldBlock));
    assert_eq!(Error::from_errno(110).kind(), ErrorKind::Io(IoErrorKind::TimedOut));
    assert_eq!(Error::from_errno(5).kind(), ErrorKind::Io(IoErrorKind::Other));

    let e = Error::new(ErrorKind::Unknown, "something odd".to_string());
    assert_eq!(e.kind(), ErrorKind::Unknown);
    assert_eq!(e.description, "something odd".to_string());
}

#[test]
fn test_settings_readback_all_combinations() {
    // Applying a whole configuration to a snapshot and reading it back
    // returns exactly the values applied, for every combination of data bits,
    // parity, stop bits, and flow control, from an arbitrary starting state.
    let all_data_bits = [DataBits::Five, DataBits::Six, DataBits::Seven, DataBits::Eight];
    let all_parity = [Parity::Disabled, Parity::Odd, Parity::Even];
    let all_stop_bits = [StopBits::One, StopBits::Two];
    let all_flow = [FlowControl::Disabled, FlowControl::Software, FlowControl::Hardware];
    let starting_states: [(u32, u32); 3] =
        [(0, 0), (0xFFFFFFFF, 0xFFFFFFFF), (0x12345678, 0x9ABCDEF0)];

    for &(iflag0, cflag0) in starting_states.iter() {
        for &db in all_data_bits.iter() {
            for &p in all_parity.iter() {
                for &sb in all_stop_bits.iter() {
                    for &fc in all_flow.iter() {
                        // Apply in the order the port applies a configuration:
                        // speed, data bits, flow control, parity, stop bits.
                        let code = speed_code_for_baud(9600).unwrap();
                        let mut cflag = cflag0;
                        let mut iflag = iflag0;
                        cflag = with_data_bits(cflag, db);
                        iflag = with_flow_iflag(iflag, fc);
                        cflag = with_flow_cflag(cflag, fc);
                        iflag = with_parity_iflag(iflag, p);
                        cflag = with_parity_cflag(cflag, p);
                        cflag = with_stop_bits(cflag, sb);

                        assert_eq!(baud_for_speed_code(code), Some(9600));
                        assert_eq!(data_bits_of(cflag), Some(db));
                        assert_eq!(flow_control_of(iflag, cflag), fc);
                        assert_eq!(parity_of(cflag), p);
                        assert_eq!(stop_bits_of(cflag), sb);
                        let _ = iflag;
                    }
                }
            }
        }
    }
}
