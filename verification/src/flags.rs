//! The flag translator: pure mappings between the portable configuration
//! model and the Linux terminal-control bit patterns.
//!
//! Hardware speed encodings are historical, non-linear constants, so the baud
//! translation is an explicit enumerated table rather than a formula. The
//! remaining line parameters each live in a fixed region of the input-mode or
//! control-mode flag word; every update is a masked update that replaces its
//! own region and leaves every other bit alone, which is what makes the
//! set-then-read-back laws below provable.

use vstd::prelude::*;

use crate::config::{DataBits, FlowControl, Parity, SerialPortBuilder, StopBits};

verus! {

// Input-mode flag bits (`c_iflag`).

/// Input mode: ignore framing and parity errors.
pub const IGNPAR: u32 = 0o4;
/// Input mode: enable input parity checking.
pub const INPCK: u32 = 0o20;
/// Input mode: enable XON/XOFF flow control on output.
pub const IXON: u32 = 0o2000;
/// Input mode: enable XON/XOFF flow control on input.
pub const IXOFF: u32 = 0o10000;
/// Input mode: ignore a break condition.
pub const IGNBRK: u32 = 0o1;
/// Input mode: raise a signal on a break condition.
pub const BRKINT: u32 = 0o2;
/// Input mode: mark bytes carrying parity errors in the stream.
pub const PARMRK: u32 = 0o10;
/// Input mode: strip the eighth bit off each byte.
pub const ISTRIP: u32 = 0o40;
/// Input mode: translate newline to carriage return on input.
pub const INLCR: u32 = 0o100;
/// Input mode: discard carriage returns on input.
pub const IGNCR: u32 = 0o200;
/// Input mode: translate carriage return to newline on input.
pub const ICRNL: u32 = 0o400;

// Output-mode flag bits (`c_oflag`).

/// Output mode: enable implementation-defined output processing.
pub const OPOST: u32 = 0o1;

// Local-mode flag bits (`c_lflag`).

/// Local mode: generate signals on the INTR, QUIT and SUSP characters.
pub const ISIG: u32 = 0o1;
/// Local mode: canonical (line-editing) input processing.
pub const ICANON: u32 = 0o2;
/// Local mode: echo input characters back.
pub const ECHO: u32 = 0o10;
/// Local mode: echo newline even when echo is off.
pub const ECHONL: u32 = 0o100;
/// Local mode: enable implementation-defined input processing.
pub const IEXTEN: u32 = 0o100000;

// Control-mode flag bits (`c_cflag`).

/// Control mode: mask covering the character-size field.
pub const CSIZE: u32 = 0o60;
/// Control mode: 5-bit characters.
pub const CS5: u32 = 0o0;
/// Control mode: 6-bit characters.
pub const CS6: u32 = 0o20;
/// Control mode: 7-bit characters.
pub const CS7: u32 = 0o40;
/// Control mode: 8-bit characters.
pub const CS8: u32 = 0o60;
/// Control mode: send two stop bits rather than one.
pub const CSTOPB: u32 = 0o100;
/// Control mode: enable the receiver.
pub const CREAD: u32 = 0o200;
/// Control mode: enable parity generation and detection.
pub const PARENB: u32 = 0o400;
/// Control mode: use odd parity rather than even.
pub const PARODD: u32 = 0o1000;
/// Control mode: ignore modem control lines.
pub const CLOCAL: u32 = 0o4000;
/// Control mode: enable RTS/CTS hardware flow control.
pub const CRTSCTS: u32 = 0o20000000000;

/// A plain rendering of the terminal attributes that this library reads and
/// writes: the four mode words and the two line speeds.
///
/// A [`crate::tty::TTYPort`] keeps one of these as its last-applied snapshot;
/// the translator functions below are the only way the snapshot changes.
#[derive(Debug, Copy, Clone, PartialEq, Eq, Structural)]
pub struct TermAttrs {
    /// Input-mode flags (`c_iflag`).
    pub iflag: u32,
    /// Output-mode flags (`c_oflag`).
    pub oflag: u32,
    /// Control-mode flags (`c_cflag`).
    pub cflag: u32,
    /// Local-mode flags (`c_lflag`).
    pub lflag: u32,
    /// Input speed, as a platform speed code.
    pub ispeed: u32,
    /// Output speed, as a platform speed code.
    pub ospeed: u32,
}

// The baud-rate table.

/// The platform speed code that stands for `baud` symbols per second, or
/// `None` when this platform has no code for that rate.
pub open spec fn spec_speed_code(baud: u32) -> Option<u32> {
    if baud == 50 { Some(0o1u32) }
    else if baud == 75 { Some(0o2u32) }
    else if baud == 110 { Some(0o3u32) }
    else if baud == 134 { Some(0o4u32) }
    else if baud == 150 { Some(0o5u32) }
    else if baud == 200 { Some(0o6u32) }
    else if baud == 300 { Some(0o7u32) }
    else if baud == 600 { Some(0o10u32) }
    else if baud == 1200 { Some(0o11u32) }
    else if baud == 1800 { Some(0o12u32) }
    else if baud == 2400 { Some(0o13u32) }
    else if baud == 4800 { Some(0o14u32) }
    else if baud == 9600 { Some(0o15u32) }
    else if baud == 19200 { Some(0o16u32) }
    else if baud == 38400 { Some(0o17u32) }
    else if baud == 57600 { Some(0o10001u32) }
    else if baud == 115200 { Some(0o10002u32) }
    else if baud == 230400 { Some(0o10003u32) }
    else if baud == 460800 { Some(0o10004u32) }
    else if baud == 500000 { Some(0o10005u32) }
    else if baud == 576000 { Some(0o10006u32) }
    else if baud == 921600 { Some(0o10007u32) }
    else if baud == 1000000 { Some(0o10010u32) }
    else if baud == 1152000 { Some(0o10011u32) }
    else if baud == 1500000 { Some(0o10012u32) }
    else if baud == 2000000 { Some(0o10013u32) }
    else if baud == 2500000 { Some(0o10014u32) }
    else if baud == 3000000 { Some(0o10015u32) }
    else if baud == 3500000 { Some(0o10016u32) }
    else if baud == 4000000 { Some(0o10017u32) }
    else { None }
}

/// The baud rate that a platform speed code stands for, or `None` for a code
/// this library cannot name (the device may be in a state the portable model
/// has no word for).
pub open spec fn spec_baud_of_code(code: u32) -> Option<u32> {
    if code == 0o1 { Some(50u32) }
    else if code == 0o2 { Some(75u32) }
    else if code == 0o3 { Some(110u32) }
    else if code == 0o4 { Some(134u32) }
    else if code == 0o5 { Some(150u32) }
    else if code == 0o6 { Some(200u32) }
    else if code == 0o7 { Some(300u32) }
    else if code == 0o10 { Some(600u32) }
    else if code == 0o11 { Some(1200u32) }
    else if code == 0o12 { Some(1800u32) }
    else if code == 0o13 { Some(2400u32) }
    else if code == 0o14 { Some(4800u32) }
    else if code == 0o15 { Some(9600u32) }
    else if code == 0o16 { Some(19200u32) }
    else if code == 0o17 { Some(38400u32) }
    else if code == 0o10001 { Some(57600u32) }
    else if code == 0o10002 { Some(115200u32) }
    else if code == 0o10003 { Some(230400u32) }
    else if code == 0o10004 { Some(460800u32) }
    else if code == 0o10005 { Some(500000u32) }
    else if code == 0o10006 { Some(576000u32) }
    else if code == 0o10007 { Some(921600u32) }
    else if code == 0o10010 { Some(1000000u32) }
    else if code == 0o10011 { Some(1152000u32) }
    else if code == 0o10012 { Some(1500000u32) }
    else if code == 0o10013 { Some(2000000u32) }
    else if code == 0o10014 { Some(2500000u32) }
    else if code == 0o10015 { Some(3000000u32) }
    else if code == 0o10016 { Some(3500000u32) }
    else if code == 0o10017 { Some(4000000u32) }
    else { None }
}

/// Translates a baud rate to its platform speed code.
pub fn speed_code_for_baud(baud: u32) -> (r: Option<u32>)
    ensures
        r == spec_speed_code(baud),
{
    if baud == 50 { Some(0o1u32) }
    else if baud == 75 { Some(0o2u32) }
    else if baud == 110 { Some(0o3u32) }
    else if baud == 134 { Some(0o4u32) }
    else if baud == 150 { Some(0o5u32) }
    else if baud == 200 { Some(0o6u32) }
    else if baud == 300 { Some(0o7u32) }
    else if baud == 600 { Some(0o10u32) }
    else if baud == 1200 { Some(0o11u32) }
    else if baud == 1800 { Some(0o12u32) }
    else if baud == 2400 { Some(0o13u32) }
    else if baud == 4800 { Some(0o14u32) }
    else if baud == 9600 { Some(0o15u32) }
    else if baud == 19200 { Some(0o16u32) }
    else if baud == 38400 { Some(0o17u32) }
    else if baud == 57600 { Some(0o10001u32) }
    else if baud == 115200 { Some(0o10002u32) }
    else if baud == 230400 { Some(0o10003u32) }
    else if baud == 460800 { Some(0o10004u32) }
    else if baud == 500000 { Some(0o10005u32) }
    else if baud == 576000 { Some(0o10006u32) }
    else if baud == 921600 { Some(0o10007u32) }
    else if baud == 1000000 { Some(0o10010u32) }
    else if baud == 1152000 { Some(0o10011u32) }
    else if baud == 1500000 { Some(0o10012u32) }
    else if baud == 2000000 { Some(0o10013u32) }
    else if baud == 2500000 { Some(0o10014u32) }
    else if baud == 3000000 { Some(0o10015u32) }
    else if baud == 3500000 { Some(0o10016u32) }
    else if baud == 4000000 { Some(0o10017u32) }
    else { None }
}

/// Translates a platform speed code back to the baud rate it stands for.
pub fn baud_for_speed_code(code: u32) -> (r: Option<u32>)
    ensures
        r == spec_baud_of_code(code),
{
    if code == 0o1 { Some(50u32) }
    else if code == 0o2 { Some(75u32) }
    else if code == 0o3 { Some(110u32) }
    else if code == 0o4 { Some(134u32) }
    else if code == 0o5 { Some(150u32) }
    else if code == 0o6 { Some(200u32) }
    else if code == 0o7 { Some(300u32) }
    else if code == 0o10 { Some(600u32) }
    else if code == 0o11 { Some(1200u32) }
    else if code == 0o12 { Some(1800u32) }
    else if code == 0o13 { Some(2400u32) }
    else if code == 0o14 { Some(4800u32) }
    else if code == 0o15 { Some(9600u32) }
    else if code == 0o16 { Some(19200u32) }
    else if code == 0o17 { Some(38400u32) }
    else if code == 0o10001 { Some(57600u32) }
    else if code == 0o10002 { Some(115200u32) }
    else if code == 0o10003 { Some(230400u32) }
    else if code == 0o10004 { Some(460800u32) }
    else if code == 0o10005 { Some(500000u32) }
    else if code == 0o10006 { Some(576000u32) }
    else if code == 0o10007 { Some(921600u32) }
    else if code == 0o10010 { Some(1000000u32) }
    else if code == 0o10011 { Some(1152000u32) }
    else if code == 0o10012 { Some(1500000u32) }
    else if code == 0o10013 { Some(2000000u32) }
    else if code == 0o10014 { Some(2500000u32) }
    else if code == 0o10015 { Some(3000000u32) }
    else if code == 0o10016 { Some(3500000u32) }
    else if code == 0o10017 { Some(4000000u32) }
    else { None }
}

/// Round-trip law for the baud table: every baud rate that the platform table
/// names translates to a speed code that translates back to the same rate.
///
/// The converse need not hold for speed codes the portable model has no word
/// for; that direction is deliberately lossy.
pub proof fn lemma_baud_round_trip(baud: u32)
    requires
        spec_speed_code(baud) is Some,
    ensures
        spec_baud_of_code(spec_speed_code(baud)->Some_0) == Some(baud),
{
}

// Masked updates.
//
// Each line parameter owns a fixed region of one flag word. An update
// replaces that region and leaves the rest of the word alone.

/// The flag word `v` with the region covered by `mask` replaced by `bits`.
pub open spec fn spec_masked(v: u32, mask: u32, bits: u32) -> u32 {
    (v & !mask) | bits
}

/// Bit-level fact: a masked update sets its own region to exactly `bits`,
/// as seen through any sub-mask `s` of the region.
proof fn bv_masked_sets(v: u32, mask: u32, bits: u32, s: u32)
    by (bit_vector)
    requires
        bits & mask == bits,
        s & mask == s,
    ensures
        ((v & !mask) | bits) & s == bits & s,
{
}

/// Bit-level fact: a masked update leaves any region disjoint from its mask
/// unchanged.
proof fn bv_masked_preserves(v: u32, mask: u32, bits: u32, s: u32)
    by (bit_vector)
    requires
        bits & mask == bits,
        s & mask == 0,
    ensures
        ((v & !mask) | bits) & s == v & s,
{
}

/// Literal facts about the flag constants that the round-trip and
/// non-interference lemmas below instantiate the bit-level lemmas with.
proof fn bv_flag_constants()
    by (bit_vector)
    ensures
        // the composite masks, written out
        0o400u32 | 0o1000 == 0o1400,
        0o20u32 | 0o4 == 0o24,
        0o2000u32 | 0o10000 == 0o12000,
        0o60u32 | 0o400 == 0o460,
        0o200u32 | 0o4000 == 0o4200,
        0o1u32 | 0o2 | 0o10 | 0o40 | 0o100 | 0o200 | 0o400 | 0o2000 == 0o2753,
        0o1u32 | 0o2 | 0o10 | 0o40 | 0o100 | 0o200 | 0o400 == 0o753,
        0o10u32 | 0o100 | 0o2 | 0o1 | 0o100000 == 0o100113,
        // the receiver-enable and ignore-modem-control bits are disjoint from
        // every configuration region of the control word
        0o4200u32 & 0o60 == 0 && 0o4200u32 & 0o1400 == 0,
        0o4200u32 & 0o100 == 0 && 0o4200u32 & 0o20000000000 == 0,
        // the input-translation bits are disjoint from the configuration
        // regions of the input word
        0o753u32 & 0o12000 == 0 && 0o753u32 & 0o24 == 0,
        // character-size codes lie within CSIZE
        0o0u32 & 0o60 == 0o0 && 0o20u32 & 0o60 == 0o20,
        0o40u32 & 0o60 == 0o40 && 0o60u32 & 0o60 == 0o60,
        // parity control bits lie within PARENB | PARODD
        0o0u32 & 0o1400 == 0o0 && 0o400u32 & 0o1400 == 0o400,
        0o1400u32 & 0o1400 == 0o1400,
        0o400u32 & 0o400 == 0o400 && 0o1400u32 & 0o400 == 0o400,
        0o400u32 & 0o1000 == 0 && 0o1400u32 & 0o1000 == 0o1000,
        0o1000u32 & 0o1400 == 0o1000 && 0o400u32 & 0o1400 == 0o400,
        0o0u32 & 0o400 == 0 && 0o0u32 & 0o1000 == 0,
        0o400u32 & 0o100 == 0 && 0o1000u32 & 0o100 == 0,
        0o0u32 & 0o12000 == 0,
        // parity input bits lie within INPCK | IGNPAR
        0o4u32 & 0o24 == 0o4 && 0o20u32 & 0o24 == 0o20,
        // stop-bit values lie within CSTOPB
        0o0u32 & 0o100 == 0o0 && 0o100u32 & 0o100 == 0o100,
        // hardware flow-control values lie within CRTSCTS
        0o0u32 & 0o20000000000 == 0o0,
        0o20000000000u32 & 0o20000000000 == 0o20000000000,
        // software flow-control values lie within IXON | IXOFF
        0o0u32 & 0o12000 == 0o0 && 0o12000u32 & 0o12000 == 0o12000,
        // the regions of one flag word are pairwise disjoint
        0o60u32 & 0o1400 == 0 && 0o60u32 & 0o100 == 0,
        0o60u32 & 0o20000000000 == 0,
        0o1400u32 & 0o60 == 0 && 0o1400u32 & 0o100 == 0,
        0o1400u32 & 0o20000000000 == 0,
        0o100u32 & 0o60 == 0 && 0o100u32 & 0o1400 == 0,
        0o100u32 & 0o20000000000 == 0,
        0o20000000000u32 & 0o60 == 0 && 0o20000000000u32 & 0o1400 == 0,
        0o20000000000u32 & 0o100 == 0,
        0o24u32 & 0o12000 == 0 && 0o12000u32 & 0o24 == 0,
{
}

// Character size.

/// The character-size code for a number of data bits.
pub open spec fn spec_char_size(data_bits: DataBits) -> u32 {
    match data_bits {
        DataBits::Five => CS5,
        DataBits::Six => CS6,
        DataBits::Seven => CS7,
        DataBits::Eight => CS8,
    }
}

/// The control-mode word with its character-size field set for `data_bits`.
pub open spec fn spec_with_data_bits(cflag: u32, data_bits: DataBits) -> u32 {
    spec_masked(cflag, CSIZE, spec_char_size(data_bits))
}

/// The number of data bits a control-mode word encodes, or `None` for a
/// character-size value the portable model has no word for.
pub open spec fn spec_data_bits_of(cflag: u32) -> Option<DataBits> {
    if cflag & CSIZE == CS8 { Some(DataBits::Eight) }
    else if cflag & CSIZE == CS7 { Some(DataBits::Seven) }
    else if cflag & CSIZE == CS6 { Some(DataBits::Six) }
    else if cflag & CSIZE == CS5 { Some(DataBits::Five) }
    else { None }
}

/// Sets the character-size field of a control-mode word.
pub fn with_data_bits(cflag: u32, data_bits: DataBits) -> (r: u32)
    ensures
        r == spec_with_data_bits(cflag, data_bits),
{
    let size = match data_bits {
        DataBits::Five => CS5,
        DataBits::Six => CS6,
        DataBits::Seven => CS7,
        DataBits::Eight => CS8,
    };
    (cflag & !CSIZE) | size
}

/// Reads the character-size field of a control-mode word.
pub fn data_bits_of(cflag: u32) -> (r: Option<DataBits>)
    ensures
        r == spec_data_bits_of(cflag),
{
    if cflag & CSIZE == CS8 { Some(DataBits::Eight) }
    else if cflag & CSIZE == CS7 { Some(DataBits::Seven) }
    else if cflag & CSIZE == CS6 { Some(DataBits::Six) }
    else if cflag & CSIZE == CS5 { Some(DataBits::Five) }
    else { None }
}

/// Setting the character size and reading it back returns the value set.
pub proof fn lemma_data_bits_round_trip(cflag: u32, data_bits: DataBits)
    ensures
        spec_data_bits_of(spec_with_data_bits(cflag, data_bits)) == Some(data_bits),
{
    bv_flag_constants();
    bv_masked_sets(cflag, CSIZE, spec_char_size(data_bits), CSIZE);
}

// Parity.

/// The parity control bits (within `PARENB | PARODD`) for a parity mode.
pub open spec fn spec_parity_cbits(parity: Parity) -> u32 {
    match parity {
        Parity::Disabled => 0u32,
        Parity::Odd => PARENB | PARODD,
        Parity::Even => PARENB,
    }
}

/// The parity input bits (within `INPCK | IGNPAR`) for a parity mode.
///
/// Disabling parity also sets "ignore parity errors", so that a device that
/// still reports them does not corrupt the byte stream with error marks;
/// enabling parity turns input checking on and stops ignoring errors.
pub open spec fn spec_parity_ibits(parity: Parity) -> u32 {
    match parity {
        Parity::Disabled => IGNPAR,
        Parity::Odd => INPCK,
        Parity::Even => INPCK,
    }
}

/// The control-mode word with its parity bits set for `parity`.
pub open spec fn spec_with_parity_cflag(cflag: u32, parity: Parity) -> u32 {
    spec_masked(cflag, PARENB | PARODD, spec_parity_cbits(parity))
}

/// The input-mode word with its parity-checking bits set for `parity`.
pub open spec fn spec_with_parity_iflag(iflag: u32, parity: Parity) -> u32 {
    spec_masked(iflag, INPCK | IGNPAR, spec_parity_ibits(parity))
}

/// The parity mode a control-mode word encodes. Total: a word with parity
/// generation disabled reads as `Disabled` whatever its odd/even bit holds.
pub open spec fn spec_parity_of(cflag: u32) -> Parity {
    if cflag & PARENB != 0 {
        if cflag & PARODD != 0 { Parity::Odd } else { Parity::Even }
    } else {
        Parity::Disabled
    }
}

/// Sets the parity bits of a control-mode word.
pub fn with_parity_cflag(cflag: u32, parity: Parity) -> (r: u32)
    ensures
        r == spec_with_parity_cflag(cflag, parity),
{
    let bits = match parity {
        Parity::Disabled => 0u32,
        Parity::Odd => PARENB | PARODD,
        Parity::Even => PARENB,
    };
    (cflag & !(PARENB | PARODD)) | bits
}

/// Sets the parity-checking bits of an input-mode word.
pub fn with_parity_iflag(iflag: u32, parity: Parity) -> (r: u32)
    ensures
        r == spec_with_parity_iflag(iflag, parity),
{
    let bits = match parity {
        Parity::Disabled => IGNPAR,
        Parity::Odd => INPCK,
        Parity::Even => INPCK,
    };
    (iflag & !(INPCK | IGNPAR)) | bits
}

/// Reads the parity mode of a control-mode word.
pub fn parity_of(cflag: u32) -> (r: Parity)
    ensures
        r == spec_parity_of(cflag),
{
    if cflag & PARENB != 0 {
        if cflag & PARODD != 0 { Parity::Odd } else { Parity::Even }
    } else {
        Parity::Disabled
    }
}

/// Setting the parity mode and reading it back returns the value set.
pub proof fn lemma_parity_round_trip(cflag: u32, parity: Parity)
    ensures
        spec_parity_of(spec_with_parity_cflag(cflag, parity)) == parity,
{
    bv_flag_constants();
    bv_masked_sets(cflag, PARENB | PARODD, spec_parity_cbits(parity), PARENB);
    bv_masked_sets(cflag, PARENB | PARODD, spec_parity_cbits(parity), PARODD);
}

// Stop bits.

/// The stop-bit flag value (within `CSTOPB`) for a stop-bit count.
pub open spec fn spec_stop_bits_value(stop_bits: StopBits) -> u32 {
    match stop_bits {
        StopBits::One => 0u32,
        StopBits::Two => CSTOPB,
    }
}

/// The control-mode word with its stop-bit flag set for `stop_bits`.
pub open spec fn spec_with_stop_bits(cflag: u32, stop_bits: StopBits) -> u32 {
    spec_masked(cflag, CSTOPB, spec_stop_bits_value(stop_bits))
}

/// The stop-bit count a control-mode word encodes.
pub open spec fn spec_stop_bits_of(cflag: u32) -> StopBits {
    if cflag & CSTOPB != 0 { StopBits::Two } else { StopBits::One }
}

/// Sets the stop-bit flag of a control-mode word.
pub fn with_stop_bits(cflag: u32, stop_bits: StopBits) -> (r: u32)
    ensures
        r == spec_with_stop_bits(cflag, stop_bits),
{
    let bits = match stop_bits {
        StopBits::One => 0u32,
        StopBits::Two => CSTOPB,
    };
    (cflag & !CSTOPB) | bits
}

/// Reads the stop-bit flag of a control-mode word.
pub fn stop_bits_of(cflag: u32) -> (r: StopBits)
    ensures
        r == spec_stop_bits_of(cflag),
{
    if cflag & CSTOPB != 0 { StopBits::Two } else { StopBits::One }
}

/// Setting the stop-bit count and reading it back returns the value set.
pub proof fn lemma_stop_bits_round_trip(cflag: u32, stop_bits: StopBits)
    ensures
        spec_stop_bits_of(spec_with_stop_bits(cflag, stop_bits)) == stop_bits,
{
    bv_flag_constants();
    bv_masked_sets(cflag, CSTOPB, spec_stop_bits_value(stop_bits), CSTOPB);
}

// Flow control.

/// The hardware flow-control bits (within `CRTSCTS`) for a flow-control mode.
///
/// Hardware and software flow control are mutually exclusive: enabling one
/// clears the other's bits.
pub open spec fn spec_flow_cbits(flow_control: FlowControl) -> u32 {
    match flow_control {
        FlowControl::Hardware => CRTSCTS,
        _ => 0u32,
    }
}

/// The software flow-control bits (within `IXON | IXOFF`) for a flow-control
/// mode.
pub open spec fn spec_flow_ibits(flow_control: FlowControl) -> u32 {
    match flow_control {
        FlowControl::Software => IXON | IXOFF,
        _ => 0u32,
    }
}

/// The control-mode word with its hardware flow-control bit set for
/// `flow_control`.
pub open spec fn spec_with_flow_cflag(cflag: u32, flow_control: FlowControl) -> u32 {
    spec_masked(cflag, CRTSCTS, spec_flow_cbits(flow_control))
}

/// The input-mode word with its software flow-control bits set for
/// `flow_control`.
pub open spec fn spec_with_flow_iflag(iflag: u32, flow_control: FlowControl) -> u32 {
    spec_masked(iflag, IXON | IXOFF, spec_flow_ibits(flow_control))
}

/// The flow-control mode that a pair of flag words encodes.
///
/// Hardware flow control is the most specific signal, so it is preferred over
/// software flow control when both sets of bits are present.
pub open spec fn spec_flow_control_of(iflag: u32, cflag: u32) -> FlowControl {
    if cflag & CRTSCTS != 0 {
        FlowControl::Hardware
    } else if iflag & (IXON | IXOFF) != 0 {
        FlowControl::Software
    } else {
        FlowControl::Disabled
    }
}

/// Sets the hardware flow-control bit of a control-mode word.
pub fn with_flow_cflag(cflag: u32, flow_control: FlowControl) -> (r: u32)
    ensures
        r == spec_with_flow_cflag(cflag, flow_control),
{
    let bits = match flow_control {
        FlowControl::Hardware => CRTSCTS,
        _ => 0u32,
    };
    (cflag & !CRTSCTS) | bits
}

/// Sets the software flow-control bits of an input-mode word.
pub fn with_flow_iflag(iflag: u32, flow_control: FlowControl) -> (r: u32)
    ensures
        r == spec_with_flow_iflag(iflag, flow_control),
{
    let bits = match flow_control {
        FlowControl::Software => IXON | IXOFF,
        _ => 0u32,
    };
    (iflag & !(IXON | IXOFF)) | bits
}

/// Reads the flow-control mode of a pair of flag words.
pub fn flow_control_of(iflag: u32, cflag: u32) -> (r: FlowControl)
    ensures
        r == spec_flow_control_of(iflag, cflag),
{
    if cflag & CRTSCTS != 0 {
        FlowControl::Hardware
    } else if iflag & (IXON | IXOFF) != 0 {
        FlowControl::Software
    } else {
        FlowControl::Disabled
    }
}

/// Setting the flow-control mode on both flag words and reading it back
/// returns the value set.
pub proof fn lemma_flow_control_round_trip(iflag: u32, cflag: u32, flow_control: FlowControl)
    ensures
        spec_flow_control_of(
            spec_with_flow_iflag(iflag, flow_control),
            spec_with_flow_cflag(cflag, flow_control),
        ) == flow_control,
{
    bv_flag_constants();
    bv_masked_sets(cflag, CRTSCTS, spec_flow_cbits(flow_control), CRTSCTS);
    bv_masked_sets(iflag, IXON | IXOFF, spec_flow_ibits(flow_control), IXON | IXOFF);
}

// Applying a whole configuration.

/// The snapshot with both line speeds set to the platform speed code `code`.
pub open spec fn spec_apply_speed(a: TermAttrs, code: u32) -> TermAttrs {
    TermAttrs { ispeed: code, ospeed: code, ..a }
}

/// The snapshot with its character-size field set for `data_bits`.
pub open spec fn spec_apply_data_bits(a: TermAttrs, data_bits: DataBits) -> TermAttrs {
    TermAttrs { cflag: spec_with_data_bits(a.cflag, data_bits), ..a }
}

/// The snapshot with both flow-control regions set for `flow_control`.
pub open spec fn spec_apply_flow_control(a: TermAttrs, flow_control: FlowControl) -> TermAttrs {
    TermAttrs {
        iflag: spec_with_flow_iflag(a.iflag, flow_control),
        cflag: spec_with_flow_cflag(a.cflag, flow_control),
        ..a
    }
}

/// The snapshot with both parity regions set for `parity`.
pub open spec fn spec_apply_parity(a: TermAttrs, parity: Parity) -> TermAttrs {
    TermAttrs {
        iflag: spec_with_parity_iflag(a.iflag, parity),
        cflag: spec_with_parity_cflag(a.cflag, parity),
        ..a
    }
}

/// The snapshot with its stop-bit flag set for `stop_bits`.
pub open spec fn spec_apply_stop_bits(a: TermAttrs, stop_bits: StopBits) -> TermAttrs {
    TermAttrs { cflag: spec_with_stop_bits(a.cflag, stop_bits), ..a }
}

/// The snapshot after a whole configuration is applied, in the order the port
/// applies it: speed, then data bits, flow control, parity, stop bits.
/// Meaningful only when the configuration's baud rate is in the platform
/// table; otherwise applying the configuration fails before touching
/// anything.
pub open spec fn spec_apply_settings(a: TermAttrs, s: SerialPortBuilder) -> TermAttrs {
    let a1 = spec_apply_speed(a, spec_speed_code(s.baud_rate)->Some_0);
    let a2 = spec_apply_data_bits(a1, s.data_bits);
    let a3 = spec_apply_flow_control(a2, s.flow_control);
    let a4 = spec_apply_parity(a3, s.parity);
    spec_apply_stop_bits(a4, s.stop_bits)
}

// Reading a configuration back from a snapshot.

/// The baud rate a snapshot encodes: `None` when input and output speeds
/// differ or when the hardware speed code has no portable name.
pub open spec fn spec_read_baud(a: TermAttrs) -> Option<u32> {
    if a.ispeed == a.ospeed { spec_baud_of_code(a.ospeed) } else { None }
}

/// The number of data bits a snapshot encodes.
pub open spec fn spec_read_data_bits(a: TermAttrs) -> Option<DataBits> {
    spec_data_bits_of(a.cflag)
}

/// The flow-control mode a snapshot encodes.
pub open spec fn spec_read_flow_control(a: TermAttrs) -> FlowControl {
    spec_flow_control_of(a.iflag, a.cflag)
}

/// The parity mode a snapshot encodes.
pub open spec fn spec_read_parity(a: TermAttrs) -> Parity {
    spec_parity_of(a.cflag)
}

/// The stop-bit count a snapshot encodes.
pub open spec fn spec_read_stop_bits(a: TermAttrs) -> StopBits {
    spec_stop_bits_of(a.cflag)
}

/// Applying a configuration whose baud rate the platform table names and then
/// reading the snapshot back returns exactly the values that were applied,
/// for every starting snapshot and every combination of data bits, parity,
/// stop bits and flow control: each parameter's update leaves every other
/// parameter's region of the flag words untouched.
pub proof fn lemma_settings_readback(a: TermAttrs, s: SerialPortBuilder)
    requires
        spec_speed_code(s.baud_rate) is Some,
    ensures
        spec_read_baud(spec_apply_settings(a, s)) == Some(s.baud_rate),
        spec_read_data_bits(spec_apply_settings(a, s)) == Some(s.data_bits),
        spec_read_flow_control(spec_apply_settings(a, s)) == s.flow_control,
        spec_read_parity(spec_apply_settings(a, s)) == s.parity,
        spec_read_stop_bits(spec_apply_settings(a, s)) == s.stop_bits,
{
    bv_flag_constants();
    let code = spec_speed_code(s.baud_rate)->Some_0;
    let a1 = spec_apply_speed(a, code);
    let a2 = spec_apply_data_bits(a1, s.data_bits);
    let a3 = spec_apply_flow_control(a2, s.flow_control);
    let a4 = spec_apply_parity(a3, s.parity);
    let a5 = spec_apply_stop_bits(a4, s.stop_bits);

    // The speed fields are set first and no later step touches them.
    lemma_baud_round_trip(s.baud_rate);

    // The character-size region is set by the data-bits step and preserved by
    // the flow-control, parity, and stop-bits steps.
    bv_masked_sets(a1.cflag, CSIZE, spec_char_size(s.data_bits), CSIZE);
    bv_masked_preserves(a2.cflag, CRTSCTS, spec_flow_cbits(s.flow_control), CSIZE);
    bv_masked_preserves(a3.cflag, PARENB | PARODD, spec_parity_cbits(s.parity), CSIZE);
    bv_masked_preserves(a4.cflag, CSTOPB, spec_stop_bits_value(s.stop_bits), CSIZE);
    assert(a5.cflag & CSIZE == spec_char_size(s.data_bits) & CSIZE);

    // The hardware flow-control region is set by the flow-control step and
    // preserved by the parity and stop-bits steps; the software region is set
    // on the input word and preserved by the parity step.
    bv_masked_sets(a2.cflag, CRTSCTS, spec_flow_cbits(s.flow_control), CRTSCTS);
    bv_masked_preserves(a3.cflag, PARENB | PARODD, spec_parity_cbits(s.parity), CRTSCTS);
    bv_masked_preserves(a4.cflag, CSTOPB, spec_stop_bits_value(s.stop_bits), CRTSCTS);
    bv_masked_sets(a2.iflag, IXON | IXOFF, spec_flow_ibits(s.flow_control), IXON | IXOFF);
    bv_masked_preserves(a3.iflag, INPCK | IGNPAR, spec_parity_ibits(s.parity), IXON | IXOFF);
    assert(a5.cflag & CRTSCTS == spec_flow_cbits(s.flow_control) & CRTSCTS);
    assert(a5.iflag & (IXON | IXOFF) == spec_flow_ibits(s.flow_control) & (IXON | IXOFF));

    // The parity region is set by the parity step and preserved by the
    // stop-bits step.
    bv_masked_sets(a3.cflag, PARENB | PARODD, spec_parity_cbits(s.parity), PARENB);
    bv_masked_sets(a3.cflag, PARENB | PARODD, spec_parity_cbits(s.parity), PARODD);
    bv_masked_preserves(a4.cflag, CSTOPB, spec_stop_bits_value(s.stop_bits), PARENB);
    bv_masked_preserves(a4.cflag, CSTOPB, spec_stop_bits_value(s.stop_bits), PARODD);
    assert(a5.cflag & PARENB == spec_parity_cbits(s.parity) & PARENB);
    assert(a5.cflag & PARODD == spec_parity_cbits(s.parity) & PARODD);

    // The stop-bit region is set last.
    bv_masked_sets(a4.cflag, CSTOPB, spec_stop_bits_value(s.stop_bits), CSTOPB);
}

// The officially supported baud rates.

/// The baud rates this platform officially supports, in ascending order:
/// exactly the rates the enumerated table names.
pub open spec fn spec_supported_bauds() -> Seq<u32> {
    seq![
        50u32, 75, 110, 134, 150, 200, 300, 600, 1200, 1800, 2400, 4800, 9600,
        19200, 38400, 57600, 115200, 230400, 460800, 500000, 576000, 921600,
        1000000, 1152000, 1500000, 2000000, 2500000, 3000000, 3500000, 4000000,
    ]
}

/// Returns a list of baud rates officially supported by this platform. It is
/// likely more are actually supported by the hardware; rates outside this
/// list are nevertheless rejected when applied, since the platform has no
/// speed code for them.
pub fn available_baud_rates() -> (r: Vec<u32>)
    ensures
        r@ == spec_supported_bauds(),
{
    let mut v: Vec<u32> = Vec::new();
    v.push(50);
    v.push(75);
    v.push(110);
    v.push(134);
    v.push(150);
    v.push(200);
    v.push(300);
    v.push(600);
    v.push(1200);
    v.push(1800);
    v.push(2400);
    v.push(4800);
    v.push(9600);
    v.push(19200);
    v.push(38400);
    v.push(57600);
    v.push(115200);
    v.push(230400);
    v.push(460800);
    v.push(500000);
    v.push(576000);
    v.push(921600);
    v.push(1000000);
    v.push(1152000);
    v.push(1500000);
    v.push(2000000);
    v.push(2500000);
    v.push(3000000);
    v.push(3500000);
    v.push(4000000);
    proof {
        assert(v@ =~= spec_supported_bauds());
    }
    v
}

/// Every officially supported baud rate is in the platform table, so setting
/// any of them translates to a speed code, and by the round-trip law reading
/// it back returns the same rate.
pub proof fn lemma_supported_bauds_in_table()
    ensures
        forall|i: int|
            0 <= i < spec_supported_bauds().len() ==> spec_speed_code(
                #[trigger] spec_supported_bauds()[i],
            ) is Some,
{
    assert forall|i: int| 0 <= i < spec_supported_bauds().len() implies spec_speed_code(
        #[trigger] spec_supported_bauds()[i],
    ) is Some by {
        assert(spec_supported_bauds().len() == 30);
    }
}

// The platform-side round trip.
//
// Reading a configuration back from the flag words and re-encoding it
// reproduces the flag words exactly, for every state the portable model can
// represent. The converse direction is deliberately lossy: a hardware state
// the model has no word for (an odd-parity bit without parity enabled, one
// software flow-control bit of two) reads as the nearest portable value and
// re-encodes canonically.

/// Bit-level fact: replacing a region with the value it already holds leaves
/// the word unchanged.
proof fn bv_masked_identity(v: u32, mask: u32, bits: u32)
    by (bit_vector)
    requires
        v & mask == bits & mask,
        bits & mask == bits,
    ensures
        (v & !mask) | bits == v,
{
}

/// Bit-level fact: a sub-mask of a region reads the same through the region.
proof fn bv_region_sub(v: u32, mask: u32, s: u32)
    by (bit_vector)
    requires
        s & mask == s,
    ensures
        (v & mask) & s == v & s,
{
}

/// Bit-level fact: a single-bit region holds either nothing or its bit.
proof fn bv_single_bit_region(v: u32)
    by (bit_vector)
    ensures
        v & 0o100u32 == 0 || v & 0o100u32 == 0o100,
        v & 0o20000000000u32 == 0 || v & 0o20000000000u32 == 0o20000000000,
{
}

/// Round-trip law for the baud table, platform side: every speed code the
/// table names reads back as a baud rate that re-encodes to the same code.
pub proof fn lemma_code_round_trip(code: u32)
    requires
        spec_baud_of_code(code) is Some,
    ensures
        spec_speed_code(spec_baud_of_code(code)->Some_0) == Some(code),
{
}

/// Re-encoding the character size a control-mode word already encodes leaves
/// the word unchanged: every character-size state is representable.
pub proof fn lemma_data_bits_lossless(cflag: u32)
    requires
        spec_data_bits_of(cflag) is Some,
    ensures
        spec_with_data_bits(cflag, spec_data_bits_of(cflag)->Some_0) == cflag,
{
    bv_flag_constants();
    bv_masked_identity(cflag, CSIZE, cflag & CSIZE);
}

/// Re-encoding the stop-bit count a control-mode word encodes leaves the word
/// unchanged: every stop-bit state is representable.
pub proof fn lemma_stop_bits_lossless(cflag: u32)
    ensures
        spec_with_stop_bits(cflag, spec_stop_bits_of(cflag)) == cflag,
{
    bv_flag_constants();
    bv_single_bit_region(cflag);
    bv_masked_identity(cflag, CSTOPB, spec_stop_bits_value(spec_stop_bits_of(cflag)));
}

/// Whether the parity state of a pair of flag words is one the portable
/// model can represent: the control word holds one of the three parity
/// encodings (not an odd/even selection without parity enabled), and the
/// input word's checking bits agree with that mode.
pub open spec fn spec_parity_representable(iflag: u32, cflag: u32) -> bool {
    &&& (cflag & (PARENB | PARODD) == 0 || cflag & (PARENB | PARODD) == PARENB || cflag & (
    PARENB | PARODD) == (PARENB | PARODD))
    &&& iflag & (INPCK | IGNPAR) == spec_parity_ibits(spec_parity_of(cflag))
}

/// Re-encoding the parity mode that a representable pair of flag words
/// encodes leaves both words unchanged. A word with the odd/even selection
/// bit set but parity disabled is not representable: it reads as disabled and
/// re-encodes canonically, the documented lossy direction.
pub proof fn lemma_parity_lossless(iflag: u32, cflag: u32)
    requires
        spec_parity_representable(iflag, cflag),
    ensures
        spec_with_parity_cflag(cflag, spec_parity_of(cflag)) == cflag,
        spec_with_parity_iflag(iflag, spec_parity_of(cflag)) == iflag,
{
    bv_flag_constants();
    bv_region_sub(cflag, PARENB | PARODD, PARENB);
    bv_region_sub(cflag, PARENB | PARODD, PARODD);
    bv_masked_identity(cflag, PARENB | PARODD, spec_parity_cbits(spec_parity_of(cflag)));
    bv_masked_identity(iflag, INPCK | IGNPAR, spec_parity_ibits(spec_parity_of(cflag)));
}

/// Whether the flow-control state of a pair of flag words is one the portable
/// model can represent: hardware flow control with no software bits, both
/// software bits with no hardware bit, or neither.
pub open spec fn spec_flow_representable(iflag: u32, cflag: u32) -> bool {
    if cflag & CRTSCTS != 0 {
        iflag & (IXON | IXOFF) == 0
    } else {
        iflag & (IXON | IXOFF) == 0 || iflag & (IXON | IXOFF) == (IXON | IXOFF)
    }
}

/// Re-encoding the flow-control mode that a representable pair of flag words
/// encodes leaves both words unchanged. A pair with both mechanisms' bits, or
/// with only one of the two software bits, is not representable: it reads as
/// the preferred mechanism and re-encodes canonically, the documented lossy
/// direction.
pub proof fn lemma_flow_control_lossless(iflag: u32, cflag: u32)
    requires
        spec_flow_representable(iflag, cflag),
    ensures
        spec_with_flow_cflag(cflag, spec_flow_control_of(iflag, cflag)) == cflag,
        spec_with_flow_iflag(iflag, spec_flow_control_of(iflag, cflag)) == iflag,
{
    bv_flag_constants();
    bv_single_bit_region(cflag);
    bv_masked_identity(cflag, CRTSCTS, spec_flow_cbits(spec_flow_control_of(iflag, cflag)));
    bv_masked_identity(iflag, IXON | IXOFF, spec_flow_ibits(spec_flow_control_of(iflag, cflag)));
}

/// The whole-configuration round trip, platform side: applying the
/// configuration that a representable snapshot reads back as reproduces the
/// snapshot exactly. `s` is any configuration holding exactly the read-back
/// values; its path and timeout play no part in the flag words.
pub proof fn lemma_snapshot_round_trip(a: TermAttrs, s: SerialPortBuilder)
    requires
        a.ispeed == a.ospeed,
        spec_baud_of_code(a.ospeed) is Some,
        spec_data_bits_of(a.cflag) is Some,
        spec_parity_representable(a.iflag, a.cflag),
        spec_flow_representable(a.iflag, a.cflag),
        Some(s.baud_rate) == spec_read_baud(a),
        Some(s.data_bits) == spec_read_data_bits(a),
        s.flow_control == spec_read_flow_control(a),
        s.parity == spec_read_parity(a),
        s.stop_bits == spec_read_stop_bits(a),
    ensures
        spec_apply_settings(a, s) == a,
{
    bv_flag_constants();
    lemma_code_round_trip(a.ospeed);
    let a1 = spec_apply_speed(a, spec_speed_code(s.baud_rate)->Some_0);
    assert(a1 == a);
    lemma_data_bits_lossless(a.cflag);
    let a2 = spec_apply_data_bits(a1, s.data_bits);
    assert(a2 == a);
    lemma_flow_control_lossless(a.iflag, a.cflag);
    let a3 = spec_apply_flow_control(a2, s.flow_control);
    assert(a3 == a);
    lemma_parity_lossless(a.iflag, a.cflag);
    let a4 = spec_apply_parity(a3, s.parity);
    assert(a4 == a);
    lemma_stop_bits_lossless(a.cflag);
    assert(spec_apply_stop_bits(a4, s.stop_bits) == a);
}

// Raw mode.
//
// Opening a port switches the whole attribute set to raw mode and enables the
// receiver while ignoring modem control lines: bytes then pass through
// untranslated, with no canonical processing, echo, or signal generation.
// The transformation on the four mode words is the documented one of
// `cfmakeraw` in `termios(3)`, plus the receiver-enable and local-mode bits.

/// The input-mode word of raw mode: break, parity-mark, strip, and
/// carriage-return/newline translation are all off, as is software flow
/// control until a configuration asks for it.
pub open spec fn spec_raw_iflag(iflag: u32) -> u32 {
    iflag & !(IGNBRK | BRKINT | PARMRK | ISTRIP | INLCR | IGNCR | ICRNL | IXON)
}

/// The output-mode word of raw mode: no output processing.
pub open spec fn spec_raw_oflag(oflag: u32) -> u32 {
    oflag & !OPOST
}

/// The local-mode word of raw mode: no echo, no canonical processing, no
/// signal generation, no extended input processing.
pub open spec fn spec_raw_lflag(lflag: u32) -> u32 {
    lflag & !(ECHO | ECHONL | ICANON | ISIG | IEXTEN)
}

/// The control-mode word of raw mode: eight data bits, parity generation off,
/// the receiver enabled, and modem control lines ignored.
pub open spec fn spec_raw_cflag(cflag: u32) -> u32 {
    ((cflag & !(CSIZE | PARENB)) | CS8) | (CREAD | CLOCAL)
}

/// The snapshot switched to raw mode with the receiver enabled and modem
/// control lines ignored.
pub open spec fn spec_raw_mode(a: TermAttrs) -> TermAttrs {
    TermAttrs {
        iflag: spec_raw_iflag(a.iflag),
        oflag: spec_raw_oflag(a.oflag),
        cflag: spec_raw_cflag(a.cflag),
        lflag: spec_raw_lflag(a.lflag),
        ..a
    }
}

/// Switches a snapshot to raw mode with the receiver enabled and modem
/// control lines ignored.
pub fn raw_mode_attrs(a: TermAttrs) -> (r: TermAttrs)
    ensures
        r == spec_raw_mode(a),
{
    TermAttrs {
        iflag: a.iflag & !(IGNBRK | BRKINT | PARMRK | ISTRIP | INLCR | IGNCR | ICRNL | IXON),
        oflag: a.oflag & !OPOST,
        cflag: ((a.cflag & !(CSIZE | PARENB)) | CS8) | (CREAD | CLOCAL),
        lflag: a.lflag & !(ECHO | ECHONL | ICANON | ISIG | IEXTEN),
        ..a
    }
}

/// Bit-level facts about the raw-mode transformation: the receiver-enable and
/// ignore-modem-control bits are set, and the translation, output-processing,
/// and local-processing bits are cleared.
proof fn bv_raw_mode(iflag: u32, oflag: u32, cflag: u32, lflag: u32)
    by (bit_vector)
    ensures
        (((cflag & !0o460u32) | 0o60) | 0o4200) & 0o4200 == 0o4200,
        (iflag & !0o2753u32) & 0o753 == 0,
        (oflag & !0o1u32) & 0o1 == 0,
        (lflag & !0o100113u32) & 0o100113 == 0,
{
}

/// Raw mode survives applying a configuration: after a whole configuration is
/// applied on top of the raw-mode snapshot, the receiver is still enabled and
/// modem control lines still ignored, output processing and the local
/// processing modes (echo, canonical input, signals) are still off, and no
/// input translation is on — software flow control on input aside, which is
/// the configuration's own to choose. This is the byte-exact, untranslated
/// transport that an opened port promises.
pub proof fn lemma_raw_mode_survives_settings(a: TermAttrs, s: SerialPortBuilder)
    ensures
        spec_apply_settings(spec_raw_mode(a), s).cflag & (CREAD | CLOCAL) == CREAD | CLOCAL,
        spec_apply_settings(spec_raw_mode(a), s).oflag & OPOST == 0,
        spec_apply_settings(spec_raw_mode(a), s).lflag & (ECHO | ECHONL | ICANON | ISIG | IEXTEN)
            == 0,
        spec_apply_settings(spec_raw_mode(a), s).iflag & (IGNBRK | BRKINT | PARMRK | ISTRIP
            | INLCR | IGNCR | ICRNL) == 0,
{
    bv_flag_constants();
    bv_raw_mode(a.iflag, a.oflag, a.cflag, a.lflag);
    let r = spec_raw_mode(a);
    let a1 = spec_apply_speed(r, spec_speed_code(s.baud_rate)->Some_0);
    let a2 = spec_apply_data_bits(a1, s.data_bits);
    let a3 = spec_apply_flow_control(a2, s.flow_control);
    let a4 = spec_apply_parity(a3, s.parity);

    // Applying a configuration never touches the output-mode or local-mode
    // words, so their raw-mode state stands by construction. The four
    // control-mode updates are masked updates whose regions are disjoint from
    // the receiver-enable and ignore-modem-control bits.
    bv_masked_preserves(a1.cflag, CSIZE, spec_char_size(s.data_bits), CREAD | CLOCAL);
    bv_masked_preserves(a2.cflag, CRTSCTS, spec_flow_cbits(s.flow_control), CREAD | CLOCAL);
    bv_masked_preserves(a3.cflag, PARENB | PARODD, spec_parity_cbits(s.parity), CREAD | CLOCAL);
    bv_masked_preserves(a4.cflag, CSTOPB, spec_stop_bits_value(s.stop_bits), CREAD | CLOCAL);

    // The two input-mode updates (software flow control and parity checking)
    // are masked updates whose regions are disjoint from the translation bits.
    bv_masked_preserves(
        a2.iflag,
        IXON | IXOFF,
        spec_flow_ibits(s.flow_control),
        IGNBRK | BRKINT | PARMRK | ISTRIP | INLCR | IGNCR | ICRNL,
    );
    bv_masked_preserves(
        a3.iflag,
        INPCK | IGNPAR,
        spec_parity_ibits(s.parity),
        IGNBRK | BRKINT | PARMRK | ISTRIP | INLCR | IGNCR | ICRNL,
    );
}

} // verus!
