//! Serial line settings.
use vstd::prelude::*;

verus! {

/// Serial port baud rates.
///
/// The variants with numeric suffixes are the standard rates that most
/// systems support; `BaudOther` carries any other rate, whose support is
/// system-dependent.
#[derive(Debug, PartialEq, Eq, Clone, Copy, Structural)]
pub enum BaudRate {
    /// 110 baud.
    Baud110,
    /// 300 baud.
    Baud300,
    /// 600 baud.
    Baud600,
    /// 1200 baud.
    Baud1200,
    /// 2400 baud.
    Baud2400,
    /// 4800 baud.
    Baud4800,
    /// 9600 baud.
    Baud9600,
    /// 19,200 baud.
    Baud19200,
    /// 38,400 baud.
    Baud38400,
    /// 57,600 baud.
    Baud57600,
    /// 115,200 baud.
    Baud115200,
    /// Non-standard baud rates.
    BaudOther(usize),
}

/// The rate a `BaudRate` stands for.
pub open spec fn spec_speed(rate: BaudRate) -> usize {
    match rate {
        BaudRate::Baud110 => 110,
        BaudRate::Baud300 => 300,
        BaudRate::Baud600 => 600,
        BaudRate::Baud1200 => 1200,
        BaudRate::Baud2400 => 2400,
        BaudRate::Baud4800 => 4800,
        BaudRate::Baud9600 => 9600,
        BaudRate::Baud19200 => 19200,
        BaudRate::Baud38400 => 38400,
        BaudRate::Baud57600 => 57600,
        BaudRate::Baud115200 => 115200,
        BaudRate::BaudOther(n) => n,
    }
}

/// The variant that stands for a rate: the standard one where the rate is
/// standard, else `BaudOther`.
pub open spec fn spec_from_speed(speed: usize) -> BaudRate {
    if speed == 110 {
        BaudRate::Baud110
    } else if speed == 300 {
        BaudRate::Baud300
    } else if speed == 600 {
        BaudRate::Baud600
    } else if speed == 1200 {
        BaudRate::Baud1200
    } else if speed == 2400 {
        BaudRate::Baud2400
    } else if speed == 4800 {
        BaudRate::Baud4800
    } else if speed == 9600 {
        BaudRate::Baud9600
    } else if speed == 19200 {
        BaudRate::Baud19200
    } else if speed == 38400 {
        BaudRate::Baud38400
    } else if speed == 57600 {
        BaudRate::Baud57600
    } else if speed == 115200 {
        BaudRate::Baud115200
    } else {
        BaudRate::BaudOther(speed)
    }
}

/// A rate is in canonical form unless it is a standard rate written as
/// `BaudOther`.
pub open spec fn spec_is_canonical(rate: BaudRate) -> bool {
    match rate {
        BaudRate::BaudOther(n) => spec_from_speed(n) == BaudRate::BaudOther(n),
        _ => true,
    }
}

impl BaudRate {
    /// Creates a `BaudRate` for a particular speed.
    pub fn from_speed(speed: usize) -> (rate: BaudRate)
        ensures
            rate == spec_from_speed(speed),
    {
        match speed {
            110 => BaudRate::Baud110,
            300 => BaudRate::Baud300,
            600 => BaudRate::Baud600,
            1200 => BaudRate::Baud1200,
            2400 => BaudRate::Baud2400,
            4800 => BaudRate::Baud4800,
            9600 => BaudRate::Baud9600,
            19200 => BaudRate::Baud19200,
            38400 => BaudRate::Baud38400,
            57600 => BaudRate::Baud57600,
            115200 => BaudRate::Baud115200,
            n => BaudRate::BaudOther(n),
        }
    }

    /// Returns the baud rate as an integer.
    pub fn speed(&self) -> (speed: usize)
        ensures
            speed == spec_speed(*self),
    {
        match *self {
            BaudRate::Baud110 => 110,
            BaudRate::Baud300 => 300,
            BaudRate::Baud600 => 600,
            BaudRate::Baud1200 => 1200,
            BaudRate::Baud2400 => 2400,
            BaudRate::Baud4800 => 4800,
            BaudRate::Baud9600 => 9600,
            BaudRate::Baud19200 => 19200,
            BaudRate::Baud38400 => 38400,
            BaudRate::Baud57600 => 57600,
            BaudRate::Baud115200 => 115200,
            BaudRate::BaudOther(n) => n,
        }
    }
}

/// The speed of the rate chosen for a speed is that speed, and the rate
/// chosen for a speed is always in canonical form.
pub proof fn lemma_speed_roundtrip(speed: usize)
    ensures
        spec_speed(spec_from_speed(speed)) == speed,
        spec_is_canonical(spec_from_speed(speed)),
{
}

/// A rate in canonical form is the one chosen for its own speed.
pub proof fn lemma_rate_roundtrip(rate: BaudRate)
    requires
        spec_is_canonical(rate),
    ensures
        spec_from_speed(spec_speed(rate)) == rate,
{
}

/// The termios speed codes of a rate that only `BaudOther` can carry, as
/// the `termios` crate defines them on Linux; `None` where termios has no
/// code for the speed.
pub open spec fn spec_other_speed_code(speed: usize) -> Option<u32> {
    if speed == 50 {
        Some(0o1)
    } else if speed == 75 {
        Some(0o2)
    } else if speed == 134 {
        Some(0o4)
    } else if speed == 150 {
        Some(0o5)
    } else if speed == 200 {
        Some(0o6)
    } else if speed == 1800 {
        Some(0o12)
    } else if speed == 230400 {
        Some(0o10003)
    } else if speed == 460800 {
        Some(0o10004)
    } else if speed == 500000 {
        Some(0o10005)
    } else if speed == 576000 {
        Some(0o10006)
    } else if speed == 921600 {
        Some(0o10007)
    } else if speed == 1000000 {
        Some(0o10010)
    } else if speed == 1152000 {
        Some(0o10011)
    } else if speed == 1500000 {
        Some(0o10012)
    } else if speed == 2000000 {
        Some(0o10013)
    } else if speed == 2500000 {
        Some(0o10014)
    } else if speed == 3000000 {
        Some(0o10015)
    } else if speed == 3500000 {
        Some(0o10016)
    } else if speed == 4000000 {
        Some(0o10017)
    } else {
        None
    }
}

/// The termios speed code (`B110`, `B9600`, ...) that a serial line is set
/// to for a rate, with the values the `termios` crate gives them on Linux.
/// A standard speed written as `BaudOther` has none: only the rates that
/// have no variant of their own are looked up by number.
pub open spec fn spec_baud_speed_code(rate: BaudRate) -> Option<u32> {
    match rate {
        BaudRate::Baud110 => Some(0o3),
        BaudRate::Baud300 => Some(0o7),
        BaudRate::Baud600 => Some(0o10),
        BaudRate::Baud1200 => Some(0o11),
        BaudRate::Baud2400 => Some(0o13),
        BaudRate::Baud4800 => Some(0o14),
        BaudRate::Baud9600 => Some(0o15),
        BaudRate::Baud19200 => Some(0o16),
        BaudRate::Baud38400 => Some(0o17),
        BaudRate::Baud57600 => Some(0o10001),
        BaudRate::Baud115200 => Some(0o10002),
        BaudRate::BaudOther(n) => spec_other_speed_code(n),
    }
}

/// Reads the speed codes `B50` to `B38400` of the `termios` crate, in
/// increasing speed; its Linux module defines them as 1 to 15.
#[verifier::external_body]
fn standard_speed_codes() -> (codes: [u32; 15])
    ensures
        codes@ == seq![1u32, 2, 3, 4, 5, 6, 7, 8, 9, 10, 11, 12, 13, 14, 15],
{
    [
        termios::B50, termios::B75, termios::B110, termios::B134, termios::B150, termios::B200,
        termios::B300, termios::B600, termios::B1200, termios::B1800, termios::B2400,
        termios::B4800, termios::B9600, termios::B19200, termios::B38400,
    ]
}

/// Reads the speed codes `B57600` to `B4000000` of the `termios` crate, in
/// increasing speed; its Linux module defines them as 0o10001 to 0o10017.
#[verifier::external_body]
fn high_speed_codes() -> (codes: [u32; 15])
    ensures
        codes@ == seq![
            0o10001u32, 0o10002, 0o10003, 0o10004, 0o10005, 0o10006, 0o10007, 0o10010, 0o10011,
            0o10012, 0o10013, 0o10014, 0o10015, 0o10016, 0o10017,
        ],
{
    [
        termios::os::target::B57600, termios::os::target::B115200, termios::os::target::B230400,
        termios::os::linux::B460800, termios::os::linux::B500000, termios::os::linux::B576000,
        termios::os::linux::B921600, termios::os::linux::B1000000, termios::os::linux::B1152000,
        termios::os::linux::B1500000, termios::os::linux::B2000000, termios::os::linux::B2500000,
        termios::os::linux::B3000000, termios::os::linux::B3500000, termios::os::linux::B4000000,
    ]
}

/// The termios speed code to set a serial line to for a rate, or `None`
/// where termios has none (the line then refuses the rate as invalid).
pub fn baud_speed_code(rate: BaudRate) -> (code: Option<u32>)
    ensures
        code == spec_baud_speed_code(rate),
{
    let low = standard_speed_codes();
    let high = high_speed_codes();
    match rate {
        BaudRate::BaudOther(50) => Some(low[0]),
        BaudRate::BaudOther(75) => Some(low[1]),
        BaudRate::Baud110 => Some(low[2]),
        BaudRate::BaudOther(134) => Some(low[3]),
        BaudRate::BaudOther(150) => Some(low[4]),
        BaudRate::BaudOther(200) => Some(low[5]),
        BaudRate::Baud300 => Some(low[6]),
        BaudRate::Baud600 => Some(low[7]),
        BaudRate::Baud1200 => Some(low[8]),
        BaudRate::BaudOther(1800) => Some(low[9]),
        BaudRate::Baud2400 => Some(low[10]),
        BaudRate::Baud4800 => Some(low[11]),
        BaudRate::Baud9600 => Some(low[12]),
        BaudRate::Baud19200 => Some(low[13]),
        BaudRate::Baud38400 => Some(low[14]),
        BaudRate::Baud57600 => Some(high[0]),
        BaudRate::Baud115200 => Some(high[1]),
        BaudRate::BaudOther(230400) => Some(high[2]),
        BaudRate::BaudOther(460800) => Some(high[3]),
        BaudRate::BaudOther(500000) => Some(high[4]),
        BaudRate::BaudOther(576000) => Some(high[5]),
        BaudRate::BaudOther(921600) => Some(high[6]),
        BaudRate::BaudOther(1000000) => Some(high[7]),
        BaudRate::BaudOther(1152000) => Some(high[8]),
        BaudRate::BaudOther(1500000) => Some(high[9]),
        BaudRate::BaudOther(2000000) => Some(high[10]),
        BaudRate::BaudOther(2500000) => Some(high[11]),
        BaudRate::BaudOther(3000000) => Some(high[12]),
        BaudRate::BaudOther(3500000) => Some(high[13]),
        BaudRate::BaudOther(4000000) => Some(high[14]),
        BaudRate::BaudOther(_) => None,
    }
}

/// Only rates in canonical form have a speed code, and no two speeds share
/// one: the code a line is set to determines its speed.
pub proof fn lemma_speed_codes_distinct(a: BaudRate, b: BaudRate)
    requires
        spec_baud_speed_code(a) is Some,
        spec_baud_speed_code(a) == spec_baud_speed_code(b),
    ensures
        spec_is_canonical(a),
        spec_speed(a) == spec_speed(b),
        a == b,
{
}

/// The termios constant `B<n>` for a line speed of `n` baud, with the value
/// the `termios` crate gives it on Linux; `None` where termios defines no
/// constant for that speed.
pub open spec fn spec_termios_speed(speed: usize) -> Option<u32> {
    if speed == 50 {
        Some(0o1)
    } else if speed == 75 {
        Some(0o2)
    } else if speed == 110 {
        Some(0o3)
    } else if speed == 134 {
        Some(0o4)
    } else if speed == 150 {
        Some(0o5)
    } else if speed == 200 {
        Some(0o6)
    } else if speed == 300 {
        Some(0o7)
    } else if speed == 600 {
        Some(0o10)
    } else if speed == 1200 {
        Some(0o11)
    } else if speed == 1800 {
        Some(0o12)
    } else if speed == 2400 {
        Some(0o13)
    } else if speed == 4800 {
        Some(0o14)
    } else if speed == 9600 {
        Some(0o15)
    } else if speed == 19200 {
        Some(0o16)
    } else if speed == 38400 {
        Some(0o17)
    } else if speed == 57600 {
        Some(0o10001)
    } else if speed == 115200 {
        Some(0o10002)
    } else if speed == 230400 {
        Some(0o10003)
    } else if speed == 460800 {
        Some(0o10004)
    } else if speed == 500000 {
        Some(0o10005)
    } else if speed == 576000 {
        Some(0o10006)
    } else if speed == 921600 {
        Some(0o10007)
    } else if speed == 1000000 {
        Some(0o10010)
    } else if speed == 1152000 {
        Some(0o10011)
    } else if speed == 1500000 {
        Some(0o10012)
    } else if speed == 2000000 {
        Some(0o10013)
    } else if speed == 2500000 {
        Some(0o10014)
    } else if speed == 3000000 {
        Some(0o10015)
    } else if speed == 3500000 {
        Some(0o10016)
    } else if speed == 4000000 {
        Some(0o10017)
    } else {
        None
    }
}

/// A line is set to the termios constant of its rate's own speed: a rate in
/// canonical form gets `B<n>` for its speed `n` (when termios has one), and
/// a standard speed written as `BaudOther` gets no code. Every standard
/// rate has its code.
pub proof fn lemma_speed_code_is_own_speed(rate: BaudRate)
    ensures
        spec_baud_speed_code(rate) == (if spec_is_canonical(rate) {
            spec_termios_speed(spec_speed(rate))
        } else {
            None
        }),
        !(rate is BaudOther) ==> spec_baud_speed_code(rate) is Some,
{
}

/// Number of bits per character.
#[derive(Debug, PartialEq, Eq, Clone, Copy, Structural)]
pub enum CharSize {
    /// 5 bits per character.
    Bits5,
    /// 6 bits per character.
    Bits6,
    /// 7 bits per character.
    Bits7,
    /// 8 bits per character.
    Bits8,
}

/// Parity checking modes.
///
/// With `ParityOdd` or `ParityEven` an extra bit is sent with each
/// character, set so that the number of 1 bits in the character and the
/// parity bit is odd or even; `ParityNone` sends no parity bit.
#[derive(Debug, PartialEq, Eq, Clone, Copy, Structural)]
pub enum Parity {
    /// No parity bit.
    ParityNone,
    /// Parity bit sets odd number of 1 bits.
    ParityOdd,
    /// Parity bit sets even number of 1 bits.
    ParityEven,
}

/// Number of stop bits sent after every character.
#[derive(Debug, PartialEq, Eq, Clone, Copy, Structural)]
pub enum StopBits {
    /// One stop bit.
    Stop1,
    /// Two stop bits.
    Stop2,
}

/// Flow control modes.
#[derive(Debug, PartialEq, Eq, Clone, Copy, Structural)]
pub enum FlowControl {
    /// No flow control.
    FlowNone,
    /// Flow control using XON/XOFF bytes.
    FlowSoftware,
    /// Flow control using RTS/CTS signals.
    FlowHardware,
}

/// The termios flag bits that the line settings below touch.
#[derive(Copy, Clone, Debug, PartialEq, Eq, Structural)]
pub struct LineFlagBits {
    pub csize: u32,
    pub cs5: u32,
    pub cs6: u32,
    pub cs7: u32,
    pub cs8: u32,
    pub cstopb: u32,
    pub parenb: u32,
    pub parodd: u32,
    pub inpck: u32,
    pub ignpar: u32,
    pub ixon: u32,
    pub ixoff: u32,
    pub crtscts: u32,
}

/// The values that the `termios` crate gives these flags on Linux.
pub open spec fn spec_line_bits() -> LineFlagBits {
    LineFlagBits {
        csize: 0o60,
        cs5: 0o0,
        cs6: 0o20,
        cs7: 0o40,
        cs8: 0o60,
        cstopb: 0o100,
        parenb: 0o400,
        parodd: 0o1000,
        inpck: 0o20,
        ignpar: 0o4,
        ixon: 0o2000,
        ixoff: 0o10000,
        crtscts: 0o20000000000,
    }
}

/// Reads the flag constants `CSIZE`, `CS5`..`CS8`, `CSTOPB`, `PARENB`,
/// `PARODD`, `INPCK`, `IGNPAR`, `IXON`, `IXOFF` and `CRTSCTS` of the
/// `termios` crate; its Linux module defines them with the values of
/// [`spec_line_bits`].
#[verifier::external_body]
fn line_bits() -> (bits: LineFlagBits)
    ensures
        bits == spec_line_bits(),
{
    LineFlagBits {
        csize: termios::CSIZE,
        cs5: termios::CS5,
        cs6: termios::CS6,
        cs7: termios::CS7,
        cs8: termios::CS8,
        cstopb: termios::CSTOPB,
        parenb: termios::PARENB,
        parodd: termios::PARODD,
        inpck: termios::INPCK,
        ignpar: termios::IGNPAR,
        ixon: termios::IXON,
        ixoff: termios::IXOFF,
        crtscts: termios::os::target::CRTSCTS,
    }
}

/// The input and control mode flags of a serial line, as termios holds them.
#[derive(Copy, Clone, Debug, PartialEq, Eq, Structural)]
pub struct LineFlags {
    /// Input modes (`c_iflag`).
    pub iflag: u32,
    /// Control modes (`c_cflag`).
    pub cflag: u32,
}

/// A flag word with the bits of `mask` replaced by `value`.
pub open spec fn spec_with_bits(word: u32, mask: u32, value: u32) -> u32 {
    (word & !mask) | value
}

/// Control mode bits of the character size: `CSIZE`.
pub open spec fn spec_char_size_mask() -> u32 {
    spec_line_bits().csize
}

/// Control mode bits of parity: `PARENB | PARODD`.
pub open spec fn spec_parity_cmask() -> u32 {
    spec_line_bits().parenb | spec_line_bits().parodd
}

/// Input mode bits of parity: `INPCK | IGNPAR`.
pub open spec fn spec_parity_imask() -> u32 {
    spec_line_bits().inpck | spec_line_bits().ignpar
}

/// Control mode bit of the stop bits: `CSTOPB`.
pub open spec fn spec_stop_bits_mask() -> u32 {
    spec_line_bits().cstopb
}

/// Input mode bits of software flow control: `IXON | IXOFF`.
pub open spec fn spec_flow_imask() -> u32 {
    spec_line_bits().ixon | spec_line_bits().ixoff
}

/// Control mode bit of hardware flow control: `CRTSCTS`.
pub open spec fn spec_flow_cmask() -> u32 {
    spec_line_bits().crtscts
}

/// The size field for each character size: `CS5` to `CS8`.
pub open spec fn spec_char_size_bits(char_size: CharSize) -> u32 {
    match char_size {
        CharSize::Bits5 => spec_line_bits().cs5,
        CharSize::Bits6 => spec_line_bits().cs6,
        CharSize::Bits7 => spec_line_bits().cs7,
        CharSize::Bits8 => spec_line_bits().cs8,
    }
}

/// Control mode parity bits: none clears both, odd sets both, even sets
/// `PARENB` alone.
pub open spec fn spec_parity_cbits(parity: Parity) -> u32 {
    match parity {
        Parity::ParityNone => 0,
        Parity::ParityOdd => spec_line_bits().parenb | spec_line_bits().parodd,
        Parity::ParityEven => spec_line_bits().parenb,
    }
}

/// Input mode parity bits: without parity errors are ignored (`IGNPAR`);
/// with parity, input is checked (`INPCK`).
pub open spec fn spec_parity_ibits(parity: Parity) -> u32 {
    match parity {
        Parity::ParityNone => spec_line_bits().ignpar,
        _ => spec_line_bits().inpck,
    }
}

/// `CSTOPB` for two stop bits, nothing for one.
pub open spec fn spec_stop_bits_bits(stop_bits: StopBits) -> u32 {
    match stop_bits {
        StopBits::Stop1 => 0,
        StopBits::Stop2 => spec_line_bits().cstopb,
    }
}

/// `IXON | IXOFF` for software flow control, nothing otherwise.
pub open spec fn spec_flow_ibits(flow_control: FlowControl) -> u32 {
    match flow_control {
        FlowControl::FlowSoftware => spec_line_bits().ixon | spec_line_bits().ixoff,
        _ => 0,
    }
}

/// `CRTSCTS` for hardware flow control, nothing otherwise.
pub open spec fn spec_flow_cbits(flow_control: FlowControl) -> u32 {
    match flow_control {
        FlowControl::FlowHardware => spec_line_bits().crtscts,
        _ => 0,
    }
}

/// The flags after selecting a character size.
pub open spec fn spec_set_char_size(flags: LineFlags, char_size: CharSize) -> LineFlags {
    LineFlags {
        iflag: flags.iflag,
        cflag: spec_with_bits(flags.cflag, spec_char_size_mask(), spec_char_size_bits(char_size)),
    }
}

/// The flags after selecting parity.
pub open spec fn spec_set_parity(flags: LineFlags, parity: Parity) -> LineFlags {
    LineFlags {
        iflag: spec_with_bits(flags.iflag, spec_parity_imask(), spec_parity_ibits(parity)),
        cflag: spec_with_bits(flags.cflag, spec_parity_cmask(), spec_parity_cbits(parity)),
    }
}

/// The flags after selecting the stop bits.
pub open spec fn spec_set_stop_bits(flags: LineFlags, stop_bits: StopBits) -> LineFlags {
    LineFlags {
        iflag: flags.iflag,
        cflag: spec_with_bits(flags.cflag, spec_stop_bits_mask(), spec_stop_bits_bits(stop_bits)),
    }
}

/// The flags after selecting flow control.
pub open spec fn spec_set_flow_control(flags: LineFlags, flow_control: FlowControl) -> LineFlags {
    LineFlags {
        iflag: spec_with_bits(flags.iflag, spec_flow_imask(), spec_flow_ibits(flow_control)),
        cflag: spec_with_bits(flags.cflag, spec_flow_cmask(), spec_flow_cbits(flow_control)),
    }
}

/// Clearing bits is replacing them by nothing.
proof fn lemma_clear_bits(x: u32, mask: u32)
    by (bit_vector)
    ensures
        x & !mask == (x & !mask) | 0u32,
{
}

/// Setting bits is replacing them by themselves.
proof fn lemma_set_bits(x: u32, mask: u32)
    by (bit_vector)
    ensures
        x | mask == (x & !mask) | mask,
{
}

/// Clearing `a` and setting `b` replaces the bits of both by `b`.
proof fn lemma_clear_then_set(x: u32, a: u32, b: u32)
    by (bit_vector)
    ensures
        (x & !a) | b == (x & !(a | b)) | b,
{
}

/// Setting `a` and clearing a disjoint `b` replaces the bits of both by `a`.
proof fn lemma_set_then_clear(x: u32, a: u32, b: u32)
    by (bit_vector)
    requires
        a & b == 0u32,
    ensures
        (x | a) & !b == (x & !(a | b)) | a,
{
}

/// Replacing the bits of two disjoint masks can be done in either order.
pub proof fn lemma_with_bits_commute(x: u32, m1: u32, v1: u32, m2: u32, v2: u32)
    by (bit_vector)
    requires
        m1 & m2 == 0u32,
        v1 & !m1 == 0u32,
        v2 & !m2 == 0u32,
    ensures
        (((x & !m1) | v1) & !m2) | v2 == (((x & !m2) | v2) & !m1) | v1,
{
}

/// Replacing the same bits twice keeps only the second replacement.
pub proof fn lemma_with_bits_overwrite(x: u32, m: u32, v1: u32, v2: u32)
    by (bit_vector)
    requires
        v1 & !m == 0u32,
    ensures
        (((x & !m) | v1) & !m) | v2 == (x & !m) | v2,
{
}

/// After replacing the bits of a mask, they read back as the replacement and
/// every other bit is as before.
pub proof fn lemma_with_bits_readback(x: u32, m: u32, v: u32)
    by (bit_vector)
    requires
        v & !m == 0u32,
    ensures
        ((x & !m) | v) & m == v,
        ((x & !m) | v) & !m == x & !m,
{
}

/// The masks of the different settings are pairwise disjoint, and every
/// setting's bits lie inside its mask.
proof fn lemma_line_masks()
    by (bit_vector)
    ensures
        0o60u32 & 0o1400u32 == 0u32,
        0o60u32 & 0o100u32 == 0u32,
        0o60u32 & 0o20000000000u32 == 0u32,
        0o1400u32 & 0o100u32 == 0u32,
        0o1400u32 & 0o20000000000u32 == 0u32,
        0o100u32 & 0o20000000000u32 == 0u32,
        0o24u32 & 0o12000u32 == 0u32,
        0o20u32 & 0o4u32 == 0u32,
        0o0u32 & !0o60u32 == 0u32,
        0o20u32 & !0o60u32 == 0u32,
        0o40u32 & !0o60u32 == 0u32,
        0o60u32 & !0o60u32 == 0u32,
        0u32 & !0o1400u32 == 0u32,
        0o1400u32 & !0o1400u32 == 0u32,
        0o400u32 & !0o1400u32 == 0u32,
        0o4u32 & !0o24u32 == 0u32,
        0o20u32 & !0o24u32 == 0u32,
        0u32 & !0o100u32 == 0u32,
        0o100u32 & !0o100u32 == 0u32,
        0u32 & !0o12000u32 == 0u32,
        0o12000u32 & !0o12000u32 == 0u32,
        0u32 & !0o20000000000u32 == 0u32,
        0o20000000000u32 & !0o20000000000u32 == 0u32,
        0o400u32 | 0o1000u32 == 0o1400u32,
        0o1000u32 | 0o400u32 == 0o1400u32,
        0o20u32 | 0o4u32 == 0o24u32,
        0o2000u32 | 0o10000u32 == 0o12000u32,
        0u32 & !0u32 == 0u32,
{
}

impl LineFlags {
    pub fn set_char_size(self, char_size: CharSize) -> (flags: Self)
        ensures
            flags == spec_set_char_size(self, char_size),
    {
        let bits = line_bits();
        let size = match char_size {
            CharSize::Bits5 => bits.cs5,
            CharSize::Bits6 => bits.cs6,
            CharSize::Bits7 => bits.cs7,
            CharSize::Bits8 => bits.cs8,
        };
        let mut flags = self;
        flags.cflag = flags.cflag & !bits.csize;
        flags.cflag = flags.cflag | size;
        flags
    }

    pub fn set_parity(self, parity: Parity) -> (flags: Self)
        ensures
            flags == spec_set_parity(self, parity),
    {
        let bits = line_bits();
        let mut flags = self;
        proof {
            lemma_line_masks();
        }
        match parity {
            Parity::ParityNone => {
                flags.cflag = flags.cflag & !(bits.parenb | bits.parodd);
                flags.iflag = flags.iflag & !bits.inpck;
                flags.iflag = flags.iflag | bits.ignpar;
                proof {
                    lemma_clear_bits(self.cflag, 0o1400);
                    lemma_clear_then_set(self.iflag, 0o20, 0o4);
                }
            },
            Parity::ParityOdd => {
                flags.cflag = flags.cflag | (bits.parenb | bits.parodd);
                flags.iflag = flags.iflag | bits.inpck;
                flags.iflag = flags.iflag & !bits.ignpar;
                proof {
                    lemma_set_bits(self.cflag, 0o1400);
                    lemma_set_then_clear(self.iflag, 0o20, 0o4);
                }
            },
            Parity::ParityEven => {
                flags.cflag = flags.cflag & !bits.parodd;
                flags.cflag = flags.cflag | bits.parenb;
                flags.iflag = flags.iflag | bits.inpck;
                flags.iflag = flags.iflag & !bits.ignpar;
                proof {
                    lemma_clear_then_set(self.cflag, 0o1000, 0o400);
                    lemma_set_then_clear(self.iflag, 0o20, 0o4);
                }
            },
        }
        flags
    }

    pub fn set_stop_bits(self, stop_bits: StopBits) -> (flags: Self)
        ensures
            flags == spec_set_stop_bits(self, stop_bits),
    {
        let bits = line_bits();
        let mut flags = self;
        match stop_bits {
            StopBits::Stop1 => {
                flags.cflag = flags.cflag & !bits.cstopb;
                proof {
                    lemma_clear_bits(self.cflag, 0o100);
                }
            },
            StopBits::Stop2 => {
                flags.cflag = flags.cflag | bits.cstopb;
                proof {
                    lemma_set_bits(self.cflag, 0o100);
                }
            },
        }
        flags
    }

    pub fn set_flow_control(self, flow_control: FlowControl) -> (flags: Self)
        ensures
            flags == spec_set_flow_control(self, flow_control),
    {
        let bits = line_bits();
        let mut flags = self;
        proof {
            lemma_line_masks();
        }
        match flow_control {
            FlowControl::FlowNone => {
                flags.iflag = flags.iflag & !(bits.ixon | bits.ixoff);
                flags.cflag = flags.cflag & !bits.crtscts;
                proof {
                    lemma_clear_bits(self.iflag, 0o12000);
                    lemma_clear_bits(self.cflag, 0o20000000000);
                }
            },
            FlowControl::FlowSoftware => {
                flags.iflag = flags.iflag | (bits.ixon | bits.ixoff);
                flags.cflag = flags.cflag & !bits.crtscts;
                proof {
                    lemma_set_bits(self.iflag, 0o12000);
                    lemma_clear_bits(self.cflag, 0o20000000000);
                }
            },
            FlowControl::FlowHardware => {
                flags.iflag = flags.iflag & !(bits.ixon | bits.ixoff);
                flags.cflag = flags.cflag | bits.crtscts;
                proof {
                    lemma_clear_bits(self.iflag, 0o12000);
                    lemma_set_bits(self.cflag, 0o20000000000);
                }
            },
        }
        flags
    }
}

/// Each setting's bits lie inside its masks.
proof fn lemma_setting_bits_within(
    char_size: CharSize,
    parity: Parity,
    stop_bits: StopBits,
    flow_control: FlowControl,
)
    ensures
        spec_char_size_bits(char_size) & !spec_char_size_mask() == 0u32,
        spec_parity_cbits(parity) & !spec_parity_cmask() == 0u32,
        spec_parity_ibits(parity) & !spec_parity_imask() == 0u32,
        spec_stop_bits_bits(stop_bits) & !spec_stop_bits_mask() == 0u32,
        spec_flow_cbits(flow_control) & !spec_flow_cmask() == 0u32,
        spec_flow_ibits(flow_control) & !spec_flow_imask() == 0u32,
        spec_char_size_mask() & spec_parity_cmask() == 0u32,
        spec_char_size_mask() & spec_stop_bits_mask() == 0u32,
        spec_char_size_mask() & spec_flow_cmask() == 0u32,
        spec_parity_cmask() & spec_stop_bits_mask() == 0u32,
        spec_parity_cmask() & spec_flow_cmask() == 0u32,
        spec_stop_bits_mask() & spec_flow_cmask() == 0u32,
        spec_parity_imask() & spec_flow_imask() == 0u32,
{
    lemma_line_masks();
}

/// How each setting leaves the bits it owns, for any flags before.
proof fn lemma_setting_bit_values(c: u32, i: u32)
    by (bit_vector)
    ensures
        ((c & !0o60u32) | 0u32) & 0o60u32 == 0u32,
        ((c & !0o60u32) | 0o20u32) & 0o60u32 == 0o20u32,
        ((c & !0o60u32) | 0o40u32) & 0o60u32 == 0o40u32,
        ((c & !0o60u32) | 0o60u32) & 0o60u32 == 0o60u32,
        ((c & !0o1400u32) | 0u32) & 0o400u32 == 0u32,
        ((c & !0o1400u32) | 0o1400u32) & 0o400u32 == 0o400u32,
        ((c & !0o1400u32) | 0o1400u32) & 0o1000u32 == 0o1000u32,
        ((c & !0o1400u32) | 0o400u32) & 0o400u32 == 0o400u32,
        ((c & !0o1400u32) | 0o400u32) & 0o1000u32 == 0u32,
        ((i & !0o24u32) | 0o4u32) & 0o4u32 == 0o4u32,
        ((i & !0o24u32) | 0o4u32) & 0o20u32 == 0u32,
        ((i & !0o24u32) | 0o20u32) & 0o20u32 == 0o20u32,
        ((i & !0o24u32) | 0o20u32) & 0o4u32 == 0u32,
        ((c & !0o100u32) | 0o100u32) & 0o100u32 == 0o100u32,
        ((c & !0o100u32) | 0u32) & 0o100u32 == 0u32,
        ((i & !0o12000u32) | 0o12000u32) & 0o2000u32 == 0o2000u32,
        ((i & !0o12000u32) | 0o12000u32) & 0o10000u32 == 0o10000u32,
        ((i & !0o12000u32) | 0u32) & 0o2000u32 == 0u32,
        ((i & !0o12000u32) | 0u32) & 0o10000u32 == 0u32,
        ((c & !0o20000000000u32) | 0o20000000000u32) & 0o20000000000u32 == 0o20000000000u32,
        ((c & !0o20000000000u32) | 0u32) & 0o20000000000u32 == 0u32,
{
}

/// What each setting means on the line, in termios's own flags: the
/// character size field holds `CS5` to `CS8`; no parity clears `PARENB`
/// and ignores parity errors (`IGNPAR`), odd parity sets `PARENB` and
/// `PARODD`, even parity sets `PARENB` and clears `PARODD`, and both check
/// input (`INPCK`); two stop bits set `CSTOPB`, one clears it; software
/// flow control sets `IXON` and `IXOFF` and clears `CRTSCTS`, hardware flow
/// control the other way round, and no flow control clears all three.
pub proof fn lemma_line_settings_meaning(
    flags: LineFlags,
    char_size: CharSize,
    parity: Parity,
    stop_bits: StopBits,
    flow_control: FlowControl,
)
    ensures
        ({
            let b = spec_line_bits();
            let sized = spec_set_char_size(flags, char_size).cflag;
            &&& char_size is Bits5 ==> sized & b.csize == b.cs5
            &&& char_size is Bits6 ==> sized & b.csize == b.cs6
            &&& char_size is Bits7 ==> sized & b.csize == b.cs7
            &&& char_size is Bits8 ==> sized & b.csize == b.cs8
        }),
        ({
            let b = spec_line_bits();
            let after = spec_set_parity(flags, parity);
            &&& parity is ParityNone ==> after.cflag & b.parenb == 0 && after.iflag & b.ignpar
                == b.ignpar && after.iflag & b.inpck == 0
            &&& parity is ParityOdd ==> after.cflag & b.parenb == b.parenb && after.cflag & b.parodd
                == b.parodd && after.iflag & b.inpck == b.inpck && after.iflag & b.ignpar == 0
            &&& parity is ParityEven ==> after.cflag & b.parenb == b.parenb && after.cflag
                & b.parodd == 0 && after.iflag & b.inpck == b.inpck && after.iflag & b.ignpar == 0
        }),
        ({
            let b = spec_line_bits();
            let after = spec_set_stop_bits(flags, stop_bits).cflag;
            &&& stop_bits is Stop1 ==> after & b.cstopb == 0
            &&& stop_bits is Stop2 ==> after & b.cstopb == b.cstopb
        }),
        ({
            let b = spec_line_bits();
            let after = spec_set_flow_control(flags, flow_control);
            &&& flow_control is FlowNone ==> after.iflag & b.ixon == 0 && after.iflag & b.ixoff == 0
                && after.cflag & b.crtscts == 0
            &&& flow_control is FlowSoftware ==> after.iflag & b.ixon == b.ixon && after.iflag
                & b.ixoff == b.ixoff && after.cflag & b.crtscts == 0
            &&& flow_control is FlowHardware ==> after.iflag & b.ixon == 0 && after.iflag & b.ixoff
                == 0 && after.cflag & b.crtscts == b.crtscts
        }),
{
    lemma_line_masks();
    lemma_setting_bit_values(flags.cflag, flags.iflag);
}

/// The settings of a line (character size, parity, stop bits, flow control)
/// touch disjoint bits, so applying any two of them in either order gives
/// the same flags.
pub proof fn lemma_line_settings_commute(
    flags: LineFlags,
    char_size: CharSize,
    parity: Parity,
    stop_bits: StopBits,
    flow_control: FlowControl,
)
    ensures
        spec_set_parity(spec_set_char_size(flags, char_size), parity) == spec_set_char_size(
            spec_set_parity(flags, parity),
            char_size,
        ),
        spec_set_stop_bits(spec_set_char_size(flags, char_size), stop_bits) == spec_set_char_size(
            spec_set_stop_bits(flags, stop_bits),
            char_size,
        ),
        spec_set_flow_control(spec_set_char_size(flags, char_size), flow_control)
            == spec_set_char_size(spec_set_flow_control(flags, flow_control), char_size),
        spec_set_stop_bits(spec_set_parity(flags, parity), stop_bits) == spec_set_parity(
            spec_set_stop_bits(flags, stop_bits),
            parity,
        ),
        spec_set_flow_control(spec_set_parity(flags, parity), flow_control) == spec_set_parity(
            spec_set_flow_control(flags, flow_control),
            parity,
        ),
        spec_set_flow_control(spec_set_stop_bits(flags, stop_bits), flow_control)
            == spec_set_stop_bits(spec_set_flow_control(flags, flow_control), stop_bits),
{
    lemma_setting_bits_within(char_size, parity, stop_bits, flow_control);
    let (c, i) = (flags.cflag, flags.iflag);
    let (cs, pc, pi) = (
        spec_char_size_bits(char_size),
        spec_parity_cbits(parity),
        spec_parity_ibits(parity),
    );
    let (sb, fc, fi) = (
        spec_stop_bits_bits(stop_bits),
        spec_flow_cbits(flow_control),
        spec_flow_ibits(flow_control),
    );
    let (csm, pcm, pim) = (spec_char_size_mask(), spec_parity_cmask(), spec_parity_imask());
    let (sbm, fcm, fim) = (spec_stop_bits_mask(), spec_flow_cmask(), spec_flow_imask());
    lemma_with_bits_commute(c, csm, cs, pcm, pc);
    lemma_with_bits_commute(c, csm, cs, sbm, sb);
    lemma_with_bits_commute(c, csm, cs, fcm, fc);
    lemma_with_bits_commute(c, pcm, pc, sbm, sb);
    lemma_with_bits_commute(c, pcm, pc, fcm, fc);
    lemma_with_bits_commute(c, sbm, sb, fcm, fc);
    lemma_with_bits_commute(i, pim, pi, fim, fi);
}

/// Setting the same aspect twice keeps only the second choice.
pub proof fn lemma_line_settings_last_wins(
    flags: LineFlags,
    char_sizes: (CharSize, CharSize),
    parities: (Parity, Parity),
    stop_bits: (StopBits, StopBits),
    flow_controls: (FlowControl, FlowControl),
)
    ensures
        spec_set_char_size(spec_set_char_size(flags, char_sizes.0), char_sizes.1)
            == spec_set_char_size(flags, char_sizes.1),
        spec_set_parity(spec_set_parity(flags, parities.0), parities.1) == spec_set_parity(
            flags,
            parities.1,
        ),
        spec_set_stop_bits(spec_set_stop_bits(flags, stop_bits.0), stop_bits.1)
            == spec_set_stop_bits(flags, stop_bits.1),
        spec_set_flow_control(spec_set_flow_control(flags, flow_controls.0), flow_controls.1)
            == spec_set_flow_control(flags, flow_controls.1),
{
    lemma_setting_bits_within(char_sizes.0, parities.0, stop_bits.0, flow_controls.0);
    lemma_setting_bits_within(char_sizes.1, parities.1, stop_bits.1, flow_controls.1);
    let (c, i) = (flags.cflag, flags.iflag);
    lemma_with_bits_overwrite(
        c,
        spec_char_size_mask(),
        spec_char_size_bits(char_sizes.0),
        spec_char_size_bits(char_sizes.1),
    );
    lemma_with_bits_overwrite(
        c,
        spec_parity_cmask(),
        spec_parity_cbits(parities.0),
        spec_parity_cbits(parities.1),
    );
    lemma_with_bits_overwrite(
        i,
        spec_parity_imask(),
        spec_parity_ibits(parities.0),
        spec_parity_ibits(parities.1),
    );
    lemma_with_bits_overwrite(
        c,
        spec_stop_bits_mask(),
        spec_stop_bits_bits(stop_bits.0),
        spec_stop_bits_bits(stop_bits.1),
    );
    lemma_with_bits_overwrite(
        c,
        spec_flow_cmask(),
        spec_flow_cbits(flow_controls.0),
        spec_flow_cbits(flow_controls.1),
    );
    lemma_with_bits_overwrite(
        i,
        spec_flow_imask(),
        spec_flow_ibits(flow_controls.0),
        spec_flow_ibits(flow_controls.1),
    );
}

/// After a setting, its bits read back as the choice made, and every bit
/// outside them is as before.
pub proof fn lemma_line_settings_readback(
    flags: LineFlags,
    char_size: CharSize,
    parity: Parity,
    stop_bits: StopBits,
    flow_control: FlowControl,
)
    ensures
        spec_set_char_size(flags, char_size).cflag & spec_char_size_mask() == spec_char_size_bits(
            char_size,
        ),
        spec_set_char_size(flags, char_size).cflag & !spec_char_size_mask() == flags.cflag
            & !spec_char_size_mask(),
        spec_set_char_size(flags, char_size).iflag == flags.iflag,
        spec_set_parity(flags, parity).cflag & spec_parity_cmask() == spec_parity_cbits(parity),
        spec_set_parity(flags, parity).cflag & !spec_parity_cmask() == flags.cflag
            & !spec_parity_cmask(),
        spec_set_parity(flags, parity).iflag & spec_parity_imask() == spec_parity_ibits(parity),
        spec_set_parity(flags, parity).iflag & !spec_parity_imask() == flags.iflag
            & !spec_parity_imask(),
        spec_set_stop_bits(flags, stop_bits).cflag & spec_stop_bits_mask() == spec_stop_bits_bits(
            stop_bits,
        ),
        spec_set_stop_bits(flags, stop_bits).cflag & !spec_stop_bits_mask() == flags.cflag
            & !spec_stop_bits_mask(),
        spec_set_stop_bits(flags, stop_bits).iflag == flags.iflag,
        spec_set_flow_control(flags, flow_control).cflag & spec_flow_cmask() == spec_flow_cbits(
            flow_control,
        ),
        spec_set_flow_control(flags, flow_control).cflag & !spec_flow_cmask() == flags.cflag
            & !spec_flow_cmask(),
        spec_set_flow_control(flags, flow_control).iflag & spec_flow_imask() == spec_flow_ibits(
            flow_control,
        ),
        spec_set_flow_control(flags, flow_control).iflag & !spec_flow_imask() == flags.iflag
            & !spec_flow_imask(),
{
    lemma_setting_bits_within(char_size, parity, stop_bits, flow_control);
    let (c, i) = (flags.cflag, flags.iflag);
    lemma_with_bits_readback(c, spec_char_size_mask(), spec_char_size_bits(char_size));
    lemma_with_bits_readback(c, spec_parity_cmask(), spec_parity_cbits(parity));
    lemma_with_bits_readback(i, spec_parity_imask(), spec_parity_ibits(parity));
    lemma_with_bits_readback(c, spec_stop_bits_mask(), spec_stop_bits_bits(stop_bits));
    lemma_with_bits_readback(c, spec_flow_cmask(), spec_flow_cbits(flow_control));
    lemma_with_bits_readback(i, spec_flow_imask(), spec_flow_ibits(flow_control));
}

} // verus!
