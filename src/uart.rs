//! Universal Asynchronous Receiver/Transmitter.
use vstd::prelude::*;
use crate::bits::{field, get_field, outside, set_field, with_field};

verus! {

/// Parity check.
#[derive(Clone, Copy, Debug, PartialEq, Eq, Structural)]
pub enum Parity {
    /// No parity check.
    Disabled,
    /// Odd parity bit.
    Odd,
    /// Even parity bit.
    Even,
}

impl Parity {
    /// Two-bit register code: even parity sets both bits.
    pub open spec fn spec_code(self) -> u32 {
        match self {
            Parity::Disabled => 0b00,
            Parity::Odd => 0b01,
            Parity::Even => 0b11,
        }
    }

    /// Two-bit register code: even parity sets both bits.
    pub fn code(self) -> (r: u32)
        ensures
            r == self.spec_code(),
    {
        match self {
            Parity::Disabled => 0b00,
            Parity::Odd => 0b01,
            Parity::Even => 0b11,
        }
    }
}

/// Stop bits.
#[derive(Clone, Copy, Debug, PartialEq, Eq, Structural)]
pub enum StopBits {
    /// 1 stop bit.
    One,
    /// 1.5 stop bits when word length is 5 bits else 2 stop bits.
    OnePointFiveOrTwo,
}

impl StopBits {
    /// One-bit register code.
    pub open spec fn spec_code(self) -> u32 {
        match self {
            StopBits::One => 0,
            StopBits::OnePointFiveOrTwo => 1,
        }
    }

    /// One-bit register code.
    pub fn code(self) -> (r: u32)
        ensures
            r == self.spec_code(),
    {
        match self {
            StopBits::One => 0,
            StopBits::OnePointFiveOrTwo => 1,
        }
    }
}

/// Word length.
#[derive(Clone, Copy, Debug, PartialEq, Eq, Structural)]
pub enum WordLength {
    /// Five bits per word.
    Five,
    /// Six bits per word.
    Six,
    /// Seven bits per word.
    Seven,
    /// Eight bits per word.
    Eight,
}

impl WordLength {
    /// Two-bit register code: the number of bits less five.
    pub open spec fn spec_code(self) -> u32 {
        match self {
            WordLength::Five => 0b00,
            WordLength::Six => 0b01,
            WordLength::Seven => 0b10,
            WordLength::Eight => 0b11,
        }
    }

    /// Two-bit register code: the number of bits less five.
    pub fn code(self) -> (r: u32)
        ensures
            r == self.spec_code(),
    {
        match self {
            WordLength::Five => 0b00,
            WordLength::Six => 0b01,
            WordLength::Seven => 0b10,
            WordLength::Eight => 0b11,
        }
    }
}

pub const WORD_LENGTH_SHIFT: u32 = 0;
pub const STOP_BIT_SHIFT: u32 = 2;
pub const PARITY_SHIFT: u32 = 3;
pub const DIVISOR_LATCH_ACCESS_SHIFT: u32 = 7;

/// Line Control Register: word length in bits 1:0, stop bits in bit 2,
/// parity in bits 4:3 and divisor latch access in bit 7.
#[derive(Clone, Copy, Debug, PartialEq, Eq, Default)]
pub struct LCR(u32);

impl View for LCR {
    type V = u32;

    closed spec fn view(&self) -> u32 {
        self.0
    }
}

impl LCR {
    /// Wraps a raw register value.
    pub fn from_bits(bits: u32) -> (r: Self)
        ensures
            r@ == bits,
    {
        LCR(bits)
    }

    /// The raw register value.
    pub fn bits(self) -> (r: u32)
        ensures
            r == self@,
    {
        self.0
    }

    /// Set word length.
    pub fn set_word_length(self, len: WordLength) -> (r: Self)
        ensures
            r@ == with_field(self@, WORD_LENGTH_SHIFT, 3, len.spec_code()),
            field(r@, WORD_LENGTH_SHIFT, 3) == len.spec_code(),
            outside(r@, WORD_LENGTH_SHIFT, 3) == outside(self@, WORD_LENGTH_SHIFT, 3),
    {
        LCR(set_field(self.0, WORD_LENGTH_SHIFT, 3, len.code()))
    }

    /// Get word length.
    pub fn word_length(self) -> (r: WordLength)
        ensures
            r.spec_code() == field(self@, WORD_LENGTH_SHIFT, 3),
    {
        let code = get_field(self.0, WORD_LENGTH_SHIFT, 3);
        if code == 0 {
            WordLength::Five
        } else if code == 1 {
            WordLength::Six
        } else if code == 2 {
            WordLength::Seven
        } else {
            WordLength::Eight
        }
    }

    /// Set stop bit.
    pub fn set_stop_bit(self, stop: StopBits) -> (r: Self)
        ensures
            r@ == with_field(self@, STOP_BIT_SHIFT, 1, stop.spec_code()),
            field(r@, STOP_BIT_SHIFT, 1) == stop.spec_code(),
            outside(r@, STOP_BIT_SHIFT, 1) == outside(self@, STOP_BIT_SHIFT, 1),
    {
        LCR(set_field(self.0, STOP_BIT_SHIFT, 1, stop.code()))
    }

    /// Get stop bit.
    pub fn stop_bit(self) -> (r: StopBits)
        ensures
            r.spec_code() == field(self@, STOP_BIT_SHIFT, 1),
    {
        if get_field(self.0, STOP_BIT_SHIFT, 1) == 0 {
            StopBits::One
        } else {
            StopBits::OnePointFiveOrTwo
        }
    }

    /// Whether the parity field holds one of the three parity codes.
    pub open spec fn has_valid_parity(self) -> bool {
        field(self@, PARITY_SHIFT, 3) != 0b10
    }

    /// Set parity check.
    pub fn set_parity(self, parity: Parity) -> (r: Self)
        ensures
            r@ == with_field(self@, PARITY_SHIFT, 3, parity.spec_code()),
            field(r@, PARITY_SHIFT, 3) == parity.spec_code(),
            outside(r@, PARITY_SHIFT, 3) == outside(self@, PARITY_SHIFT, 3),
    {
        LCR(set_field(self.0, PARITY_SHIFT, 3, parity.code()))
    }

    /// Get parity check.
    pub fn parity(self) -> (r: Parity)
        requires
            self.has_valid_parity(),
        ensures
            r.spec_code() == field(self@, PARITY_SHIFT, 3),
    {
        let code = get_field(self.0, PARITY_SHIFT, 3);
        if code == 0 {
            Parity::Disabled
        } else if code == 1 {
            Parity::Odd
        } else {
            Parity::Even
        }
    }

    /// Enable divisor latch access.
    pub fn enable_divisor_latch_access(self) -> (r: Self)
        ensures
            r@ == with_field(self@, DIVISOR_LATCH_ACCESS_SHIFT, 1, 1),
            field(r@, DIVISOR_LATCH_ACCESS_SHIFT, 1) == 1,
            outside(r@, DIVISOR_LATCH_ACCESS_SHIFT, 1) == outside(
                self@,
                DIVISOR_LATCH_ACCESS_SHIFT,
                1,
            ),
    {
        LCR(set_field(self.0, DIVISOR_LATCH_ACCESS_SHIFT, 1, 1))
    }

    /// Disable divisor latch access.
    pub fn disable_divisor_latch_access(self) -> (r: Self)
        ensures
            r@ == with_field(self@, DIVISOR_LATCH_ACCESS_SHIFT, 1, 0),
            field(r@, DIVISOR_LATCH_ACCESS_SHIFT, 1) == 0,
            outside(r@, DIVISOR_LATCH_ACCESS_SHIFT, 1) == outside(
                self@,
                DIVISOR_LATCH_ACCESS_SHIFT,
                1,
            ),
    {
        LCR(set_field(self.0, DIVISOR_LATCH_ACCESS_SHIFT, 1, 0))
    }

    /// Check if divisor latch access is enabled.
    pub fn is_divisor_latch_access_enabled(self) -> (r: bool)
        ensures
            r == (field(self@, DIVISOR_LATCH_ACCESS_SHIFT, 1) == 1),
    {
        get_field(self.0, DIVISOR_LATCH_ACCESS_SHIFT, 1) == 1
    }

    /// The line format of `config` written over this value: stop bits, then
    /// word length, then parity; every other bit is kept.
    pub fn with_config(self, config: Config) -> (r: Self)
        ensures
            r@ == with_field(
                with_field(
                    with_field(self@, STOP_BIT_SHIFT, 1, config.stop_bits.spec_code()),
                    WORD_LENGTH_SHIFT,
                    3,
                    config.word_length.spec_code(),
                ),
                PARITY_SHIFT,
                3,
                config.parity.spec_code(),
            ),
            field(r@, STOP_BIT_SHIFT, 1) == config.stop_bits.spec_code(),
            field(r@, WORD_LENGTH_SHIFT, 3) == config.word_length.spec_code(),
            field(r@, PARITY_SHIFT, 3) == config.parity.spec_code(),
            r@ & !0x1Fu32 == self@ & !0x1Fu32,
    {
        let a = self.set_stop_bit(config.stop_bits);
        let b = a.set_word_length(config.word_length);
        let r = b.set_parity(config.parity);
        let (s0, a0, b0, r0) = (self.0, a.0, b.0, r.0);
        assert(field(r0, STOP_BIT_SHIFT, 1) == field(b0, STOP_BIT_SHIFT, 1)
            && field(b0, STOP_BIT_SHIFT, 1) == field(a0, STOP_BIT_SHIFT, 1)
            && field(r0, WORD_LENGTH_SHIFT, 3) == field(b0, WORD_LENGTH_SHIFT, 3)
            && r0 & !0x1Fu32 == s0 & !0x1Fu32) by (bit_vector)
            requires
                (b0 & !(3u32 << 3u32)) == (r0 & !(3u32 << 3u32)),
                (a0 & !(3u32 << 0u32)) == (b0 & !(3u32 << 0u32)),
                (s0 & !(1u32 << 2u32)) == (a0 & !(1u32 << 2u32)),
        ;
        r
    }
}

pub const REQUEST_TO_SEND_SHIFT: u32 = 1;
pub const AUTO_FLOW_CONTROL_SHIFT: u32 = 5;

/// Modem Control Register: request to send in bit 1 and auto flow control
/// in bit 5.
#[derive(Clone, Copy, Debug, PartialEq, Eq, Default)]
pub struct MCR(u32);

impl View for MCR {
    type V = u32;

    closed spec fn view(&self) -> u32 {
        self.0
    }
}

impl MCR {
    /// Wraps a raw register value.
    pub fn from_bits(bits: u32) -> (r: Self)
        ensures
            r@ == bits,
    {
        MCR(bits)
    }

    /// The raw register value.
    pub fn bits(self) -> (r: u32)
        ensures
            r == self@,
    {
        self.0
    }

    /// Enable request to send.
    pub fn enable_request_to_send(self) -> (r: Self)
        ensures
            r@ == with_field(self@, REQUEST_TO_SEND_SHIFT, 1, 1),
            field(r@, REQUEST_TO_SEND_SHIFT, 1) == 1,
            outside(r@, REQUEST_TO_SEND_SHIFT, 1) == outside(self@, REQUEST_TO_SEND_SHIFT, 1),
    {
        MCR(set_field(self.0, REQUEST_TO_SEND_SHIFT, 1, 1))
    }

    /// Disable request to send.
    pub fn disable_request_to_send(self) -> (r: Self)
        ensures
            r@ == with_field(self@, REQUEST_TO_SEND_SHIFT, 1, 0),
            field(r@, REQUEST_TO_SEND_SHIFT, 1) == 0,
            outside(r@, REQUEST_TO_SEND_SHIFT, 1) == outside(self@, REQUEST_TO_SEND_SHIFT, 1),
    {
        MCR(set_field(self.0, REQUEST_TO_SEND_SHIFT, 1, 0))
    }

    /// Check if request to send is enabled.
    pub fn is_request_to_send_enabled(self) -> (r: bool)
        ensures
            r == (field(self@, REQUEST_TO_SEND_SHIFT, 1) == 1),
    {
        get_field(self.0, REQUEST_TO_SEND_SHIFT, 1) == 1
    }

    /// Enable auto flow control.
    pub fn enable_auto_flow_control(self) -> (r: Self)
        ensures
            r@ == with_field(self@, AUTO_FLOW_CONTROL_SHIFT, 1, 1),
            field(r@, AUTO_FLOW_CONTROL_SHIFT, 1) == 1,
            outside(r@, AUTO_FLOW_CONTROL_SHIFT, 1) == outside(self@, AUTO_FLOW_CONTROL_SHIFT, 1),
    {
        MCR(set_field(self.0, AUTO_FLOW_CONTROL_SHIFT, 1, 1))
    }

    /// Disable auto flow control.
    pub fn disable_auto_flow_control(self) -> (r: Self)
        ensures
            r@ == with_field(self@, AUTO_FLOW_CONTROL_SHIFT, 1, 0),
            field(r@, AUTO_FLOW_CONTROL_SHIFT, 1) == 0,
            outside(r@, AUTO_FLOW_CONTROL_SHIFT, 1) == outside(self@, AUTO_FLOW_CONTROL_SHIFT, 1),
    {
        MCR(set_field(self.0, AUTO_FLOW_CONTROL_SHIFT, 1, 0))
    }

    /// Check if auto flow control is enabled.
    pub fn is_auto_flow_control_enabled(self) -> (r: bool)
        ensures
            r == (field(self@, AUTO_FLOW_CONTROL_SHIFT, 1) == 1),
    {
        get_field(self.0, AUTO_FLOW_CONTROL_SHIFT, 1) == 1
    }
}

pub const TRANSMIT_HOLDING_EMPTY_SHIFT: u32 = 5;
pub const TRANSMIT_EMPTY_SHIFT: u32 = 6;

/// Line Status Register: transmit holding register empty in bit 5 and
/// transmit FIFO empty in bit 6.
#[derive(Clone, Copy, Debug, PartialEq, Eq, Default)]
pub struct LSR(u32);

impl View for LSR {
    type V = u32;

    closed spec fn view(&self) -> u32 {
        self.0
    }
}

impl LSR {
    /// Wraps a raw register value.
    pub fn from_bits(bits: u32) -> (r: Self)
        ensures
            r@ == bits,
    {
        LSR(bits)
    }

    /// Check if transmit holding register is empty.
    pub fn is_transmit_holding_empty(self) -> (r: bool)
        ensures
            r == (field(self@, TRANSMIT_HOLDING_EMPTY_SHIFT, 1) == 1),
    {
        get_field(self.0, TRANSMIT_HOLDING_EMPTY_SHIFT, 1) == 1
    }

    /// Check if transmit FIFO is empty.
    pub fn is_transmit_empty(self) -> (r: bool)
        ensures
            r == (field(self@, TRANSMIT_EMPTY_SHIFT, 1) == 1),
    {
        get_field(self.0, TRANSMIT_EMPTY_SHIFT, 1) == 1
    }
}

/// Serial configuration.
#[derive(Clone, Copy, Debug, PartialEq, Eq, Structural)]
pub struct Config {
    /// Parity settings.
    pub parity: Parity,
    /// Serial stop bits.
    pub stop_bits: StopBits,
    /// Data word length.
    pub word_length: WordLength,
}

impl Default for Config {
    /// Serial configuration defaults to 8-bit word, no parity check, 1 stop bit.
    fn default() -> (r: Self)
        ensures
            r == (Config {
                parity: Parity::Disabled,
                stop_bits: StopBits::One,
                word_length: WordLength::Eight,
            }),
    {
        Config { parity: Parity::Disabled, stop_bits: StopBits::One, word_length: WordLength::Eight }
    }
}

/// Baud rate generator interval programmed by `serial`; the clock source
/// is fixed for now.
pub const BAUD_INTERVAL: u32 = 14;

/// The low and high divisor latch bytes of a baud rate interval.
pub fn divisor_latch_bytes(interval: u32) -> (r: (u32, u32))
    ensures
        r == (interval & 0xff, (interval >> 8) & 0xff),
{
    (interval & 0xff, (interval >> 8) & 0xff)
}

/// The writes that bring up a serial port, in the order they are made:
/// the line control register with divisor latch access on, the low then
/// the high divisor latch byte, the line control register with latch
/// access off, and last the line control register with the line format.
#[derive(Clone, Copy, Debug)]
pub struct SerialSetup {
    pub latch_on: LCR,
    pub divisor_low: u32,
    pub divisor_high: u32,
    pub latch_off: LCR,
    pub line: LCR,
}

/// The writes that bring up a serial port whose line control register
/// holds `lcr`, for baud rate interval `interval` and line format `config`.
pub fn serial_setup(lcr: LCR, interval: u32, config: Config) -> (r: SerialSetup)
    ensures
        r.latch_on@ == with_field(lcr@, DIVISOR_LATCH_ACCESS_SHIFT, 1, 1),
        (r.divisor_low, r.divisor_high) == (interval & 0xff, (interval >> 8) & 0xff),
        r.latch_off@ == with_field(r.latch_on@, DIVISOR_LATCH_ACCESS_SHIFT, 1, 0),
        r.line@ == with_field(
            with_field(
                with_field(r.latch_off@, STOP_BIT_SHIFT, 1, config.stop_bits.spec_code()),
                WORD_LENGTH_SHIFT,
                3,
                config.word_length.spec_code(),
            ),
            PARITY_SHIFT,
            3,
            config.parity.spec_code(),
        ),
{
    let latch_on = lcr.enable_divisor_latch_access();
    let (divisor_low, divisor_high) = divisor_latch_bytes(interval);
    let latch_off = latch_on.disable_divisor_latch_access();
    let line = latch_off.with_config(config);
    SerialSetup { latch_on, divisor_low, divisor_high, latch_off, line }
}

/// Serial error.
#[non_exhaustive]
#[derive(Clone, Copy, Debug, PartialEq, Eq, Structural)]
pub enum Error {
    /// Framing error.
    Framing,
    /// Noise error.
    Noise,
    /// RX buffer overrun.
    Overrun,
    /// Parity check error.
    Parity,
}

/// Managed serial peripheral.
pub struct Serial<T, PADS> {
    uart: T,
    pads: PADS,
}

impl<T, PADS> Serial<T, PADS> {
    /// The UART peripheral held.
    pub closed spec fn spec_uart(&self) -> T {
        self.uart
    }

    /// The pads held.
    pub closed spec fn spec_pads(&self) -> PADS {
        self.pads
    }

    /// Pairs a configured UART peripheral with the pads wired to it.
    pub fn new(uart: T, pads: PADS) -> (r: Self)
        ensures
            r.spec_uart() == uart,
            r.spec_pads() == pads,
    {
        Serial { uart, pads }
    }

    /// Release serial instance and return its peripheral and pads.
    pub fn free(self) -> (r: (T, PADS))
        ensures
            r == (self.spec_uart(), self.spec_pads()),
    {
        (self.uart, self.pads)
    }

    /// The UART peripheral held.
    pub fn uart(&self) -> (r: &T)
        ensures
            *r == self.spec_uart(),
    {
        &self.uart
    }
}

/// What a polling transmitter does next.
#[derive(Clone, Copy, Debug, PartialEq, Eq, Structural)]
pub enum TransmitStep {
    /// The holding register is full: poll the line status again.
    Wait,
    /// Push this byte into the transmit holding register.
    Send(u8),
    /// Every byte has been pushed.
    Done,
}

/// The next step of transmitting `buf` once `sent` bytes of it have been
/// pushed, given the line status just read.
pub fn transmit_step(buf: &[u8], sent: usize, lsr: LSR) -> (r: TransmitStep)
    requires
        sent <= buf@.len(),
    ensures
        sent == buf@.len() ==> r == TransmitStep::Done,
        sent < buf@.len() && field(lsr@, TRANSMIT_HOLDING_EMPTY_SHIFT, 1) == 1 ==> r
            == TransmitStep::Send(buf@[sent as int]),
        sent < buf@.len() && field(lsr@, TRANSMIT_HOLDING_EMPTY_SHIFT, 1) == 0 ==> r
            == TransmitStep::Wait,
{
    if sent == buf.len() {
        TransmitStep::Done
    } else if lsr.is_transmit_holding_empty() {
        TransmitStep::Send(buf[sent])
    } else {
        TransmitStep::Wait
    }
}

} // verus!
