//! Silicon pad multiplexer: function selection and pad configuration.
use vstd::prelude::*;
use core::marker::PhantomData;
use crate::bits::{field, field_fits, get_field, outside, set_field, with_field};

verus! {

/// Pad internal pull direction values.
#[derive(Clone, Copy, Debug, PartialEq, Eq, Structural)]
pub enum Pull {
    /// No internal pulls.
    Disabled,
    /// Internally pulled up.
    Up,
    /// Internally pulled down.
    Down,
}

impl Pull {
    /// Register code of this pull direction.
    pub open spec fn spec_code(self) -> u32 {
        match self {
            Pull::Disabled => 0,
            Pull::Up => 1,
            Pull::Down => 2,
        }
    }

    /// Register code of this pull direction.
    pub fn code(self) -> (r: u32)
        ensures
            r == self.spec_code(),
    {
        match self {
            Pull::Disabled => 0,
            Pull::Up => 1,
            Pull::Down => 2,
        }
    }
}

pub const PULL_SHIFT: u32 = 2;
pub const DRIVE_SHIFT: u32 = 5;
pub const SCHMITT_SHIFT: u32 = 8;
pub const BUS_HOLDER_SHIFT: u32 = 10;
pub const SLEW_RATE_LIMIT_SHIFT: u32 = 11;

/// The pull direction that the pull field of `w` encodes.
pub open spec fn spec_pull_of(w: u32) -> Pull {
    let code = field(w, PULL_SHIFT, 3);
    if code == 0 {
        Pull::Disabled
    } else if code == 1 {
        Pull::Up
    } else {
        Pull::Down
    }
}

/// Pad configuration register for all the pads.
///
/// Pull occupies bits 3:2, drive strength bits 6:5, schmitt trigger bits
/// 9:8, bus holder bit 10 and slew rate limit bit 11; every update keeps
/// all other bits.
#[derive(Clone, Copy, Debug, PartialEq, Eq, Hash)]
pub struct PadConfig(u32);

impl View for PadConfig {
    type V = u32;

    closed spec fn view(&self) -> u32 {
        self.0
    }
}

impl PadConfig {
    /// Wraps a raw register value.
    pub fn from_bits(bits: u32) -> (r: Self)
        ensures
            r@ == bits,
    {
        PadConfig(bits)
    }

    /// The raw register value.
    pub fn bits(self) -> (r: u32)
        ensures
            r == self@,
    {
        self.0
    }

    /// Whether the pull field holds one of the three pull codes.
    pub open spec fn has_valid_pull(self) -> bool {
        field(self@, PULL_SHIFT, 3) != 3
    }

    /// Get pull direction of current pad.
    pub fn pull(self) -> (r: Pull)
        requires
            self.has_valid_pull(),
        ensures
            r == spec_pull_of(self@),
            r.spec_code() == field(self@, PULL_SHIFT, 3),
    {
        let code = get_field(self.0, PULL_SHIFT, 3);
        if code == 0 {
            Pull::Disabled
        } else if code == 1 {
            Pull::Up
        } else {
            Pull::Down
        }
    }

    /// Set pull direction of current pad.
    pub fn set_pull(self, val: Pull) -> (r: Self)
        ensures
            r@ == with_field(self@, PULL_SHIFT, 3, val.spec_code()),
            field(r@, PULL_SHIFT, 3) == val.spec_code(),
            outside(r@, PULL_SHIFT, 3) == outside(self@, PULL_SHIFT, 3),
    {
        PadConfig(set_field(self.0, PULL_SHIFT, 3, val.code()))
    }

    /// Set drive strength of current pad.
    pub fn set_drive(self, drive: u8) -> (r: Self)
        requires
            drive <= 3,
        ensures
            r@ == with_field(self@, DRIVE_SHIFT, 3, drive as u32),
            field(r@, DRIVE_SHIFT, 3) == drive,
            outside(r@, DRIVE_SHIFT, 3) == outside(self@, DRIVE_SHIFT, 3),
    {
        PadConfig(set_field(self.0, DRIVE_SHIFT, 3, drive as u32))
    }

    /// Set schmitt trigger of current pad.
    pub fn set_schmitt(self, schmitt: u8) -> (r: Self)
        requires
            schmitt <= 3,
        ensures
            r@ == with_field(self@, SCHMITT_SHIFT, 3, schmitt as u32),
            field(r@, SCHMITT_SHIFT, 3) == schmitt,
            outside(r@, SCHMITT_SHIFT, 3) == outside(self@, SCHMITT_SHIFT, 3),
    {
        PadConfig(set_field(self.0, SCHMITT_SHIFT, 3, schmitt as u32))
    }

    /// Enable bus holder of current pad.
    pub fn enable_bus_holder(self) -> (r: Self)
        ensures
            r@ == with_field(self@, BUS_HOLDER_SHIFT, 1, 1),
            field(r@, BUS_HOLDER_SHIFT, 1) == 1,
            outside(r@, BUS_HOLDER_SHIFT, 1) == outside(self@, BUS_HOLDER_SHIFT, 1),
    {
        PadConfig(set_field(self.0, BUS_HOLDER_SHIFT, 1, 1))
    }

    /// Disable bus holder of current pad.
    pub fn disable_bus_holder(self) -> (r: Self)
        ensures
            r@ == with_field(self@, BUS_HOLDER_SHIFT, 1, 0),
            field(r@, BUS_HOLDER_SHIFT, 1) == 0,
            outside(r@, BUS_HOLDER_SHIFT, 1) == outside(self@, BUS_HOLDER_SHIFT, 1),
    {
        PadConfig(set_field(self.0, BUS_HOLDER_SHIFT, 1, 0))
    }

    /// Enable slew rate limit of current pad.
    pub fn enable_slew_rate_limit(self) -> (r: Self)
        ensures
            r@ == with_field(self@, SLEW_RATE_LIMIT_SHIFT, 1, 1),
            field(r@, SLEW_RATE_LIMIT_SHIFT, 1) == 1,
            outside(r@, SLEW_RATE_LIMIT_SHIFT, 1) == outside(self@, SLEW_RATE_LIMIT_SHIFT, 1),
    {
        PadConfig(set_field(self.0, SLEW_RATE_LIMIT_SHIFT, 1, 1))
    }

    /// Disable slew rate limit of current pad.
    pub fn disable_slew_rate_limit(self) -> (r: Self)
        ensures
            r@ == with_field(self@, SLEW_RATE_LIMIT_SHIFT, 1, 0),
            field(r@, SLEW_RATE_LIMIT_SHIFT, 1) == 0,
            outside(r@, SLEW_RATE_LIMIT_SHIFT, 1) == outside(self@, SLEW_RATE_LIMIT_SHIFT, 1),
    {
        PadConfig(set_field(self.0, SLEW_RATE_LIMIT_SHIFT, 1, 0))
    }
}

/// A pad function as a value: GPIO with a pull direction, or UART of an
/// instance.
#[derive(Clone, Copy, Debug, PartialEq, Eq, Structural)]
pub enum FunctionKind {
    Gpio(Pull),
    Uart(usize),
}

impl FunctionKind {
    /// Pull direction that selecting this function programs.
    pub open spec fn spec_pull(self) -> Pull {
        match self {
            FunctionKind::Gpio(p) => p,
            FunctionKind::Uart(_) => Pull::Up,
        }
    }
}

/// GPIO function selector of pad `n`, where the pad has one.
pub open spec fn spec_gpio_fmux(n: int) -> Option<u32> {
    if (1 <= n <= 45) || (51 <= n <= 86) {
        Some(3)
    } else if 47 <= n <= 49 {
        Some(0)
    } else {
        None
    }
}

/// Selector of UART instance `i` on pad `n`, where the pad carries it.
pub open spec fn spec_uart_fmux(n: int, i: int) -> Option<u32> {
    if i == 0 && 18 <= n <= 19 {
        Some(0)
    } else if i == 1 && 28 <= n <= 29 {
        Some(1)
    } else if i == 2 && 28 <= n <= 29 {
        Some(2)
    } else {
        None
    }
}

/// Selector of function `f` on pad `n`, where the pad has it.
pub open spec fn spec_fmux(n: int, f: FunctionKind) -> Option<u32> {
    match f {
        FunctionKind::Gpio(_) => spec_gpio_fmux(n),
        FunctionKind::Uart(i) => spec_uart_fmux(n, i as int),
    }
}

/// GPIO function selector of pad `n`; a pad without GPIO is a programming
/// error and is left out.
pub fn gpio_fmux(n: usize) -> (r: u32)
    requires
        spec_gpio_fmux(n as int) is Some,
    ensures
        spec_gpio_fmux(n as int) == Some(r),
{
    if (1 <= n && n <= 45) || (51 <= n && n <= 86) {
        3
    } else {
        0
    }
}

/// Selector of UART instance `i` on pad `n`; a pad that does not carry
/// that instance is a programming error and is left out.
pub fn uart_fmux(n: usize, i: usize) -> (r: u32)
    requires
        spec_uart_fmux(n as int, i as int) is Some,
    ensures
        spec_uart_fmux(n as int, i as int) == Some(r),
{
    if i == 0 {
        0
    } else if i == 1 {
        1
    } else {
        2
    }
}

/// Offset in the multiplexer block of the selector register of pad `n`.
pub open spec fn spec_fmux_offset(n: int) -> Option<usize> {
    if n == 18 {
        Some(0x40)
    } else if n == 19 {
        Some(0x44)
    } else if n == 28 {
        Some(0x70)
    } else if n == 29 {
        Some(0x74)
    } else if n == 49 {
        Some(0xAC)
    } else {
        None
    }
}

/// Offset of the selector register of pad `n`; a pad outside the table is
/// a programming error and is left out.
pub fn fmux_offset(n: usize) -> (r: usize)
    requires
        spec_fmux_offset(n as int) is Some,
    ensures
        spec_fmux_offset(n as int) == Some(r),
{
    if n == 18 {
        0x40
    } else if n == 19 {
        0x44
    } else if n == 28 {
        0x70
    } else if n == 29 {
        0x74
    } else {
        0xAC
    }
}

/// Offset of the configuration register of pad `n` from the base of its
/// domain's configuration block: the power domain for pad 49, the
/// conventional domain (at 0x1800 in the multiplexer) for the others.
pub open spec fn spec_pad_config_offset(n: int) -> Option<usize> {
    if n == 49 {
        Some(0x34)
    } else if n == 18 {
        Some(0x10C)
    } else if n == 19 {
        Some(0x110)
    } else if n == 28 {
        Some(0x13C)
    } else if n == 29 {
        Some(0x140)
    } else {
        None
    }
}

/// Offset of the configuration register of pad `n`; a pad outside the
/// table is a programming error and is left out.
pub fn pad_config_offset(n: usize) -> (r: usize)
    requires
        spec_pad_config_offset(n as int) is Some,
    ensures
        spec_pad_config_offset(n as int) == Some(r),
{
    if n == 49 {
        0x34
    } else if n == 18 {
        0x10C
    } else if n == 19 {
        0x110
    } else if n == 28 {
        0x13C
    } else {
        0x140
    }
}

/// Whether pad `n` has a configuration register in the table.
pub fn has_pad_config(n: usize) -> (r: bool)
    ensures
        r == (spec_pad_config_offset(n as int) is Some),
{
    n == 18 || n == 19 || n == 28 || n == 29 || n == 49
}

/// Trait for all valid pad functions.
pub trait Function {
    /// The function as a value.
    spec fn spec_kind() -> FunctionKind;

    /// The function as a value.
    fn kind() -> (r: FunctionKind)
        ensures
            r == Self::spec_kind(),
    ;

    /// Pull direction associated with this pad function.
    fn pull() -> (r: Pull)
        ensures
            r == Self::spec_kind().spec_pull(),
    ;

    /// Function selector for pad `n`, which must have this function.
    fn fmux(n: usize) -> (r: u32)
        requires
            spec_fmux(n as int, Self::spec_kind()) is Some,
        ensures
            spec_fmux(n as int, Self::spec_kind()) == Some(r),
    ;
}

/// GPIO function with a pull mode (type state).
pub struct GpioFunc<T> {
    _pull: PhantomData<T>,
}

/// Pulled down as pull mode (type state).
pub struct PullDown;

/// Pulled up as pull mode (type state).
pub struct PullUp;

/// Floating as pull mode (type state).
pub struct Floating;

/// UART function (type state).
pub struct UartFunc<const I: usize>;

impl Function for GpioFunc<Floating> {
    open spec fn spec_kind() -> FunctionKind {
        FunctionKind::Gpio(Pull::Disabled)
    }

    fn kind() -> (r: FunctionKind) {
        FunctionKind::Gpio(Pull::Disabled)
    }

    fn pull() -> (r: Pull) {
        Pull::Disabled
    }

    fn fmux(n: usize) -> (r: u32) {
        gpio_fmux(n)
    }
}

impl Function for GpioFunc<PullUp> {
    open spec fn spec_kind() -> FunctionKind {
        FunctionKind::Gpio(Pull::Up)
    }

    fn kind() -> (r: FunctionKind) {
        FunctionKind::Gpio(Pull::Up)
    }

    fn pull() -> (r: Pull) {
        Pull::Up
    }

    fn fmux(n: usize) -> (r: u32) {
        gpio_fmux(n)
    }
}

impl Function for GpioFunc<PullDown> {
    open spec fn spec_kind() -> FunctionKind {
        FunctionKind::Gpio(Pull::Down)
    }

    fn kind() -> (r: FunctionKind) {
        FunctionKind::Gpio(Pull::Down)
    }

    fn pull() -> (r: Pull) {
        Pull::Down
    }

    fn fmux(n: usize) -> (r: u32) {
        gpio_fmux(n)
    }
}

impl<const I: usize> Function for UartFunc<I> {
    open spec fn spec_kind() -> FunctionKind {
        FunctionKind::Uart(I)
    }

    fn kind() -> (r: FunctionKind) {
        FunctionKind::Uart(I)
    }

    fn pull() -> (r: Pull) {
        Pull::Up
    }

    fn fmux(n: usize) -> (r: u32) {
        uart_fmux(n, I)
    }
}

/// The register writes that switch a pad to another function: the
/// selector register and its value, then the configuration register and
/// the pull direction to write into it.
#[derive(Clone, Copy, Debug, PartialEq, Eq, Structural)]
pub struct FunctionSwitch {
    pub fmux_offset: usize,
    pub selector: u32,
    pub config_offset: usize,
    pub pull: Pull,
}

/// Switch of pad `n` to function `f`, where the pad has both registers
/// and the function.
pub open spec fn spec_function_switch(n: int, f: FunctionKind) -> Option<FunctionSwitch> {
    match (spec_fmux_offset(n), spec_fmux(n, f), spec_pad_config_offset(n)) {
        (Some(fmux_offset), Some(selector), Some(config_offset)) => Some(
            FunctionSwitch { fmux_offset, selector, config_offset, pull: f.spec_pull() },
        ),
        _ => None,
    }
}

/// Whether pad `n` can be switched to function `f`: it has both registers
/// and the function.
pub fn supports_function(n: usize, f: FunctionKind) -> (r: bool)
    ensures
        r == (spec_function_switch(n as int, f) is Some),
{
    let in_table = n == 18 || n == 19 || n == 28 || n == 29 || n == 49;
    let has_function = match f {
        FunctionKind::Gpio(_) => (1 <= n && n <= 45) || (51 <= n && n <= 86) || (47 <= n && n
            <= 49),
        FunctionKind::Uart(i) => (i == 0 && 18 <= n && n <= 19) || ((i == 1 || i == 2) && 28 <= n
            && n <= 29),
    };
    in_table && has_function
}

/// Computes the register writes that switch pad `n` to function `f`; a pad
/// outside the tables, or without that function, is a programming error
/// and is left out.
pub fn function_switch(n: usize, f: FunctionKind) -> (r: FunctionSwitch)
    requires
        spec_function_switch(n as int, f) is Some,
    ensures
        spec_function_switch(n as int, f) == Some(r),
{
    let (selector, pull) = match f {
        FunctionKind::Gpio(p) => (gpio_fmux(n), p),
        FunctionKind::Uart(i) => (uart_fmux(n, i), Pull::Up),
    };
    FunctionSwitch {
        fmux_offset: fmux_offset(n),
        selector,
        config_offset: pad_config_offset(n),
        pull,
    }
}

/// The pads that the selector and configuration tables cover.
pub open spec fn spec_supported_pad(n: int) -> bool {
    n == 18 || n == 19 || n == 28 || n == 29 || n == 49
}

/// A pad outside the tables has no selector register, no configuration
/// register and no function switch, whatever the function, so the lookups
/// and `function_switch` cannot be called on it; a pad inside them gets its
/// own registers and no other pad's.
pub proof fn lemma_unsupported_pad_fails_closed(n: int, f: FunctionKind)
    ensures
        !spec_supported_pad(n) ==> spec_fmux_offset(n) is None && spec_pad_config_offset(n) is None
            && spec_function_switch(n, f) is None,
        forall|m: int|
            #![trigger spec_pad_config_offset(m)]
            spec_supported_pad(n) && spec_supported_pad(m) && m != n ==> spec_pad_config_offset(m)
                != spec_pad_config_offset(n) && spec_fmux_offset(m) != spec_fmux_offset(n),
{
}

/// Switching a pad to pull-up GPIO, then reading back the pull field of
/// its configuration register, gives `Pull::Up`, whatever the register
/// held before.
pub proof fn lemma_gpio_pull_up_round_trip(n: int, c: PadConfig)
    requires
        spec_function_switch(n, <GpioFunc<PullUp> as Function>::spec_kind()) is Some,
    ensures
        match spec_function_switch(n, <GpioFunc<PullUp> as Function>::spec_kind()) {
            Some(sw) => {
                let w = with_field(c@, PULL_SHIFT, 3, sw.pull.spec_code());
                field(w, PULL_SHIFT, 3) != 3 && spec_pull_of(w) == Pull::Up
            },
            None => false,
        },
{
    crate::bits::lemma_with_field(c@, PULL_SHIFT, 3, Pull::Up.spec_code());
}

} // verus!
