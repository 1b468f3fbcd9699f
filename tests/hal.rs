use sophgo_hal::gpio::{line_high, line_low, Direction, GpioPad};
use sophgo_hal::pad::{
    fmux_offset, function_switch, gpio_fmux, has_pad_config, pad_config_offset, supports_function,
    uart_fmux, Floating, Function, FunctionKind, FunctionSwitch, GpioFunc, PadConfig, Pull,
    PullDown, PullUp, UartFunc,
};
use sophgo_hal::uart::{
    divisor_latch_bytes, serial_setup, transmit_step, Config, Parity, Serial, StopBits, TransmitStep,
    WordLength, BAUD_INTERVAL, LCR, LSR, MCR,
};

#[test]
fn direction_bits() {
    let d = Direction::from_bits(0);
    assert!(d.is_input(3));
    let d = d.set_output(3);
    assert_eq!(d.bits(), 0b1000);
    assert!(d.is_output(3));
    assert!(!d.is_input(3));
    assert!(d.is_input(4));
    let d = Direction::from_bits(0xFFFF_FFFF).set_input(31);
    assert_eq!(d.bits(), 0x7FFF_FFFF);
    assert!(d.is_output(0));
}

#[test]
fn data_line_high_twice_sets_bit_once() {
    let once = line_high(0x0000_0010, 2);
    assert_eq!(once, 0x0000_0014);
    assert_eq!(line_high(once, 2), once);
    assert_eq!(line_low(once, 2), 0x0000_0010);
    assert_eq!(line_low(line_low(once, 2), 2), 0x0000_0010);
    assert_eq!(line_high(0, 31), 0x8000_0000);
}

#[test]
fn gpio_pad_into_inner() {
    let p = GpioPad::new(7u8, "pad");
    assert_eq!(p.gpio(), &7u8);
    assert_eq!(p.into_inner(), (7u8, "pad"));
}

#[test]
fn pad_config_pull_round_trip() {
    let c = PadConfig::from_bits(0xFFFF_F0F3);
    assert_eq!(c.pull(), Pull::Disabled);
    let up = c.set_pull(Pull::Up);
    assert_eq!(up.bits(), 0xFFFF_F0F7);
    assert_eq!(up.pull(), Pull::Up);
    let down = up.set_pull(Pull::Down);
    assert_eq!(down.bits(), 0xFFFF_F0FB);
    assert_eq!(down.pull(), Pull::Down);
    assert_eq!(PadConfig::from_bits(0).set_pull(Pull::Up).pull(), Pull::Up);
}

#[test]
fn pad_config_fields() {
    let c = PadConfig::from_bits(0);
    assert_eq!(c.set_drive(3).bits(), 0b11 << 5);
    assert_eq!(c.set_schmitt(2).bits(), 0b10 << 8);
    assert_eq!(c.enable_bus_holder().bits(), 1 << 10);
    assert_eq!(c.enable_slew_rate_limit().bits(), 1 << 11);
    let all = PadConfig::from_bits(0xFFFF_FFFF);
    assert_eq!(all.disable_bus_holder().bits(), 0xFFFF_FBFF);
    assert_eq!(all.disable_slew_rate_limit().bits(), 0xFFFF_F7FF);
    assert_eq!(all.set_drive(0).bits(), 0xFFFF_FF9F);
    assert_eq!(all.set_schmitt(1).bits(), 0xFFFF_FDFF);
}

#[test]
fn function_selector_tables() {
    assert_eq!(gpio_fmux(1), 3);
    assert_eq!(gpio_fmux(45), 3);
    assert_eq!(gpio_fmux(47), 0);
    assert_eq!(gpio_fmux(48), 0);
    assert_eq!(gpio_fmux(51), 3);
    assert_eq!(gpio_fmux(86), 3);
    assert_eq!(uart_fmux(18, 0), 0);
    assert_eq!(uart_fmux(19, 0), 0);
    assert_eq!(uart_fmux(28, 1), 1);
    assert_eq!(uart_fmux(29, 2), 2);
    assert_eq!(<UartFunc<1> as Function>::fmux(29), 1);
    assert_eq!(<GpioFunc<Floating> as Function>::fmux(49), 0);
    assert_eq!(<GpioFunc<PullDown> as Function>::pull(), Pull::Down);
    assert_eq!(<UartFunc<0> as Function>::pull(), Pull::Up);
    assert_eq!(<UartFunc<2> as Function>::kind(), FunctionKind::Uart(2));
}

#[test]
fn register_offsets_of_pads() {
    assert_eq!(fmux_offset(18), 0x40);
    assert_eq!(fmux_offset(19), 0x44);
    assert_eq!(fmux_offset(28), 0x70);
    assert_eq!(fmux_offset(29), 0x74);
    assert_eq!(fmux_offset(49), 0xAC);
    assert_eq!(pad_config_offset(18), 0x190C - 0x1800);
    assert_eq!(pad_config_offset(19), 0x1910 - 0x1800);
    assert_eq!(pad_config_offset(28), 0x193C - 0x1800);
    assert_eq!(pad_config_offset(29), 0x1940 - 0x1800);
    assert_eq!(pad_config_offset(49), 0x34);
}

#[test]
fn unsupported_pads_fail_closed() {
    for n in [0usize, 6, 17, 20, 27, 30, 46, 48, 50, 87, 1000] {
        assert!(!has_pad_config(n));
        assert!(!supports_function(n, FunctionKind::Gpio(Pull::Up)));
        assert!(!supports_function(n, FunctionKind::Uart(0)));
    }
    for n in [18usize, 19, 28, 29, 49] {
        assert!(has_pad_config(n));
        assert!(supports_function(n, FunctionKind::Gpio(Pull::Disabled)));
    }
    assert!(supports_function(18, FunctionKind::Uart(0)));
    assert!(!supports_function(18, FunctionKind::Uart(1)));
    assert!(!supports_function(28, FunctionKind::Uart(0)));
    assert!(supports_function(29, FunctionKind::Uart(2)));
    assert!(!supports_function(28, FunctionKind::Uart(3)));
    assert!(!supports_function(49, FunctionKind::Uart(0)));
}

#[test]
fn switch_pad_to_gpio_pull_up() {
    let sw = function_switch(49, <GpioFunc<PullUp> as Function>::kind());
    assert_eq!(
        sw,
        FunctionSwitch {
            fmux_offset: 0xAC,
            selector: 0,
            config_offset: 0x34,
            pull: Pull::Up
        }
    );
    let before = PadConfig::from_bits(0b1000);
    assert_eq!(before.pull(), Pull::Down);
    assert_eq!(before.set_pull(sw.pull).pull(), Pull::Up);
    let uart = function_switch(28, FunctionKind::Uart(1));
    assert_eq!(uart.selector, 1);
    assert_eq!(uart.config_offset, 0x13C);
    assert_eq!(uart.pull, Pull::Up);
}

#[test]
fn line_control_fields() {
    let l = LCR::from_bits(0);
    assert_eq!(l.set_word_length(WordLength::Eight).bits(), 0b11);
    assert_eq!(l.set_stop_bit(StopBits::OnePointFiveOrTwo).bits(), 0b100);
    assert_eq!(l.set_parity(Parity::Even).bits(), 0b11000);
    assert_eq!(l.set_parity(Parity::Odd).bits(), 0b01000);
    let l = LCR::from_bits(0b11110);
    assert_eq!(l.word_length(), WordLength::Seven);
    assert_eq!(l.stop_bit(), StopBits::OnePointFiveOrTwo);
    assert_eq!(l.parity(), Parity::Even);
    assert_eq!(LCR::from_bits(0).parity(), Parity::Disabled);
    assert_eq!(LCR::from_bits(0).word_length(), WordLength::Five);
    assert_eq!(LCR::from_bits(1).word_length(), WordLength::Six);
    assert_eq!(LCR::from_bits(0).stop_bit(), StopBits::One);
    let dl = LCR::from_bits(0x3).enable_divisor_latch_access();
    assert_eq!(dl.bits(), 0x83);
    assert!(dl.is_divisor_latch_access_enabled());
    let off = dl.disable_divisor_latch_access();
    assert_eq!(off.bits(), 0x3);
    assert!(!off.is_divisor_latch_access_enabled());
}

#[test]
fn line_control_from_config() {
    let c = Config::default();
    assert_eq!(c.parity, Parity::Disabled);
    assert_eq!(c.stop_bits, StopBits::One);
    assert_eq!(c.word_length, WordLength::Eight);
    assert_eq!(LCR::from_bits(0x80).with_config(c).bits(), 0x83);
    let c = Config {
        parity: Parity::Odd,
        stop_bits: StopBits::OnePointFiveOrTwo,
        word_length: WordLength::Five,
    };
    assert_eq!(LCR::from_bits(0xFF).with_config(c).bits(), 0xEC);
}

#[test]
fn modem_control_fields() {
    let m = MCR::from_bits(0);
    assert!(!m.is_request_to_send_enabled());
    let m = m.enable_request_to_send();
    assert_eq!(m.bits(), 0b10);
    assert!(m.is_request_to_send_enabled());
    let m = m.enable_auto_flow_control();
    assert_eq!(m.bits(), 0b100010);
    assert!(m.is_auto_flow_control_enabled());
    let m = m.disable_request_to_send().disable_auto_flow_control();
    assert_eq!(m.bits(), 0);
    assert!(!m.is_auto_flow_control_enabled());
}

#[test]
fn line_status_and_transmit_steps() {
    assert!(LSR::from_bits(0x20).is_transmit_holding_empty());
    assert!(!LSR::from_bits(0x20).is_transmit_empty());
    assert!(LSR::from_bits(0x40).is_transmit_empty());
    let buf = [0x41u8, 0x42];
    assert_eq!(transmit_step(&buf, 0, LSR::from_bits(0)), TransmitStep::Wait);
    assert_eq!(transmit_step(&buf, 0, LSR::from_bits(0x20)), TransmitStep::Send(0x41));
    assert_eq!(transmit_step(&buf, 1, LSR::from_bits(0x60)), TransmitStep::Send(0x42));
    assert_eq!(transmit_step(&buf, 2, LSR::from_bits(0)), TransmitStep::Done);
}

#[test]
fn divisor_and_serial_ownership() {
    assert_eq!(divisor_latch_bytes(BAUD_INTERVAL), (14, 0));
    assert_eq!(divisor_latch_bytes(0x1234), (0x34, 0x12));
    let s = Serial::new(3u32, (18usize, 19usize));
    assert_eq!(s.uart(), &3u32);
    assert_eq!(s.free(), (3u32, (18usize, 19usize)));
}

#[test]
fn serial_setup_write_order() {
    let config = Config {
        parity: Parity::Even,
        stop_bits: StopBits::One,
        word_length: WordLength::Eight,
    };
    let setup = serial_setup(LCR::from_bits(0x40), BAUD_INTERVAL, config);
    assert_eq!(setup.latch_on.bits(), 0xC0);
    assert_eq!((setup.divisor_low, setup.divisor_high), (14, 0));
    assert_eq!(setup.latch_off.bits(), 0x40);
    assert_eq!(setup.line.bits(), 0x5B);
    let setup = serial_setup(LCR::from_bits(0), 0x0102, Config::default());
    assert_eq!((setup.divisor_low, setup.divisor_high), (2, 1));
    assert_eq!(setup.line.bits(), 0x03);
}
