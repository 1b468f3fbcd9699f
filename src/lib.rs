//! Hardware abstraction for Sophgo RISC-V SoCs: pad multiplexing, GPIO and
//! UART register codecs, and the boot-ROM image packager.
use vstd::prelude::*;

pub mod bits;
pub mod gpio;
pub mod pad;
pub mod rom;
pub mod uart;
