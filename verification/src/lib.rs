//! Bare-metal runtime building blocks for a 32-bit Cortex-M class
//! microcontroller: a fixed-capacity ring buffer, register-level drivers
//! expressed as register accesses, the boot layout, and the serial
//! flow-control protocol.

pub mod rbuf;
pub mod regs;
pub mod util;
pub mod gpio;
pub mod systick;
pub mod usart;
pub mod rt;
pub mod serial;
