//! Pin and serial-line control for the BCM2837, as a decision core.
//!
//! Nothing in this crate touches a register. Every operation either computes
//! the register traffic that carries it out ([`gpio::RegisterWrite`],
//! [`serial::Command`]) or decodes what a register reading means, and its
//! contract says exactly which. The firmware around the crate performs the
//! traffic on the memory-mapped peripherals and runs the polling loops.
//!
//! Ownership does the rest: a pin handle is consumed by every change of mode,
//! the pin bank is split out of the one `GPIO` token the board hands out, and
//! the serial driver holds on to the `UART0` token and to its two pins until
//! it is freed.

pub use bcm2837_lpa as pac;

pub mod gpio;
pub mod serial;
