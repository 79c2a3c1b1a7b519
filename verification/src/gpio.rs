//! General purpose input / output.
//!
//! The 54 pins of the bank come out of [`GpioExt::split`], one handle each,
//! all in [`Input`] mode. A handle's number and mode are part of its type:
//! `Pin<20, Output>` can be driven, `Pin<20, Input>` cannot, and changing the
//! mode consumes the handle and gives back another.
//!
//! A handle performs no register access itself. Driving a pin returns the
//! [`RegisterWrite`] that does it; reading a pin takes the word read from the
//! pin's level register ([`Pin::level_register`] names it).
//!
//! ## Modes
//!
//! - **Input**: the level of the pin can be read.
//! - **Output**: the pin can be driven high or low, and what it drives read back.
//! - **Alternate function N**: the pin belongs to another peripheral. The
//!   marker types [`AF0`] to [`AF5`] stand for the six functions.
use vstd::prelude::*;
use core::marker::PhantomData;

mod convert;
mod laws;
mod parts;

pub use convert::{function_select_register, function_select_shift, mode_write, PinMode};
pub use convert::{lemma_mode_codes, lemma_mode_fields_apart, lemma_mode_write_places_code};
pub use embedded_hal::digital::v2::{OutputPin, PinState};
pub use laws::{after_write, level_word, Levels};
pub use laws::{lemma_drive_leaves_others, lemma_drive_then_read, lemma_level_bits};
pub use laws::{lemma_output_in_state, lemma_toggle_twice};
pub use parts::{Pins, P0, P1, P2, P3, P4, P5, P6, P7, P8, P9};
pub use parts::{P10, P11, P12, P13, P14, P15, P16, P17, P18, P19};
pub use parts::{P20, P21, P22, P23, P24, P25, P26, P27, P28, P29};
pub use parts::{P30, P31, P32, P33, P34, P35, P36, P37, P38, P39};
pub use parts::{P40, P41, P42, P43, P44, P45, P46, P47, P48, P49};
pub use parts::{P50, P51, P52, P53};

verus! {

/// `embedded_hal::digital::v2::PinState`: the two levels, `Low` and `High`.
#[verifier::external_type_specification]
pub struct ExPinState(embedded_hal::digital::v2::PinState);

/// `bcm2837_lpa::GPIO`: the token that stands for the pin bank. Its inside is
/// never looked at: it is only consumed.
#[verifier::external_type_specification]
#[verifier::external_body]
pub struct ExGpio(bcm2837_lpa::GPIO);

/// The highest pin number of the bank.
pub const LAST_PIN: u8 = 53;

/// The registers of the pin bank that this crate computes traffic for.
#[derive(Clone, Copy, Debug, PartialEq, Eq, Structural)]
pub enum Register {
    /// Function select, pins 0 to 9.
    Gpfsel0,
    /// Function select, pins 10 to 19.
    Gpfsel1,
    /// Function select, pins 20 to 29.
    Gpfsel2,
    /// Function select, pins 30 to 39.
    Gpfsel3,
    /// Function select, pins 40 to 49.
    Gpfsel4,
    /// Function select, pins 50 to 53.
    Gpfsel5,
    /// Output set, pins 0 to 31.
    Gpset0,
    /// Output set, pins 32 to 53.
    Gpset1,
    /// Output clear, pins 0 to 31.
    Gpclr0,
    /// Output clear, pins 32 to 53.
    Gpclr1,
    /// Pin level, pins 0 to 31.
    Gplev0,
    /// Pin level, pins 32 to 53.
    Gplev1,
}

/// One write of a whole register: `value` goes to `register`, as it is, with
/// zero in every bit that `value` leaves clear. Never a read-modify-write.
#[derive(Clone, Copy, Debug, PartialEq, Eq, Structural)]
pub struct RegisterWrite {
    pub register: Register,
    pub value: u32,
}

/// The bit that stands for pin `index` in the set, clear and level register
/// of its half of the bank: pins 0 to 31 count from bit 0 of the first
/// register, pins 32 to 53 from bit 0 of the second.
pub open spec fn level_bit(index: u8) -> u32 {
    1u32 << level_position(index)
}

/// The position of the bit of pin `index` in the registers of its half of
/// the bank: the pin's number, less 32 in the second half.
pub open spec fn level_position(index: u8) -> u32 {
    if index < 32 {
        index as u32
    } else {
        (index - 32) as u32
    }
}

/// The output set register of pin `index`.
pub open spec fn set_register(index: u8) -> Register {
    if index < 32 {
        Register::Gpset0
    } else {
        Register::Gpset1
    }
}

/// The output clear register of pin `index`.
pub open spec fn clear_register(index: u8) -> Register {
    if index < 32 {
        Register::Gpclr0
    } else {
        Register::Gpclr1
    }
}

/// The level register of pin `index`.
pub open spec fn level_register(index: u8) -> Register {
    if index < 32 {
        Register::Gplev0
    } else {
        Register::Gplev1
    }
}

/// The write that drives pin `index` high: its bit alone, to its set register.
pub open spec fn set_write(index: u8) -> RegisterWrite {
    RegisterWrite { register: set_register(index), value: level_bit(index) }
}

/// The write that drives pin `index` low: its bit alone, to its clear register.
pub open spec fn clear_write(index: u8) -> RegisterWrite {
    RegisterWrite { register: clear_register(index), value: level_bit(index) }
}

/// The write that drives pin `index` to `state`.
pub open spec fn state_write(index: u8, state: PinState) -> RegisterWrite {
    match state {
        PinState::Low => clear_write(index),
        PinState::High => set_write(index),
    }
}

/// Whether pin `index` is low in `level`, a word read from its level register.
pub open spec fn reads_low(index: u8, level: u32) -> bool {
    level & level_bit(index) == 0
}

/// The state of pin `index` in `level`, a word read from its level register.
pub open spec fn state_read(index: u8, level: u32) -> PinState {
    if reads_low(index, level) {
        PinState::Low
    } else {
        PinState::High
    }
}

/// The write that inverts pin `index`, given `level`, a word read from its
/// level register.
pub open spec fn toggle_write(index: u8, level: u32) -> RegisterWrite {
    if reads_low(index, level) {
        set_write(index)
    } else {
        clear_write(index)
    }
}

/// Splits the pin bank into its pins.
pub trait GpioExt {
    /// What the bank is split into.
    type Parts;

    /// Consumes the bank and hands out its parts. There is one bank, so
    /// there is one set of parts.
    fn split(self) -> Self::Parts;
}

/// Number and mode of a pin.
pub trait PinExt {
    /// The mode that the pin is in.
    type Mode;

    /// The pin's number.
    spec fn index(&self) -> u8;

    /// The pin's number.
    fn pin_id(&self) -> (id: u8)
        ensures
            id == self.index(),
    ;
}

/// Input mode (type state).
pub struct Input;

/// Output mode (type state).
pub struct Output;

/// Alternate function 0 (type state).
pub struct AF0;

/// Alternate function 1 (type state).
pub struct AF1;

/// Alternate function 2 (type state).
pub struct AF2;

/// Alternate function 3 (type state).
pub struct AF3;

/// Alternate function 4 (type state).
pub struct AF4;

/// Alternate function 5 (type state).
pub struct AF5;

/// The handle of one pin.
///
/// - `N` is the pin's number, from 0 to 53.
/// - `MODE` is the mode that the pin is in.
///
/// A handle holds no data. It cannot be copied, and none can be made but by
/// splitting the bank or by changing the mode of another, which is consumed:
/// at any time a pin has at most one handle.
pub struct Pin<const N: u8, MODE = Input> {
    _mode: PhantomData<MODE>,
}

impl<const N: u8, MODE> Pin<N, MODE> {
    /// Every handle that exists is one of a pin that exists.
    #[verifier::type_invariant]
    pub closed spec fn in_bank(self) -> bool {
        N <= LAST_PIN
    }

    pub(crate) fn new() -> (pin: Self)
        requires
            N <= LAST_PIN,
    {
        Pin { _mode: PhantomData }
    }

    /// The register to read for this pin's level. The word read from it is
    /// what `is_low`, `is_high`, `is_set_low`, `is_set_high`, `get_state` and
    /// `toggle` take.
    pub fn level_register(&self) -> (register: Register)
        ensures
            register == level_register(N),
    {
        if N < 32 {
            Register::Gplev0
        } else {
            Register::Gplev1
        }
    }

    fn _set_high(&mut self) -> (w: RegisterWrite)
        ensures
            w == set_write(N),
    {
        proof {
            use_type_invariant(&*self);
        }
        if N < 32 {
            RegisterWrite { register: Register::Gpset0, value: 1u32 << (N as u32) }
        } else {
            RegisterWrite { register: Register::Gpset1, value: 1u32 << ((N - 32) as u32) }
        }
    }

    fn _set_low(&mut self) -> (w: RegisterWrite)
        ensures
            w == clear_write(N),
    {
        proof {
            use_type_invariant(&*self);
        }
        if N < 32 {
            RegisterWrite { register: Register::Gpclr0, value: 1u32 << (N as u32) }
        } else {
            RegisterWrite { register: Register::Gpclr1, value: 1u32 << ((N - 32) as u32) }
        }
    }

    fn _set_state(&mut self, state: PinState) -> (w: RegisterWrite)
        ensures
            w == state_write(N, state),
    {
        match state {
            PinState::Low => self._set_low(),
            PinState::High => self._set_high(),
        }
    }

    fn _is_low(&self, level: u32) -> (low: bool)
        ensures
            low == reads_low(N, level),
    {
        proof {
            use_type_invariant(self);
        }
        if N < 32 {
            level & (1u32 << (N as u32)) == 0
        } else {
            level & (1u32 << ((N - 32) as u32)) == 0
        }
    }
}

impl<const N: u8, MODE> PinExt for Pin<N, MODE> {
    type Mode = MODE;

    open spec fn index(&self) -> u8 {
        N
    }

    fn pin_id(&self) -> (id: u8) {
        N
    }
}

impl<const N: u8> Pin<N, Output> {
    /// Drives the pin high: returns the write that does it.
    pub fn set_high(&mut self) -> (w: RegisterWrite)
        ensures
            w == set_write(N),
    {
        self._set_high()
    }

    /// Drives the pin low: returns the write that does it.
    pub fn set_low(&mut self) -> (w: RegisterWrite)
        ensures
            w == clear_write(N),
    {
        self._set_low()
    }

    /// Is the pin driven high or low? `level` is the word read from the
    /// pin's level register.
    pub fn get_state(&self, level: u32) -> (state: PinState)
        ensures
            state == state_read(N, level),
    {
        if self.is_set_low(level) {
            PinState::Low
        } else {
            PinState::High
        }
    }

    /// Drives the pin high or low, as `state` says: returns the write that
    /// does it.
    pub fn set_state(&mut self, state: PinState) -> (w: RegisterWrite)
        ensures
            w == state_write(N, state),
    {
        self._set_state(state)
    }

    /// Is the pin driven high? `level` is the word read from the pin's level
    /// register.
    pub fn is_set_high(&self, level: u32) -> (high: bool)
        ensures
            high == !reads_low(N, level),
    {
        !self.is_set_low(level)
    }

    /// Is the pin driven low? `level` is the word read from the pin's level
    /// register.
    pub fn is_set_low(&self, level: u32) -> (low: bool)
        ensures
            low == reads_low(N, level),
    {
        self._is_low(level)
    }

    /// Inverts the pin: returns the write that drives it high if `level`, the
    /// word read from the pin's level register, shows it low, and the write
    /// that drives it low otherwise.
    ///
    /// The read and the write are two accesses. Nothing else may drive the
    /// pin between them, which the single handle per pin sees to as long as
    /// no interrupt handler writes to the bank.
    pub fn toggle(&mut self, level: u32) -> (w: RegisterWrite)
        ensures
            w == toggle_write(N, level),
    {
        if self.is_set_low(level) {
            self.set_high()
        } else {
            self.set_low()
        }
    }
}

impl<const N: u8> Pin<N, Input> {
    /// Is the input pin high? `level` is the word read from the pin's level
    /// register.
    pub fn is_high(&self, level: u32) -> (high: bool)
        ensures
            high == !reads_low(N, level),
    {
        !self.is_low(level)
    }

    /// Is the input pin low? `level` is the word read from the pin's level
    /// register.
    pub fn is_low(&self, level: u32) -> (low: bool)
        ensures
            low == reads_low(N, level),
    {
        self._is_low(level)
    }
}

} // verus!
