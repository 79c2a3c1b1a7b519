//! Changing the mode of a pin.
//!
//! The mode of a pin is a three-bit code in one of the six function select
//! registers. Each register holds the codes of ten pins, pin `n` in register
//! `n / 10` at bit `3 * (n % 10)`.
use vstd::prelude::*;
use embedded_hal::digital::v2::PinState;
use super::{state_write, Pin, Register, RegisterWrite, LAST_PIN};
use super::{Input, Output, AF0, AF1, AF2, AF3, AF4, AF5};

verus! {

/// A mode that a pin can be put in (type state).
pub trait PinMode {
    /// The function select code of the mode.
    spec fn code() -> u32;

    /// The function select code of the mode: three bits.
    fn bits() -> (b: u32)
        ensures
            b == Self::code(),
            b <= 0b111,
    ;
}

impl PinMode for Input {
    open spec fn code() -> u32 {
        0b000
    }

    fn bits() -> (b: u32) {
        0b000
    }
}

impl PinMode for Output {
    open spec fn code() -> u32 {
        0b001
    }

    fn bits() -> (b: u32) {
        0b001
    }
}

impl PinMode for AF0 {
    open spec fn code() -> u32 {
        0b100
    }

    fn bits() -> (b: u32) {
        0b100
    }
}

impl PinMode for AF1 {
    open spec fn code() -> u32 {
        0b101
    }

    fn bits() -> (b: u32) {
        0b101
    }
}

impl PinMode for AF2 {
    open spec fn code() -> u32 {
        0b110
    }

    fn bits() -> (b: u32) {
        0b110
    }
}

impl PinMode for AF3 {
    open spec fn code() -> u32 {
        0b111
    }

    fn bits() -> (b: u32) {
        0b111
    }
}

impl PinMode for AF4 {
    open spec fn code() -> u32 {
        0b011
    }

    fn bits() -> (b: u32) {
        0b011
    }
}

impl PinMode for AF5 {
    open spec fn code() -> u32 {
        0b010
    }

    fn bits() -> (b: u32) {
        0b010
    }
}

/// The function select register of pin `index`: the one numbered `index / 10`.
pub open spec fn function_select_register(index: u8) -> Register {
    let bank = index / 10;
    if bank == 0 {
        Register::Gpfsel0
    } else if bank == 1 {
        Register::Gpfsel1
    } else if bank == 2 {
        Register::Gpfsel2
    } else if bank == 3 {
        Register::Gpfsel3
    } else if bank == 4 {
        Register::Gpfsel4
    } else {
        Register::Gpfsel5
    }
}

/// Where the code of pin `index` starts in its function select register.
pub open spec fn function_select_shift(index: u8) -> u32 {
    ((index % 10) * 3) as u32
}

/// The write that puts pin `index` in the mode with the code `code`: the code
/// at the pin's place in the pin's function select register, and zero in the
/// rest of the word.
pub open spec fn mode_write(index: u8, code: u32) -> RegisterWrite {
    RegisterWrite {
        register: function_select_register(index),
        value: code << function_select_shift(index),
    }
}

impl<const N: u8, MODE: PinMode> Pin<N, MODE> {
    /// Puts the pin in input mode: returns the new handle and the write that
    /// switches the pin.
    pub fn into_input(self) -> (r: (Pin<N, Input>, RegisterWrite))
        ensures
            r.1 == mode_write(N, Input::code()),
    {
        self.into_mode()
    }

    /// Puts the pin in output mode: returns the new handle and the write that
    /// switches the pin.
    pub fn into_output(self) -> (r: (Pin<N, Output>, RegisterWrite))
        ensures
            r.1 == mode_write(N, Output::code()),
    {
        self.into_mode()
    }

    /// Puts the pin in output mode at the level `initial_state`: returns the
    /// new handle and the two writes that do it, in the order in which they
    /// are to be performed. The level is set first and the mode switched
    /// second, so that the pin never drives another level than the one asked
    /// for.
    pub fn into_output_in_state(self, initial_state: PinState) -> (r: (
        Pin<N, Output>,
        [RegisterWrite; 2],
    ))
        ensures
            r.1@ == seq![state_write(N, initial_state), mode_write(N, Output::code())],
    {
        let mut pin = self;
        let level = pin._set_state(initial_state);
        let (pin, mode) = pin.into_mode();
        (pin, [level, mode])
    }

    /// Hands the pin to alternate function 0: returns the new handle and the
    /// write that switches the pin. Which functions a pin has is for the chip's
    /// manual to say.
    pub fn into_alternate_fn0(self) -> (r: (Pin<N, AF0>, RegisterWrite))
        ensures
            r.1 == mode_write(N, AF0::code()),
    {
        self.into_mode()
    }

    /// Hands the pin to alternate function 1: returns the new handle and the
    /// write that switches the pin.
    pub fn into_alternate_fn1(self) -> (r: (Pin<N, AF1>, RegisterWrite))
        ensures
            r.1 == mode_write(N, AF1::code()),
    {
        self.into_mode()
    }

    /// Hands the pin to alternate function 2: returns the new handle and the
    /// write that switches the pin.
    pub fn into_alternate_fn2(self) -> (r: (Pin<N, AF2>, RegisterWrite))
        ensures
            r.1 == mode_write(N, AF2::code()),
    {
        self.into_mode()
    }

    /// Hands the pin to alternate function 3: returns the new handle and the
    /// write that switches the pin.
    pub fn into_alternate_fn3(self) -> (r: (Pin<N, AF3>, RegisterWrite))
        ensures
            r.1 == mode_write(N, AF3::code()),
    {
        self.into_mode()
    }

    /// Hands the pin to alternate function 4: returns the new handle and the
    /// write that switches the pin.
    pub fn into_alternate_fn4(self) -> (r: (Pin<N, AF4>, RegisterWrite))
        ensures
            r.1 == mode_write(N, AF4::code()),
    {
        self.into_mode()
    }

    /// The write that puts this pin in mode `M`.
    ///
    /// The handle keeps its type: callers see to it that the handle they
    /// give out afterwards says `M`.
    fn mode<M: PinMode>(&mut self) -> (w: RegisterWrite)
        ensures
            w == mode_write(N, M::code()),
    {
        proof {
            use_type_invariant(&*self);
        }
        let shift: u32 = ((N % 10) * 3) as u32;
        let value: u32 = M::bits() << shift;
        match N {
            0..=9 => RegisterWrite { register: Register::Gpfsel0, value },
            10..=19 => RegisterWrite { register: Register::Gpfsel1, value },
            20..=29 => RegisterWrite { register: Register::Gpfsel2, value },
            30..=39 => RegisterWrite { register: Register::Gpfsel3, value },
            40..=49 => RegisterWrite { register: Register::Gpfsel4, value },
            _ => RegisterWrite { register: Register::Gpfsel5, value },
        }
    }

    /// Puts the pin in mode `M`: returns the new handle and the write that
    /// switches the pin.
    pub fn into_mode<M: PinMode>(self) -> (r: (Pin<N, M>, RegisterWrite))
        ensures
            r.1 == mode_write(N, M::code()),
    {
        let mut pin = self;
        let w = pin.mode::<M>();
        proof {
            use_type_invariant(&pin);
        }
        (Pin::new(), w)
    }
}

/// The codes of the eight modes, as the chip defines them. They do not count
/// up with the number of the alternate function.
pub proof fn lemma_mode_codes()
    ensures
        Input::code() == 0b000,
        Output::code() == 0b001,
        AF0::code() == 0b100,
        AF1::code() == 0b101,
        AF2::code() == 0b110,
        AF3::code() == 0b111,
        AF4::code() == 0b011,
        AF5::code() == 0b010,
{
}

/// A mode write goes to register `index / 10` and holds the code in the three
/// bits from bit `3 * (index % 10)` on, and nothing in any other bit.
pub proof fn lemma_mode_write_places_code(index: u8, code: u32)
    requires
        index <= LAST_PIN,
        code <= 0b111,
    ensures
        function_select_shift(index) == 3 * (index % 10),
        index / 10 == 0 <==> mode_write(index, code).register == Register::Gpfsel0,
        index / 10 == 1 <==> mode_write(index, code).register == Register::Gpfsel1,
        index / 10 == 2 <==> mode_write(index, code).register == Register::Gpfsel2,
        index / 10 == 3 <==> mode_write(index, code).register == Register::Gpfsel3,
        index / 10 == 4 <==> mode_write(index, code).register == Register::Gpfsel4,
        index / 10 == 5 <==> mode_write(index, code).register == Register::Gpfsel5,
        (mode_write(index, code).value >> function_select_shift(index)) & 0b111 == code,
        mode_write(index, code).value & !(0b111u32 << function_select_shift(index)) == 0,
{
    let shift = function_select_shift(index);
    assert(((code << shift) >> shift) & 0b111 == code && (code << shift) & !(0b111u32 << shift)
        == 0) by (bit_vector)
        requires
            shift <= 27,
            code <= 0b111,
    ;
}

/// The codes of two pins that share a function select register lie in
/// different bits of it.
pub proof fn lemma_mode_fields_apart(index: u8, other: u8)
    requires
        index <= LAST_PIN,
        other <= LAST_PIN,
        index != other,
        function_select_register(index) == function_select_register(other),
    ensures
        (0b111u32 << function_select_shift(index)) & (0b111u32 << function_select_shift(other))
            == 0,
{
    let a: u32 = (index % 10) as u32;
    let b: u32 = (other % 10) as u32;
    assert(a != b);
    assert((0b111u32 << (a * 3) as u32) & (0b111u32 << (b * 3) as u32) == 0) by (bit_vector)
        requires
            a < 10,
            b < 10,
            a != b,
    ;
}

} // verus!
