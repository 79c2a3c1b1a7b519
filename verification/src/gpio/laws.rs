//! What driving and reading pins amounts to, over every state of the bank.
use vstd::prelude::*;
use embedded_hal::digital::v2::PinState;
use super::{clear_write, level_bit, level_position, level_register, reads_low, set_write};
use super::{mode_write, state_read, state_write, toggle_write};
use super::{Register, RegisterWrite, LAST_PIN};

verus! {

/// What the two level registers hold for pins that are driven as outputs.
///
/// This is the bank's side of the contract: with [`after_write`] it says what
/// a sequence of writes and reads amounts to.
pub struct Levels {
    /// The word in `Gplev0`.
    pub bank0: u32,
    /// The word in `Gplev1`.
    pub bank1: u32,
}

/// The levels after the bank has taken the write `w`: a set register raises
/// the pins whose bits are written as one, a clear register lowers them, and
/// the pins whose bits are written as zero keep their level. A write to any
/// other register leaves the levels alone.
pub open spec fn after_write(levels: Levels, w: RegisterWrite) -> Levels {
    match w.register {
        Register::Gpset0 => Levels { bank0: levels.bank0 | w.value, bank1: levels.bank1 },
        Register::Gpset1 => Levels { bank0: levels.bank0, bank1: levels.bank1 | w.value },
        Register::Gpclr0 => Levels { bank0: levels.bank0 & !w.value, bank1: levels.bank1 },
        Register::Gpclr1 => Levels { bank0: levels.bank0, bank1: levels.bank1 & !w.value },
        _ => levels,
    }
}

/// The word that a read of the level register of pin `index` returns.
pub open spec fn level_word(levels: Levels, index: u8) -> u32 {
    if index < 32 {
        levels.bank0
    } else {
        levels.bank1
    }
}

/// Every pin has a bit in the words of its registers, and two pins that
/// share a register have different bits.
pub proof fn lemma_level_bits(index: u8, other: u8)
    requires
        index <= LAST_PIN,
        other <= LAST_PIN,
    ensures
        level_position(index) < 32,
        level_bit(index) != 0,
        other != index && level_register(other) == level_register(index) ==> level_bit(other)
            & level_bit(index) == 0,
{
    let i = level_position(index);
    let j = level_position(other);
    assert((1u32 << i) != 0) by (bit_vector)
        requires
            i < 32,
    ;
    assert(i != j ==> (1u32 << j) & (1u32 << i) == 0) by (bit_vector)
        requires
            i < 32,
            j < 32,
    ;
}

/// A pin reads high after it was driven high and low after it was driven
/// low, whatever the levels were before, in either half of the bank.
pub proof fn lemma_drive_then_read(index: u8, levels: Levels)
    requires
        index <= LAST_PIN,
    ensures
        !reads_low(index, level_word(after_write(levels, set_write(index)), index)),
        reads_low(index, level_word(after_write(levels, clear_write(index)), index)),
        state_read(index, level_word(after_write(levels, set_write(index)), index))
            == PinState::High,
        state_read(index, level_word(after_write(levels, clear_write(index)), index))
            == PinState::Low,
{
    let bit = level_bit(index);
    let word = level_word(levels, index);
    lemma_level_bits(index, index);
    assert((word | bit) & bit != 0) by (bit_vector)
        requires
            bit != 0,
    ;
    assert((word & !bit) & bit == 0) by (bit_vector);
}

/// Driving one pin leaves the level of every other pin as it was.
pub proof fn lemma_drive_leaves_others(index: u8, other: u8, state: PinState, levels: Levels)
    requires
        index <= LAST_PIN,
        other <= LAST_PIN,
        other != index,
    ensures
        reads_low(other, level_word(after_write(levels, state_write(index, state)), other))
            == reads_low(other, level_word(levels, other)),
{
    let bit = level_bit(index);
    let mask = level_bit(other);
    let word = level_word(levels, other);
    lemma_level_bits(index, other);
    if level_register(other) == level_register(index) {
        assert((word | bit) & mask == word & mask) by (bit_vector)
            requires
                mask & bit == 0,
        ;
        assert((word & !bit) & mask == word & mask) by (bit_vector)
            requires
                mask & bit == 0,
        ;
    }
}

/// Inverting a pin changes what it reads, and inverting it twice brings the
/// bank back to the levels it had.
pub proof fn lemma_toggle_twice(index: u8, levels: Levels)
    requires
        index <= LAST_PIN,
    ensures
        ({
            let once = after_write(levels, toggle_write(index, level_word(levels, index)));
            let twice = after_write(once, toggle_write(index, level_word(once, index)));
            &&& reads_low(index, level_word(once, index)) != reads_low(
                index,
                level_word(levels, index),
            )
            &&& twice == levels
        }),
{
    let k = level_position(index);
    let bit = level_bit(index);
    let word = level_word(levels, index);
    lemma_level_bits(index, index);
    assert(word & bit == 0 ==> (word | bit) & bit != 0 && (word | bit) & !bit == word)
        by (bit_vector)
        requires
            k < 32,
            bit == 1u32 << k,
    ;
    assert(word & bit != 0 ==> (word & !bit) & bit == 0 && (word & !bit) | bit == word)
        by (bit_vector)
        requires
            k < 32,
            bit == 1u32 << k,
    ;
}

/// A pin that is made an output at a given level reads that level once the
/// two writes are performed, in their order, whatever the levels were before
/// and whatever the code of the output mode.
pub proof fn lemma_output_in_state(index: u8, state: PinState, code: u32, levels: Levels)
    requires
        index <= LAST_PIN,
    ensures
        state_read(
            index,
            level_word(
                after_write(after_write(levels, state_write(index, state)), mode_write(index, code)),
                index,
            ),
        ) == state,
{
    lemma_drive_then_read(index, levels);
}

} // verus!
