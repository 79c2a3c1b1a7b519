//! The serial line: one PL011 UART, driven by polling.
//!
//! [`Serial::uart0`] takes the UART token and a pair of pins that are wired
//! to it, and gives back the driver together with the commands that bring
//! the UART up. After that the driver decides, for each reading of the
//! UART's registers, what a read, a write or a flush comes to.
//!
//! The driver touches no register. A [`Command`] says which register is to
//! be written and what its fields are to hold; a [`Flags`] or a [`Received`]
//! is what was read from one. Whoever performs the commands reads the
//! registers again whenever the driver says that it is not ready, for as long
//! as they care to: there is no timeout in here.
use vstd::prelude::*;
use bcm2837_lpa::UART0;
use crate::gpio::{PinExt, PinMode, AF0, AF2, AF3, P14, P15, P32, P33, P36, P37};

mod laws;

pub use laws::{arrivals, read_bytes_run, stored};
pub use laws::{takes_word, transmits, words_moved, write_bytes_run};
pub use laws::{lemma_read_bytes_in_order, lemma_read_bytes_run, lemma_read_bytes_settled};
pub use laws::{lemma_faults_by_flag, lemma_no_fault_without_flag};
pub use laws::{lemma_paired_wiring_table, lemma_wiring_table};
pub use laws::{lemma_write_bytes_completes, lemma_write_bytes_in_order};
pub use laws::{lemma_write_bytes_of_nothing, lemma_write_bytes_run};

verus! {

/// `bcm2837_lpa::UART0`: the token that stands for the UART. Its inside is
/// never looked at: it is held while the driver lives and given back by
/// [`Serial::free`].
#[verifier::external_type_specification]
#[verifier::external_body]
pub struct ExUart0(bcm2837_lpa::UART0);

/// The clock that feeds the UART, in Hz. The firmware's boot configuration
/// must set the same rate, or the two ends of the line fall out of step.
pub const UART_CLOCK: u32 = 48_000_000;

/// The rate of the line, in bits per second.
pub const BAUD_RATE: u32 = 9_600;

/// The code of a word length of eight bits in the line control register.
pub const WORD_LENGTH_8: u8 = 0b11;

/// A serial interface: a UART and the pins that it is wired to.
pub struct Serial<UART, PINS> {
    uart: UART,
    pins: PINS,
}

/// The serial interface on `UART0`.
pub type Serial0<PINS> = Serial<UART0, PINS>;

/// A fault on the line, reported by the UART with a received word.
#[derive(Clone, Copy, Debug, PartialEq, Eq, Structural)]
pub enum Error {
    /// Framing error: no valid stop bit.
    Framing,
    /// Receive buffer overrun: a word arrived while the buffer was full.
    Overrun,
    /// Parity check error.
    Parity,
}

/// Why an attempt at an operation gave no result.
#[derive(Clone, Copy, Debug, PartialEq, Eq, Structural)]
pub enum NotDone {
    /// The operation cannot complete yet: try again. This is no fault.
    WouldBlock,
    /// A fault on the line.
    Fault(Error),
}

/// Whether pin `index`, in the mode with the code `code`, is wired to the
/// transmit line of `UART0`. Three pins are, each in one mode.
pub open spec fn transmit_wiring(index: u8, code: u32) -> bool {
    ||| index == 14 && code == AF0::code()
    ||| index == 32 && code == AF3::code()
    ||| index == 36 && code == AF2::code()
}

/// Whether pin `index`, in the mode with the code `code`, is wired to the
/// receive line of `UART0`. Three pins are, each in one mode.
pub open spec fn receive_wiring(index: u8, code: u32) -> bool {
    ||| index == 15 && code == AF0::code()
    ||| index == 33 && code == AF3::code()
    ||| index == 37 && code == AF2::code()
}

/// Whether the two pins, each in the mode with its code, are one of the
/// wirings of `UART0`: pins 14 and 15, pins 32 and 33 or pins 36 and 37, the
/// transmit pin first. The two pins of a wiring go together: a transmit pin
/// of one with the receive pin of another is no wiring.
pub open spec fn paired_wiring(tx: u8, tx_code: u32, rx: u8, rx_code: u32) -> bool {
    ||| tx == 14 && tx_code == AF0::code() && rx == 15 && rx_code == AF0::code()
    ||| tx == 32 && tx_code == AF3::code() && rx == 33 && rx_code == AF3::code()
    ||| tx == 36 && tx_code == AF2::code() && rx == 37 && rx_code == AF2::code()
}

/// A pin that can be the transmit line of `UART`.
///
/// Whoever implements this for a pin proves that the pin, in its mode, is
/// wired that way.
pub trait TxPin<UART>: PinExt<Mode: PinMode> {
    proof fn lemma_wired(pin: &Self)
        ensures
            transmit_wiring(pin.index(), <<Self as PinExt>::Mode as PinMode>::code()),
    ;
}

/// A pin that can be the receive line of `UART`.
///
/// Whoever implements this for a pin proves that the pin, in its mode, is
/// wired that way.
pub trait RxPin<UART>: PinExt<Mode: PinMode> {
    proof fn lemma_wired(pin: &Self)
        ensures
            receive_wiring(pin.index(), <<Self as PinExt>::Mode as PinMode>::code()),
    ;
}

impl TxPin<UART0> for P14<AF0> {
    proof fn lemma_wired(pin: &Self) {
    }
}

impl RxPin<UART0> for P15<AF0> {
    proof fn lemma_wired(pin: &Self) {
    }
}

impl TxPin<UART0> for P32<AF3> {
    proof fn lemma_wired(pin: &Self) {
    }
}

impl RxPin<UART0> for P33<AF3> {
    proof fn lemma_wired(pin: &Self) {
    }
}

impl TxPin<UART0> for P36<AF2> {
    proof fn lemma_wired(pin: &Self) {
    }
}

impl RxPin<UART0> for P37<AF2> {
    proof fn lemma_wired(pin: &Self) {
    }
}

/// A pair of pins, the transmit pin first, that is one wiring of `UART`.
///
/// The driver takes its two pins as such a pair. Whoever implements this for
/// a pair proves that its two pins belong to the same wiring.
pub trait PinPair<UART> {
    /// The transmit pin of the pair.
    type Tx: TxPin<UART>;

    /// The receive pin of the pair.
    type Rx: RxPin<UART>;

    proof fn lemma_paired(tx: &Self::Tx, rx: &Self::Rx)
        ensures
            paired_wiring(
                tx.index(),
                <<Self::Tx as PinExt>::Mode as PinMode>::code(),
                rx.index(),
                <<Self::Rx as PinExt>::Mode as PinMode>::code(),
            ),
    ;
}

impl PinPair<UART0> for (P14<AF0>, P15<AF0>) {
    type Tx = P14<AF0>;

    type Rx = P15<AF0>;

    proof fn lemma_paired(tx: &P14<AF0>, rx: &P15<AF0>) {
    }
}

impl PinPair<UART0> for (P32<AF3>, P33<AF3>) {
    type Tx = P32<AF3>;

    type Rx = P33<AF3>;

    proof fn lemma_paired(tx: &P32<AF3>, rx: &P33<AF3>) {
    }
}

impl PinPair<UART0> for (P36<AF2>, P37<AF2>) {
    type Tx = P36<AF2>;

    type Rx = P37<AF2>;

    proof fn lemma_paired(tx: &P36<AF2>, rx: &P37<AF2>) {
    }
}

/// The flag register, as far as the driver reads it.
#[derive(Clone, Copy, Debug, PartialEq, Eq, Structural)]
pub struct Flags {
    /// The UART is transmitting.
    pub busy: bool,
    /// The receive FIFO is empty.
    pub receive_fifo_empty: bool,
    /// The transmit FIFO is full.
    pub transmit_fifo_full: bool,
}

/// The data register, as far as the driver reads it: a received word and
/// the faults that came with it.
#[derive(Clone, Copy, Debug, PartialEq, Eq, Structural)]
pub struct Received {
    /// Overrun error.
    pub overrun: bool,
    /// Parity error.
    pub parity: bool,
    /// Framing error.
    pub framing: bool,
    /// The word.
    pub data: u8,
}

/// A set of the UART's interrupt causes: one field for each cause, in the
/// interrupt clear register and in the interrupt mask register alike.
#[derive(Clone, Copy, Debug, PartialEq, Eq, Structural)]
pub struct Interrupts {
    pub overrun: bool,
    pub break_error: bool,
    pub parity: bool,
    pub framing: bool,
    pub receive_timeout: bool,
    pub transmit: bool,
    pub receive: bool,
    pub clear_to_send: bool,
}

/// The fields of the line control register.
#[derive(Clone, Copy, Debug, PartialEq, Eq, Structural)]
pub struct LineControl {
    /// The code of the word length.
    pub word_length: u8,
    /// The FIFOs are on.
    pub fifo: bool,
    /// Two stop bits are sent, not one.
    pub two_stop_bits: bool,
    /// Parity is generated and checked.
    pub parity: bool,
    /// A break is sent.
    pub send_break: bool,
}

/// The two parts of the baud rate divisor.
#[derive(Clone, Copy, Debug, PartialEq, Eq, Structural)]
pub struct BaudDivisor {
    /// The whole part.
    pub integer: u32,
    /// The fraction, in 64ths, rounded to the nearest.
    pub fractional: u8,
}

/// One thing to do to the UART. But for `AwaitIdle`, a command is one write
/// of a whole register: the fields that it names get what it says, and every
/// other field of the register gets zero.
#[derive(Clone, Copy, Debug, PartialEq, Eq, Structural)]
pub enum Command {
    /// Write the control register: the UART as a whole, its transmit path
    /// and its receive path are switched on or off.
    Control { enable: bool, transmit: bool, receive: bool },
    /// Write the interrupt clear register: the causes in the set are cleared.
    ClearInterrupts(Interrupts),
    /// Read the flag register again and again, until [`Serial::flush`] says
    /// `Ok` of what was read.
    AwaitIdle,
    /// Write the integer baud rate divisor.
    IntegerDivisor(u16),
    /// Write the fractional baud rate divisor.
    FractionalDivisor(u8),
    /// Write the line control register.
    LineControl(LineControl),
    /// Write the interrupt mask register: the bits of the causes in the set
    /// are written as one.
    InterruptMask(Interrupts),
    /// Write the DMA control register as zero: no DMA.
    DisableDma,
    /// Write the data register: the word is queued for transmission.
    Transmit(u8),
}

/// What one poll of a write attempt came to.
#[derive(Clone, Copy, Debug, PartialEq, Eq)]
pub enum WriteStep {
    /// The UART is transmitting, and the attempt waits for it to finish:
    /// read the flags again and go on with the same attempt.
    Busy,
    /// The attempt is over. `Ok` holds the command that queues the word;
    /// `WouldBlock` says that the transmit FIFO had no room for it.
    Done(Result<Command, NotDone>),
}

/// How far a transfer of several words has come.
#[derive(Clone, Copy, Debug, PartialEq, Eq, Structural)]
pub enum Transfer {
    /// So many words have been moved, and more are to follow.
    Pending(usize),
    /// All words have been moved.
    Finished,
    /// A fault on the line ended the transfer. How many words had been
    /// moved before is not recorded.
    Failed(Error),
}

/// The whole part of the baud rate divisor `clock / (16 * baud)`.
pub open spec fn divisor_integer(clock: u32, baud: u32) -> int {
    clock as int / (16 * baud)
}

/// The fraction of the baud rate divisor `clock / (16 * baud)` in 64ths,
/// rounded to the nearest, a half rounded up. It lies between 0 and 64, both
/// included: a fraction of almost one rounds to 64.
pub open spec fn divisor_fractional(clock: u32, baud: u32) -> int {
    let step = 16 * baud;
    (128 * (clock as int % step) + step) / (2 * step)
}

/// All causes but clear-to-send: what bring-up clears.
pub open spec fn pending_causes() -> Interrupts {
    Interrupts {
        overrun: true,
        break_error: true,
        parity: true,
        framing: true,
        receive_timeout: true,
        transmit: true,
        receive: true,
        clear_to_send: false,
    }
}

/// All causes: what bring-up writes to the interrupt mask register.
pub open spec fn all_causes() -> Interrupts {
    Interrupts {
        overrun: true,
        break_error: true,
        parity: true,
        framing: true,
        receive_timeout: true,
        transmit: true,
        receive: true,
        clear_to_send: true,
    }
}

/// The line as the driver sets it up: words of eight bits, FIFOs on, one
/// stop bit, no parity, no break.
pub open spec fn line_settings() -> LineControl {
    LineControl {
        word_length: WORD_LENGTH_8,
        fifo: true,
        two_stop_bits: false,
        parity: false,
        send_break: false,
    }
}

/// The commands that bring the UART up with the given divisor, in the order
/// in which they are to be performed: switch the UART off, clear what is
/// pending, let a transmission in flight run out, set the rate and the
/// line, mask the interrupts, switch DMA off, and switch the UART on with
/// both paths.
pub open spec fn bring_up(divisor: BaudDivisor) -> Seq<Command> {
    seq![
        Command::Control { enable: false, transmit: false, receive: false },
        Command::ClearInterrupts(pending_causes()),
        Command::AwaitIdle,
        Command::IntegerDivisor(divisor.integer as u16),
        Command::FractionalDivisor(divisor.fractional),
        Command::LineControl(line_settings()),
        Command::InterruptMask(all_causes()),
        Command::DisableDma,
        Command::Control { enable: true, transmit: true, receive: true },
    ]
}

/// What a read comes to. The faults go before the data and before the
/// empty FIFO: overrun first, then parity, then framing.
pub open spec fn read_outcome(received: Received, flags: Flags) -> Result<u8, NotDone> {
    if received.overrun {
        Err(NotDone::Fault(Error::Overrun))
    } else if received.parity {
        Err(NotDone::Fault(Error::Parity))
    } else if received.framing {
        Err(NotDone::Fault(Error::Framing))
    } else if flags.receive_fifo_empty {
        Err(NotDone::WouldBlock)
    } else {
        Ok(received.data)
    }
}

/// What a flush comes to: done when nothing is being transmitted.
pub open spec fn flush_outcome(flags: Flags) -> Result<(), NotDone> {
    if flags.busy {
        Err(NotDone::WouldBlock)
    } else {
        Ok(())
    }
}

/// What one poll of a write attempt comes to.
pub open spec fn write_outcome(byte: u8, flags: Flags) -> WriteStep {
    if flags.busy {
        WriteStep::Busy
    } else if flags.transmit_fifo_full {
        WriteStep::Done(Err(NotDone::WouldBlock))
    } else {
        WriteStep::Done(Ok(Command::Transmit(byte)))
    }
}

/// The state of a transfer of `total` words of which `moved` are done.
pub open spec fn transfer_at(moved: nat, total: nat) -> Transfer {
    if moved >= total {
        Transfer::Finished
    } else {
        Transfer::Pending(moved as usize)
    }
}

/// One poll of a transfer of `buffer` to the line: the state after it, and
/// the command to perform, if any.
pub open spec fn write_bytes_step(buffer: Seq<u8>, state: Transfer, flags: Flags) -> (
    Transfer,
    Option<Command>,
) {
    match state {
        Transfer::Pending(sent) => {
            if sent >= buffer.len() {
                (Transfer::Finished, None)
            } else {
                match write_outcome(buffer[sent as int], flags) {
                    WriteStep::Done(Ok(command)) => (
                        transfer_at((sent + 1) as nat, buffer.len()),
                        Some(command),
                    ),
                    WriteStep::Done(Err(NotDone::Fault(e))) => (Transfer::Failed(e), None),
                    _ => (state, None),
                }
            }
        },
        _ => (state, None),
    }
}

/// One poll of a transfer of `n` words from the line to `buffer`: the state
/// and the buffer after it.
pub open spec fn read_bytes_step(
    n: usize,
    buffer: Seq<u8>,
    state: Transfer,
    received: Received,
    flags: Flags,
) -> (Transfer, Seq<u8>) {
    match state {
        Transfer::Pending(got) => {
            if got >= n {
                (Transfer::Finished, buffer)
            } else {
                match read_outcome(received, flags) {
                    Ok(byte) => (
                        transfer_at((got + 1) as nat, n as nat),
                        buffer.update(got as int, byte),
                    ),
                    Err(NotDone::Fault(e)) => (Transfer::Failed(e), buffer),
                    Err(NotDone::WouldBlock) => (state, buffer),
                }
            }
        },
        _ => (state, buffer),
    }
}

/// The two parts of the divisor for a line of `baud` bits per second on a
/// UART clocked at `clock` Hz: `clock / (16 * baud)`, its whole part and its
/// fraction in 64ths, rounded to the nearest. There is none for a rate of
/// zero.
pub fn baud_divisor(clock: u32, baud: u32) -> (divisor: Option<BaudDivisor>)
    ensures
        divisor.is_some() <==> baud != 0,
        divisor matches Some(d) ==> d.integer == divisor_integer(clock, baud) && d.fractional
            == divisor_fractional(clock, baud),
{
    if baud == 0 {
        return None;
    }
    let step: u64 = 16 * (baud as u64);
    let integer: u64 = (clock as u64) / step;
    let rest: u64 = (clock as u64) % step;
    proof {
        lemma_divisor_parts(clock as int, step as int);
        assert(step == 16 * baud);
        assert(rest < step);
    }
    let fractional: u64 = (128 * rest + step) / (2 * step);
    Some(BaudDivisor { integer: integer as u32, fractional: fractional as u8 })
}

/// The whole part of `clock / step` is no more than `clock`, and the rest,
/// in 64ths and rounded, is no more than 64.
proof fn lemma_divisor_parts(clock: int, step: int)
    requires
        0 <= clock,
        0 < step,
    ensures
        0 <= clock / step <= clock,
        0 <= clock % step < step,
        0 <= (128 * (clock % step) + step) / (2 * step) <= 64,
{
    let rest = clock % step;
    assert(0 <= clock / step <= clock && 0 <= rest < step) by (nonlinear_arith)
        requires
            0 <= clock,
            0 < step,
            rest == clock % step,
    ;
    assert(0 <= (128 * rest + step) / (2 * step) <= 64) by (nonlinear_arith)
        requires
            0 <= rest < step,
    ;
}

/// The divisor of the line that the driver sets up: 312 and 32 64ths, that
/// is 312.5, for 9600 bits per second on a clock of 48 MHz.
pub proof fn lemma_line_divisor()
    ensures
        divisor_integer(UART_CLOCK, BAUD_RATE) == 312,
        divisor_fractional(UART_CLOCK, BAUD_RATE) == 32,
{
    assert(48_000_000int / 153_600int == 312 && 48_000_000int % 153_600int == 76_800) by (nonlinear_arith);
    assert(9_984_000int / 307_200int == 32) by (nonlinear_arith);
}

impl Transfer {
    /// The state in which a transfer of `total` words begins: finished
    /// already if there is nothing to move.
    pub fn begin(total: usize) -> (state: Transfer)
        ensures
            state == transfer_at(0, total as nat),
    {
        if total == 0 {
            Transfer::Finished
        } else {
            Transfer::Pending(0)
        }
    }
}

impl<UART, PINS> Serial<UART, PINS> {
    /// The UART that the driver holds.
    pub closed spec fn peripheral(self) -> UART {
        self.uart
    }

    /// The pins that the driver holds.
    pub closed spec fn wiring(self) -> PINS {
        self.pins
    }

    /// Lends out the UART that the driver holds. Its registers are reached
    /// through this borrow, so that only who has the driver performs its
    /// commands.
    pub fn uart(&self) -> (uart: &UART)
        ensures
            *uart == self.peripheral(),
    {
        &self.uart
    }
}

impl<TX: TxPin<UART0>, RX: RxPin<UART0>> Serial<UART0, (TX, RX)> where
    (TX, RX): PinPair<UART0, Tx = TX, Rx = RX>,
 {
    /// Makes the serial interface on `UART0`, wired to `pins`, the transmit
    /// pin first. Returns the driver and the commands that bring the UART up
    /// for a line of [`BAUD_RATE`] bits per second on a clock of
    /// [`UART_CLOCK`] Hz: they are to be performed once, in their order,
    /// before the driver is used.
    ///
    /// Only the two pins of one wiring are taken, and only as a pair: the
    /// types see to it, before anything is done to the UART.
    pub fn uart0(uart: UART0, pins: (TX, RX)) -> (r: (Self, [Command; 9]))
        ensures
            r.0.peripheral() == uart,
            r.0.wiring() == pins,
            r.1@ == bring_up(
                BaudDivisor {
                    integer: divisor_integer(UART_CLOCK, BAUD_RATE) as u32,
                    fractional: divisor_fractional(UART_CLOCK, BAUD_RATE) as u8,
                },
            ),
            r.1@[3] == Command::IntegerDivisor(312),
            r.1@[4] == Command::FractionalDivisor(32),
            paired_wiring(
                pins.0.index(),
                <<TX as PinExt>::Mode as PinMode>::code(),
                pins.1.index(),
                <<RX as PinExt>::Mode as PinMode>::code(),
            ),
            transmit_wiring(pins.0.index(), <<TX as PinExt>::Mode as PinMode>::code()),
            receive_wiring(pins.1.index(), <<RX as PinExt>::Mode as PinMode>::code()),
    {
        proof {
            <(TX, RX) as PinPair<UART0>>::lemma_paired(&pins.0, &pins.1);
            <TX as TxPin<UART0>>::lemma_wired(&pins.0);
            <RX as RxPin<UART0>>::lemma_wired(&pins.1);
            lemma_line_divisor();
        }
        let divisor = baud_divisor(UART_CLOCK, BAUD_RATE).unwrap();
        let serial = Serial { uart, pins };
        let commands = [
            Command::Control { enable: false, transmit: false, receive: false },
            Command::ClearInterrupts(
                Interrupts {
                    overrun: true,
                    break_error: true,
                    parity: true,
                    framing: true,
                    receive_timeout: true,
                    transmit: true,
                    receive: true,
                    clear_to_send: false,
                },
            ),
            Command::AwaitIdle,
            Command::IntegerDivisor(divisor.integer as u16),
            Command::FractionalDivisor(divisor.fractional),
            Command::LineControl(
                LineControl {
                    word_length: WORD_LENGTH_8,
                    fifo: true,
                    two_stop_bits: false,
                    parity: false,
                    send_break: false,
                },
            ),
            Command::InterruptMask(
                Interrupts {
                    overrun: true,
                    break_error: true,
                    parity: true,
                    framing: true,
                    receive_timeout: true,
                    transmit: true,
                    receive: true,
                    clear_to_send: true,
                },
            ),
            Command::DisableDma,
            Command::Control { enable: true, transmit: true, receive: true },
        ];
        (serial, commands)
    }

    /// Gives back the UART and the pins. No command comes with them: the
    /// UART stays as it is, switched on.
    pub fn free(self) -> (r: (UART0, (TX, RX)))
        ensures
            r.0 == self.peripheral(),
            r.1 == self.wiring(),
    {
        (self.uart, self.pins)
    }

    /// One poll of the transfer of `buffer` to the line, word by word and in
    /// order. `state` is how far the transfer has come, beginning at
    /// [`Transfer::begin`] of the buffer's length, and `flags` is the flag
    /// register, read for this poll. Returns the state after the poll and,
    /// where a word can go out, the command that queues it.
    ///
    /// While the state is `Pending`, perform the command and poll again. A
    /// transfer that is `Finished` or `Failed` stays so, without a command.
    pub fn write_bytes(&mut self, buffer: &[u8], state: Transfer, flags: Flags) -> (r: (
        Transfer,
        Option<Command>,
    ))
        ensures
            r == write_bytes_step(buffer@, state, flags),
            *final(self) == *old(self),
    {
        match state {
            Transfer::Pending(sent) => {
                if sent >= buffer.len() {
                    (Transfer::Finished, None)
                } else {
                    match self.write(buffer[sent], flags) {
                        WriteStep::Done(Ok(command)) => {
                            if sent + 1 >= buffer.len() {
                                (Transfer::Finished, Some(command))
                            } else {
                                (Transfer::Pending(sent + 1), Some(command))
                            }
                        },
                        WriteStep::Done(Err(NotDone::Fault(e))) => (Transfer::Failed(e), None),
                        _ => (state, None),
                    }
                }
            },
            _ => (state, None),
        }
    }

    /// One poll of the transfer of `n` words from the line to the front of
    /// `buffer`, word by word and in order. `state` is how far the transfer
    /// has come, beginning at [`Transfer::begin`] of `n`; `received` and
    /// `flags` are the data register and the flag register, read in that
    /// order for this poll. Returns the state after the poll.
    ///
    /// While the state is `Pending`, poll again. The first fault on the line
    /// ends the transfer, and the words stored before it stay in the buffer.
    pub fn read_bytes(
        &mut self,
        n: usize,
        buffer: &mut [u8],
        state: Transfer,
        received: Received,
        flags: Flags,
    ) -> (next: Transfer)
        requires
            n <= old(buffer)@.len(),
        ensures
            (next, final(buffer)@) == read_bytes_step(n, old(buffer)@, state, received, flags),
            *final(self) == *old(self),
    {
        match state {
            Transfer::Pending(got) => {
                if got >= n {
                    Transfer::Finished
                } else {
                    match self.read(received, flags) {
                        Ok(byte) => {
                            buffer[got] = byte;
                            if got + 1 >= n {
                                Transfer::Finished
                            } else {
                                Transfer::Pending(got + 1)
                            }
                        },
                        Err(NotDone::Fault(e)) => Transfer::Failed(e),
                        Err(NotDone::WouldBlock) => state,
                    }
                }
            },
            _ => state,
        }
    }
}

impl<PINS> Serial<UART0, PINS> {
    /// One attempt to read a word. `received` and `flags` are the data
    /// register and the flag register, read in that order for this attempt.
    ///
    /// A fault that came with the word is reported before anything else,
    /// overrun before parity and parity before framing. Without a fault, an
    /// empty receive FIFO is `WouldBlock`, and otherwise the word is returned.
    pub fn read(&mut self, received: Received, flags: Flags) -> (r: Result<u8, NotDone>)
        ensures
            r == read_outcome(received, flags),
            received.overrun ==> r == Err::<u8, NotDone>(NotDone::Fault(Error::Overrun)),
            !received.overrun && received.parity ==> r == Err::<u8, NotDone>(NotDone::Fault(Error::Parity)),
            !received.overrun && !received.parity && received.framing ==> r == Err::<u8, NotDone>(NotDone::Fault(Error::Framing)),
            !received.overrun && !received.parity && !received.framing
                && flags.receive_fifo_empty ==> r == Err::<u8, NotDone>(NotDone::WouldBlock),
            !received.overrun && !received.parity && !received.framing
                && !flags.receive_fifo_empty ==> r == Ok::<u8, NotDone>(received.data),
            *final(self) == *old(self),
    {
        if received.overrun {
            Err(NotDone::Fault(Error::Overrun))
        } else if received.parity {
            Err(NotDone::Fault(Error::Parity))
        } else if received.framing {
            Err(NotDone::Fault(Error::Framing))
        } else if flags.receive_fifo_empty {
            Err(NotDone::WouldBlock)
        } else {
            Ok(received.data)
        }
    }

    /// One poll of an attempt to write `byte`. `flags` is the flag register,
    /// read for this poll.
    ///
    /// The attempt first waits for the UART to finish transmitting: while it
    /// is busy, the answer is `Busy`. Once it is idle the attempt ends at
    /// once: with the command that queues the word if the transmit FIFO has
    /// room, with `WouldBlock` if it is full.
    pub fn write(&mut self, byte: u8, flags: Flags) -> (r: WriteStep)
        ensures
            r == write_outcome(byte, flags),
            *final(self) == *old(self),
    {
        match self.flush(flags) {
            Ok(()) => {
                if flags.transmit_fifo_full {
                    WriteStep::Done(Err(NotDone::WouldBlock))
                } else {
                    WriteStep::Done(Ok(Command::Transmit(byte)))
                }
            },
            Err(_) => WriteStep::Busy,
        }
    }

    /// One attempt to flush. `flags` is the flag register, read for this
    /// attempt. Done when the UART is not transmitting, `WouldBlock` while it
    /// is.
    pub fn flush(&mut self, flags: Flags) -> (r: Result<(), NotDone>)
        ensures
            r == flush_outcome(flags),
            r.is_ok() <==> !flags.busy,
            *final(self) == *old(self),
    {
        if flags.busy {
            Err(NotDone::WouldBlock)
        } else {
            Ok(())
        }
    }
}

} // verus!
