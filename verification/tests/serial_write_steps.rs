//! A transfer to the line, poll by poll.
use baremetal_raspi::gpio::{GpioExt, AF0, P14, P15};
use baremetal_raspi::pac::{Peripherals, UART0};
use baremetal_raspi::serial::{Command, Error, Flags, Serial, Transfer};

fn driver() -> Serial<UART0, (P14<AF0>, P15<AF0>)> {
    let board = Peripherals::take().expect("the board gives its peripherals out once");
    let pins = board.GPIO.split();
    let (tx, _) = pins.p14.into_alternate_fn0();
    let (rx, _) = pins.p15.into_alternate_fn0();
    let (serial, _) = Serial::uart0(board.UART0, (tx, rx));
    serial
}

#[test]
fn write_bytes_moves_on_only_when_a_word_is_queued() {
    let mut serial = driver();
    let buffer = [0x10u8, 0x20, 0x30];
    let busy = Flags { busy: true, receive_fifo_empty: true, transmit_fifo_full: false };
    let full = Flags { busy: false, receive_fifo_empty: true, transmit_fifo_full: true };
    let idle = Flags { busy: false, receive_fifo_empty: false, transmit_fifo_full: false };

    let state = Transfer::begin(buffer.len());
    assert_eq!(state, Transfer::Pending(0));

    // Busy, then full: nothing moves and nothing is to be done.
    assert_eq!(serial.write_bytes(&buffer, state, busy), (Transfer::Pending(0), None));
    assert_eq!(serial.write_bytes(&buffer, state, full), (Transfer::Pending(0), None));

    // Idle: the first word goes out.
    assert_eq!(
        serial.write_bytes(&buffer, state, idle),
        (Transfer::Pending(1), Some(Command::Transmit(0x10)))
    );
    assert_eq!(
        serial.write_bytes(&buffer, Transfer::Pending(1), busy),
        (Transfer::Pending(1), None)
    );
    assert_eq!(
        serial.write_bytes(&buffer, Transfer::Pending(1), idle),
        (Transfer::Pending(2), Some(Command::Transmit(0x20)))
    );

    // The last word finishes the transfer.
    assert_eq!(
        serial.write_bytes(&buffer, Transfer::Pending(2), full),
        (Transfer::Pending(2), None)
    );
    assert_eq!(
        serial.write_bytes(&buffer, Transfer::Pending(2), idle),
        (Transfer::Finished, Some(Command::Transmit(0x30)))
    );

    // A transfer that is over stays as it is.
    assert_eq!(
        serial.write_bytes(&buffer, Transfer::Finished, idle),
        (Transfer::Finished, None)
    );
    assert_eq!(
        serial.write_bytes(&buffer, Transfer::Failed(Error::Parity), idle),
        (Transfer::Failed(Error::Parity), None)
    );
    // A state beyond the buffer is the end of it.
    assert_eq!(
        serial.write_bytes(&buffer, Transfer::Pending(3), idle),
        (Transfer::Finished, None)
    );
    assert_eq!(
        serial.write_bytes(&buffer, Transfer::Pending(usize::MAX), idle),
        (Transfer::Finished, None)
    );
}
