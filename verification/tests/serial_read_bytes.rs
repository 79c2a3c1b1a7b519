//! A transfer from the line, poll by poll.
use baremetal_raspi::gpio::{GpioExt, AF0, P14, P15};
use baremetal_raspi::pac::{Peripherals, UART0};
use baremetal_raspi::serial::{Flags, Received, Serial, Transfer};

fn driver() -> Serial<UART0, (P14<AF0>, P15<AF0>)> {
    let board = Peripherals::take().expect("the board gives its peripherals out once");
    let pins = board.GPIO.split();
    let (tx, _) = pins.p14.into_alternate_fn0();
    let (rx, _) = pins.p15.into_alternate_fn0();
    let (serial, _) = Serial::uart0(board.UART0, (tx, rx));
    serial
}

fn word(data: u8) -> Received {
    Received { overrun: false, parity: false, framing: false, data }
}

#[test]
fn read_bytes_fills_the_front_of_the_buffer_in_order() {
    let mut serial = driver();
    let filled = Flags { busy: false, receive_fifo_empty: false, transmit_fifo_full: false };
    let empty = Flags { busy: false, receive_fifo_empty: true, transmit_fifo_full: false };
    let mut buffer = [0xaau8; 5];

    let state = Transfer::begin(3);
    assert_eq!(state, Transfer::Pending(0));

    // Nothing has arrived: nothing is stored.
    let state = serial.read_bytes(3, &mut buffer, state, word(0x99), empty);
    assert_eq!(state, Transfer::Pending(0));
    assert_eq!(buffer, [0xaa, 0xaa, 0xaa, 0xaa, 0xaa]);

    let state = serial.read_bytes(3, &mut buffer, state, word(b'o'), filled);
    assert_eq!(state, Transfer::Pending(1));
    assert_eq!(buffer, [b'o', 0xaa, 0xaa, 0xaa, 0xaa]);

    let state = serial.read_bytes(3, &mut buffer, state, word(b'k'), filled);
    assert_eq!(state, Transfer::Pending(2));
    assert_eq!(buffer, [b'o', b'k', 0xaa, 0xaa, 0xaa]);

    let state = serial.read_bytes(3, &mut buffer, state, word(0x00), empty);
    assert_eq!(state, Transfer::Pending(2));
    assert_eq!(buffer, [b'o', b'k', 0xaa, 0xaa, 0xaa]);

    let state = serial.read_bytes(3, &mut buffer, state, word(b'!'), filled);
    assert_eq!(state, Transfer::Finished);
    assert_eq!(buffer, [b'o', b'k', b'!', 0xaa, 0xaa]);

    // Once it is over, a poll stores nothing.
    let state = serial.read_bytes(3, &mut buffer, state, word(b'?'), filled);
    assert_eq!(state, Transfer::Finished);
    assert_eq!(buffer, [b'o', b'k', b'!', 0xaa, 0xaa]);

    // A transfer of no words is over at once, and one of the whole buffer fills it.
    assert_eq!(Transfer::begin(0), Transfer::Finished);
    let state = serial.read_bytes(0, &mut buffer, Transfer::Pending(0), word(b'?'), filled);
    assert_eq!(state, Transfer::Finished);
    assert_eq!(buffer, [b'o', b'k', b'!', 0xaa, 0xaa]);

    let mut state = Transfer::begin(5);
    let mut next = 1u8;
    while let Transfer::Pending(_) = state {
        state = serial.read_bytes(5, &mut buffer, state, word(next), filled);
        next += 1;
    }
    assert_eq!(state, Transfer::Finished);
    assert_eq!(buffer, [1, 2, 3, 4, 5]);
}
