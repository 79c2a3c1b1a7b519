//! A transfer of nothing to the line.
use baremetal_raspi::gpio::{GpioExt, AF0, P14, P15};
use baremetal_raspi::pac::{Peripherals, UART0};
use baremetal_raspi::serial::{Flags, Serial, Transfer};

fn driver() -> Serial<UART0, (P14<AF0>, P15<AF0>)> {
    let board = Peripherals::take().expect("the board gives its peripherals out once");
    let pins = board.GPIO.split();
    let (tx, _) = pins.p14.into_alternate_fn0();
    let (rx, _) = pins.p15.into_alternate_fn0();
    let (serial, _) = Serial::uart0(board.UART0, (tx, rx));
    serial
}

#[test]
fn write_bytes_of_nothing_is_a_no_op() {
    let mut serial = driver();
    let nothing: [u8; 0] = [];

    // It is over before the UART is read once.
    assert_eq!(Transfer::begin(nothing.len()), Transfer::Finished);

    // And if it is polled all the same, it stays over and gives no command.
    for busy in [false, true] {
        for transmit_fifo_full in [false, true] {
            let flags = Flags { busy, receive_fifo_empty: true, transmit_fifo_full };
            assert_eq!(
                serial.write_bytes(&nothing, Transfer::Finished, flags),
                (Transfer::Finished, None)
            );
            assert_eq!(
                serial.write_bytes(&nothing, Transfer::Pending(0), flags),
                (Transfer::Finished, None)
            );
        }
    }
}
