//! A transfer to the line, against a simulated UART.
use baremetal_raspi::gpio::{GpioExt, AF0, P14, P15};
use baremetal_raspi::pac::{Peripherals, UART0};
use baremetal_raspi::serial::{Command, Flags, Serial, Transfer};

fn driver() -> Serial<UART0, (P14<AF0>, P15<AF0>)> {
    let board = Peripherals::take().expect("the board gives its peripherals out once");
    let pins = board.GPIO.split();
    let (tx, _) = pins.p14.into_alternate_fn0();
    let (rx, _) = pins.p15.into_alternate_fn0();
    let (serial, _) = Serial::uart0(board.UART0, (tx, rx));
    serial
}

/// The transmit side of a UART, as far as the driver sees it: a FIFO of
/// `room` words that sends one word every few readings of its flags.
struct Line {
    room: usize,
    fifo: Vec<u8>,
    sent: Vec<u8>,
    readings: usize,
}

fn read_flags(line: &mut Line) -> Flags {
    line.readings += 1;
    if line.readings % 3 == 0 && !line.fifo.is_empty() {
        let word = line.fifo.remove(0);
        line.sent.push(word);
    }
    Flags {
        busy: !line.fifo.is_empty(),
        receive_fifo_empty: true,
        transmit_fifo_full: line.fifo.len() >= line.room,
    }
}

fn perform(line: &mut Line, command: Command) {
    match command {
        Command::Transmit(word) => {
            assert!(line.fifo.len() < line.room, "a word was queued into a full FIFO");
            line.fifo.push(word);
        }
        other => panic!("{:?} is no part of a transfer", other),
    }
}

/// Runs a transfer to its end, as the firmware does, and returns how it
/// ended and how many commands it gave.
fn transfer(serial: &mut Serial<UART0, (P14<AF0>, P15<AF0>)>, line: &mut Line, buffer: &[u8]) -> (Transfer, usize) {
    let mut commands = 0;
    let mut state = Transfer::begin(buffer.len());
    while let Transfer::Pending(_) = state {
        let flags = read_flags(line);
        let (next, command) = serial.write_bytes(buffer, state, flags);
        if let Some(command) = command {
            perform(line, command);
            commands += 1;
        }
        state = next;
        assert!(line.readings < 100_000, "the transfer does not come to an end");
    }
    (state, commands)
}

/// Everything that has gone to the line: what was sent and what still waits.
fn on_the_line(line: &Line) -> Vec<u8> {
    let mut words = line.sent.clone();
    words.extend_from_slice(&line.fifo);
    words
}

#[test]
fn write_bytes_sends_each_word_once_and_in_order() {
    let mut serial = driver();

    let mut line = Line { room: 16, fifo: Vec::new(), sent: Vec::new(), readings: 0 };
    let message = [b'a', b' ', b'x', b'd', b'\r', b'\n'];
    let (end, commands) = transfer(&mut serial, &mut line, &message);
    assert_eq!(end, Transfer::Finished);
    assert_eq!(commands, 6);
    assert_eq!(on_the_line(&line), message);

    // The same on a line that is already busy, with words that repeat.
    let mut line = Line { room: 16, fifo: vec![0xee], sent: Vec::new(), readings: 0 };
    let message = [7u8, 7, 7, 0, 255, 7, 0, 0];
    let (end, commands) = transfer(&mut serial, &mut line, &message);
    assert_eq!(end, Transfer::Finished);
    assert_eq!(commands, 8);
    assert_eq!(on_the_line(&line), [0xee, 7, 7, 7, 0, 255, 7, 0, 0]);

    // A long buffer: every value of a word, twice over.
    let mut line = Line { room: 1, fifo: Vec::new(), sent: Vec::new(), readings: 0 };
    let message: Vec<u8> = (0..512u32).map(|i| (i % 256) as u8).collect();
    let (end, commands) = transfer(&mut serial, &mut line, &message);
    assert_eq!(end, Transfer::Finished);
    assert_eq!(commands, 512);
    assert_eq!(on_the_line(&line), message);
}
