//! Changing the mode of a pin: the words that are written, number by number.
use baremetal_raspi::gpio::{GpioExt, Register, RegisterWrite, AF5};
use baremetal_raspi::pac::Peripherals;

#[test]
fn mode_writes_hold_the_code_and_nothing_else() {
    let board = Peripherals::take().expect("the board gives its peripherals out once");
    let pins = board.GPIO.split();

    let (_, write) = pins.p0.into_output();
    assert_eq!(write, RegisterWrite { register: Register::Gpfsel0, value: 0x0000_0001 });

    let (_, write) = pins.p9.into_alternate_fn3();
    assert_eq!(write, RegisterWrite { register: Register::Gpfsel0, value: 0x3800_0000 });

    let (_, write) = pins.p10.into_alternate_fn4();
    assert_eq!(write, RegisterWrite { register: Register::Gpfsel1, value: 0x0000_0003 });

    // The transmit line of the UART: pin 14, alternate function 0.
    let (_, write) = pins.p14.into_alternate_fn0();
    assert_eq!(write, RegisterWrite { register: Register::Gpfsel1, value: 0x0000_4000 });

    let (_, write) = pins.p15.into_alternate_fn0();
    assert_eq!(write, RegisterWrite { register: Register::Gpfsel1, value: 0x0002_0000 });

    let (_, write) = pins.p21.into_output();
    assert_eq!(write, RegisterWrite { register: Register::Gpfsel2, value: 0x0000_0008 });

    let (_, write) = pins.p32.into_alternate_fn3();
    assert_eq!(write, RegisterWrite { register: Register::Gpfsel3, value: 0x0000_01c0 });

    let (_, write) = pins.p37.into_alternate_fn2();
    assert_eq!(write, RegisterWrite { register: Register::Gpfsel3, value: 0x00c0_0000 });

    let (_, write) = pins.p49.into_alternate_fn1();
    assert_eq!(write, RegisterWrite { register: Register::Gpfsel4, value: 0x2800_0000 });

    let (_, write) = pins.p50.into_mode::<AF5>();
    assert_eq!(write, RegisterWrite { register: Register::Gpfsel5, value: 0x0000_0002 });

    let (_, write) = pins.p53.into_output();
    assert_eq!(write, RegisterWrite { register: Register::Gpfsel5, value: 0x0000_0200 });

    // An input is the code zero: the whole word is zero.
    let (_, write) = pins.p29.into_input();
    assert_eq!(write, RegisterWrite { register: Register::Gpfsel2, value: 0x0000_0000 });
}
