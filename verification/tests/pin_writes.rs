//! Driving a pin: which bit goes to which register.
use baremetal_raspi::gpio::{GpioExt, PinExt, PinState, Register, RegisterWrite};
use baremetal_raspi::pac::Peripherals;

#[test]
fn driving_a_pin_writes_its_bit_to_the_register_of_its_half() {
    let board = Peripherals::take().expect("the board gives its peripherals out once");
    let pins = board.GPIO.split();

    let (mut first, _) = pins.p0.into_output();
    assert_eq!(first.pin_id(), 0);
    assert_eq!(first.level_register(), Register::Gplev0);
    assert_eq!(
        first.set_high(),
        RegisterWrite { register: Register::Gpset0, value: 0x0000_0001 }
    );
    assert_eq!(
        first.set_low(),
        RegisterWrite { register: Register::Gpclr0, value: 0x0000_0001 }
    );

    let (mut last_of_first_half, _) = pins.p31.into_output();
    assert_eq!(last_of_first_half.pin_id(), 31);
    assert_eq!(last_of_first_half.level_register(), Register::Gplev0);
    assert_eq!(
        last_of_first_half.set_high(),
        RegisterWrite { register: Register::Gpset0, value: 0x8000_0000 }
    );
    assert_eq!(
        last_of_first_half.set_low(),
        RegisterWrite { register: Register::Gpclr0, value: 0x8000_0000 }
    );

    let (mut first_of_second_half, _) = pins.p32.into_output();
    assert_eq!(first_of_second_half.pin_id(), 32);
    assert_eq!(first_of_second_half.level_register(), Register::Gplev1);
    assert_eq!(
        first_of_second_half.set_high(),
        RegisterWrite { register: Register::Gpset1, value: 0x0000_0001 }
    );
    assert_eq!(
        first_of_second_half.set_low(),
        RegisterWrite { register: Register::Gpclr1, value: 0x0000_0001 }
    );

    let (mut last, _) = pins.p53.into_output();
    assert_eq!(last.pin_id(), 53);
    assert_eq!(last.level_register(), Register::Gplev1);
    assert_eq!(
        last.set_high(),
        RegisterWrite { register: Register::Gpset1, value: 0x0020_0000 }
    );
    assert_eq!(
        last.set_low(),
        RegisterWrite { register: Register::Gpclr1, value: 0x0020_0000 }
    );

    let (mut led, _) = pins.p20.into_output();
    assert_eq!(
        led.set_state(PinState::High),
        RegisterWrite { register: Register::Gpset0, value: 0x0010_0000 }
    );
    assert_eq!(
        led.set_state(PinState::Low),
        RegisterWrite { register: Register::Gpclr0, value: 0x0010_0000 }
    );
}
