//! Inverting a pin twice brings it back to its level.
use baremetal_raspi::gpio::{GpioExt, Input, Pin, Register, RegisterWrite};
use baremetal_raspi::pac::Peripherals;

/// The levels of the output pins, as the two level registers show them.
struct Bank {
    gplev0: u32,
    gplev1: u32,
}

/// Performs a write as the pin bank does: a set register raises the pins
/// whose bits are one, a clear register lowers them.
fn perform(bank: &mut Bank, write: RegisterWrite) {
    match write.register {
        Register::Gpset0 => bank.gplev0 |= write.value,
        Register::Gpset1 => bank.gplev1 |= write.value,
        Register::Gpclr0 => bank.gplev0 &= !write.value,
        Register::Gpclr1 => bank.gplev1 &= !write.value,
        _ => {}
    }
}

fn read(bank: &Bank, register: Register) -> u32 {
    match register {
        Register::Gplev0 => bank.gplev0,
        Register::Gplev1 => bank.gplev1,
        other => panic!("{:?} is no level register", other),
    }
}

fn toggles<const N: u8>(pin: Pin<N, Input>) {
    let (mut pin, _) = pin.into_output();
    let register = pin.level_register();
    let bit = 1u32 << (N % 32);
    for start in [0x0000_0000u32, 0xffff_ffffu32, 0x5a5a_a5a5u32] {
        let mut bank = Bank { gplev0: start, gplev1: start };
        let was_low = pin.is_set_low(read(&bank, register));

        let first = pin.toggle(read(&bank, register));
        let expected = if was_low {
            RegisterWrite {
                register: if N < 32 { Register::Gpset0 } else { Register::Gpset1 },
                value: bit,
            }
        } else {
            RegisterWrite {
                register: if N < 32 { Register::Gpclr0 } else { Register::Gpclr1 },
                value: bit,
            }
        };
        assert_eq!(first, expected);
        perform(&mut bank, first);
        assert_eq!(pin.is_set_low(read(&bank, register)), !was_low);
        assert_eq!(read(&bank, register), start ^ bit);

        let second = pin.toggle(read(&bank, register));
        perform(&mut bank, second);
        assert_eq!(pin.is_set_low(read(&bank, register)), was_low);
        assert_eq!(bank.gplev0, start);
        assert_eq!(bank.gplev1, start);
    }
}

#[test]
fn toggle_applied_twice_returns_the_pin_to_its_level() {
    let board = Peripherals::take().expect("the board gives its peripherals out once");
    let pins = board.GPIO.split();
    toggles(pins.p0);
    toggles(pins.p1);
    toggles(pins.p2);
    toggles(pins.p3);
    toggles(pins.p4);
    toggles(pins.p5);
    toggles(pins.p6);
    toggles(pins.p7);
    toggles(pins.p8);
    toggles(pins.p9);
    toggles(pins.p10);
    toggles(pins.p11);
    toggles(pins.p12);
    toggles(pins.p13);
    toggles(pins.p14);
    toggles(pins.p15);
    toggles(pins.p16);
    toggles(pins.p17);
    toggles(pins.p18);
    toggles(pins.p19);
    toggles(pins.p20);
    toggles(pins.p21);
    toggles(pins.p22);
    toggles(pins.p23);
    toggles(pins.p24);
    toggles(pins.p25);
    toggles(pins.p26);
    toggles(pins.p27);
    toggles(pins.p28);
    toggles(pins.p29);
    toggles(pins.p30);
    toggles(pins.p31);
    toggles(pins.p32);
    toggles(pins.p33);
    toggles(pins.p34);
    toggles(pins.p35);
    toggles(pins.p36);
    toggles(pins.p37);
    toggles(pins.p38);
    toggles(pins.p39);
    toggles(pins.p40);
    toggles(pins.p41);
    toggles(pins.p42);
    toggles(pins.p43);
    toggles(pins.p44);
    toggles(pins.p45);
    toggles(pins.p46);
    toggles(pins.p47);
    toggles(pins.p48);
    toggles(pins.p49);
    toggles(pins.p50);
    toggles(pins.p51);
    toggles(pins.p52);
    toggles(pins.p53);
}
