//! The parts of the pin bank: one handle for each of its 54 pins.
use vstd::prelude::*;
use super::{GpioExt, Input, Pin};

verus! {

/// Pin 0.
pub type P0<MODE = Input> = Pin<0, MODE>;

/// Pin 1.
pub type P1<MODE = Input> = Pin<1, MODE>;

/// Pin 2.
pub type P2<MODE = Input> = Pin<2, MODE>;

/// Pin 3.
pub type P3<MODE = Input> = Pin<3, MODE>;

/// Pin 4.
pub type P4<MODE = Input> = Pin<4, MODE>;

/// Pin 5.
pub type P5<MODE = Input> = Pin<5, MODE>;

/// Pin 6.
pub type P6<MODE = Input> = Pin<6, MODE>;

/// Pin 7.
pub type P7<MODE = Input> = Pin<7, MODE>;

/// Pin 8.
pub type P8<MODE = Input> = Pin<8, MODE>;

/// Pin 9.
pub type P9<MODE = Input> = Pin<9, MODE>;

/// Pin 10.
pub type P10<MODE = Input> = Pin<10, MODE>;

/// Pin 11.
pub type P11<MODE = Input> = Pin<11, MODE>;

/// Pin 12.
pub type P12<MODE = Input> = Pin<12, MODE>;

/// Pin 13.
pub type P13<MODE = Input> = Pin<13, MODE>;

/// Pin 14.
pub type P14<MODE = Input> = Pin<14, MODE>;

/// Pin 15.
pub type P15<MODE = Input> = Pin<15, MODE>;

/// Pin 16.
pub type P16<MODE = Input> = Pin<16, MODE>;

/// Pin 17.
pub type P17<MODE = Input> = Pin<17, MODE>;

/// Pin 18.
pub type P18<MODE = Input> = Pin<18, MODE>;

/// Pin 19.
pub type P19<MODE = Input> = Pin<19, MODE>;

/// Pin 20.
pub type P20<MODE = Input> = Pin<20, MODE>;

/// Pin 21.
pub type P21<MODE = Input> = Pin<21, MODE>;

/// Pin 22.
pub type P22<MODE = Input> = Pin<22, MODE>;

/// Pin 23.
pub type P23<MODE = Input> = Pin<23, MODE>;

/// Pin 24.
pub type P24<MODE = Input> = Pin<24, MODE>;

/// Pin 25.
pub type P25<MODE = Input> = Pin<25, MODE>;

/// Pin 26.
pub type P26<MODE = Input> = Pin<26, MODE>;

/// Pin 27.
pub type P27<MODE = Input> = Pin<27, MODE>;

/// Pin 28.
pub type P28<MODE = Input> = Pin<28, MODE>;

/// Pin 29.
pub type P29<MODE = Input> = Pin<29, MODE>;

/// Pin 30.
pub type P30<MODE = Input> = Pin<30, MODE>;

/// Pin 31.
pub type P31<MODE = Input> = Pin<31, MODE>;

/// Pin 32.
pub type P32<MODE = Input> = Pin<32, MODE>;

/// Pin 33.
pub type P33<MODE = Input> = Pin<33, MODE>;

/// Pin 34.
pub type P34<MODE = Input> = Pin<34, MODE>;

/// Pin 35.
pub type P35<MODE = Input> = Pin<35, MODE>;

/// Pin 36.
pub type P36<MODE = Input> = Pin<36, MODE>;

/// Pin 37.
pub type P37<MODE = Input> = Pin<37, MODE>;

/// Pin 38.
pub type P38<MODE = Input> = Pin<38, MODE>;

/// Pin 39.
pub type P39<MODE = Input> = Pin<39, MODE>;

/// Pin 40.
pub type P40<MODE = Input> = Pin<40, MODE>;

/// Pin 41.
pub type P41<MODE = Input> = Pin<41, MODE>;

/// Pin 42.
pub type P42<MODE = Input> = Pin<42, MODE>;

/// Pin 43.
pub type P43<MODE = Input> = Pin<43, MODE>;

/// Pin 44.
pub type P44<MODE = Input> = Pin<44, MODE>;

/// Pin 45.
pub type P45<MODE = Input> = Pin<45, MODE>;

/// Pin 46.
pub type P46<MODE = Input> = Pin<46, MODE>;

/// Pin 47.
pub type P47<MODE = Input> = Pin<47, MODE>;

/// Pin 48.
pub type P48<MODE = Input> = Pin<48, MODE>;

/// Pin 49.
pub type P49<MODE = Input> = Pin<49, MODE>;

/// Pin 50.
pub type P50<MODE = Input> = Pin<50, MODE>;

/// Pin 51.
pub type P51<MODE = Input> = Pin<51, MODE>;

/// Pin 52.
pub type P52<MODE = Input> = Pin<52, MODE>;

/// Pin 53.
pub type P53<MODE = Input> = Pin<53, MODE>;

/// The pins of the bank.
pub struct Pins {
    pub p0: P0,
    pub p1: P1,
    pub p2: P2,
    pub p3: P3,
    pub p4: P4,
    pub p5: P5,
    pub p6: P6,
    pub p7: P7,
    pub p8: P8,
    pub p9: P9,
    pub p10: P10,
    pub p11: P11,
    pub p12: P12,
    pub p13: P13,
    pub p14: P14,
    pub p15: P15,
    pub p16: P16,
    pub p17: P17,
    pub p18: P18,
    pub p19: P19,
    pub p20: P20,
    pub p21: P21,
    pub p22: P22,
    pub p23: P23,
    pub p24: P24,
    pub p25: P25,
    pub p26: P26,
    pub p27: P27,
    pub p28: P28,
    pub p29: P29,
    pub p30: P30,
    pub p31: P31,
    pub p32: P32,
    pub p33: P33,
    pub p34: P34,
    pub p35: P35,
    pub p36: P36,
    pub p37: P37,
    pub p38: P38,
    pub p39: P39,
    pub p40: P40,
    pub p41: P41,
    pub p42: P42,
    pub p43: P43,
    pub p44: P44,
    pub p45: P45,
    pub p46: P46,
    pub p47: P47,
    pub p48: P48,
    pub p49: P49,
    pub p50: P50,
    pub p51: P51,
    pub p52: P52,
    pub p53: P53,
}

impl GpioExt for bcm2837_lpa::GPIO {
    type Parts = Pins;

    /// Turns the bank into its 54 pins, each an input, as the chip leaves
    /// them at power-on. No register is written.
    fn split(self) -> Pins {
        Pins {
            p0: Pin::new(),
            p1: Pin::new(),
            p2: Pin::new(),
            p3: Pin::new(),
            p4: Pin::new(),
            p5: Pin::new(),
            p6: Pin::new(),
            p7: Pin::new(),
            p8: Pin::new(),
            p9: Pin::new(),
            p10: Pin::new(),
            p11: Pin::new(),
            p12: Pin::new(),
            p13: Pin::new(),
            p14: Pin::new(),
            p15: Pin::new(),
            p16: Pin::new(),
            p17: Pin::new(),
            p18: Pin::new(),
            p19: Pin::new(),
            p20: Pin::new(),
            p21: Pin::new(),
            p22: Pin::new(),
            p23: Pin::new(),
            p24: Pin::new(),
            p25: Pin::new(),
            p26: Pin::new(),
            p27: Pin::new(),
            p28: Pin::new(),
            p29: Pin::new(),
            p30: Pin::new(),
            p31: Pin::new(),
            p32: Pin::new(),
            p33: Pin::new(),
            p34: Pin::new(),
            p35: Pin::new(),
            p36: Pin::new(),
            p37: Pin::new(),
            p38: Pin::new(),
            p39: Pin::new(),
            p40: Pin::new(),
            p41: Pin::new(),
            p42: Pin::new(),
            p43: Pin::new(),
            p44: Pin::new(),
            p45: Pin::new(),
            p46: Pin::new(),
            p47: Pin::new(),
            p48: Pin::new(),
            p49: Pin::new(),
            p50: Pin::new(),
            p51: Pin::new(),
            p52: Pin::new(),
            p53: Pin::new(),
        }
    }
}

} // verus!
