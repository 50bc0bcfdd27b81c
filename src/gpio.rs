//! Pin identities: which port and pin a pin code names, and the pins with
//! special functions.
use vstd::prelude::*;

verus! {

#[derive(Clone, Copy, Debug, PartialEq, Eq, Structural)]
pub enum Port {
    Port0,
    Port1,
}

#[derive(Clone, Copy, Debug, PartialEq, Eq, Structural)]
pub enum Pull {
    /// Neither pull-up nor pull-down
    Floating,
    /// Internal pull-up
    Up,
    /// Internal pull-down
    Down,
    /// Repeater mode/bus-keeper
    Repeater,
}

#[derive(Clone, Copy, Debug, PartialEq, Eq, Structural)]
pub enum Level {
    Low,
    High,
}

/// A pin configuration the pin does not support.
#[derive(Clone, Copy, Debug, PartialEq, Eq, Structural)]
pub struct Unsupported;

/// Number of a port.
pub open spec fn port_index(port: Port) -> int {
    match port {
        Port::Port0 => 0,
        Port::Port1 => 1,
    }
}

/// The pin code of pin `pin` of `port`: the port in bit 5, the pin in bits 0 to 4.
pub open spec fn port_pin_code(port: Port, pin: int) -> int {
    port_index(port) * 32 + pin
}

/// A pin of either port.
#[derive(Clone, Copy, Debug, PartialEq, Eq, Structural)]
pub struct AnyPin {
    port_pin: u8,
}

/// A GPIO pin, named by its pin code.
pub trait Pin {
    spec fn port_pin_spec(&self) -> u8;

    fn port_pin(&self) -> (r: u8)
        ensures
            r == self.port_pin_spec(),
    ;

    /// The pin's number within its port.
    fn pin(&self) -> (r: u8)
        ensures
            r == self.port_pin_spec() % 32,
    {
        let code = self.port_pin();
        let r = code & 0x1f;
        assert(code & 0x1f == code % 32) by (bit_vector);
        r
    }

    /// The pin's port.
    fn port(&self) -> (r: Port)
        ensures
            r == (if self.port_pin_spec() < 32 {
                Port::Port0
            } else {
                Port::Port1
            }),
    {
        let code = self.port_pin();
        assert((code >> 5u8 == 0) == (code < 32)) by (bit_vector);
        if code >> 5 == 0 {
            Port::Port0
        } else {
            Port::Port1
        }
    }
}

impl AnyPin {
    /// Pin `pin` of `port`.
    pub fn new(port: Port, pin: u8) -> (r: AnyPin)
        requires
            pin < 32,
        ensures
            r.port_pin_spec() == port_pin_code(port, pin as int),
    {
        let index: u8 = match port {
            Port::Port0 => 0,
            Port::Port1 => 1,
        };
        let code = index << 5 | pin;
        assert(index <= 1 && pin < 32 ==> (index << 5u8 | pin) == index * 32 + pin) by (bit_vector);
        AnyPin { port_pin: code }
    }

    /// The IOCON function number that makes the pin a GPIO: 1 for the reset
    /// and debug pins PIO0_0 and PIO0_10 to PIO0_15, 0 for all others.
    pub fn pio_func(&self) -> (r: u8)
        ensures
            r == (if self.port_pin_spec() == 0 || 10 <= self.port_pin_spec() <= 15 {
                1u8
            } else {
                0u8
            }),
    {
        match self.port_pin {
            0 | 10 | 11 | 12 | 13 | 14 | 15 => 1,
            _ => 0,
        }
    }

    /// The pin is one of the I2C pins PIO0_4 (SCL) and PIO0_5 (SDA).
    pub fn is_i2c_pin(&self) -> (r: bool)
        ensures
            r == (self.port_pin_spec() == 4 || self.port_pin_spec() == 5),
    {
        self.port_pin == 4 || self.port_pin == 5
    }

    /// The pin is one of the analog inputs PIO0_11 to PIO0_16, PIO0_22 and PIO0_23.
    pub fn is_adc_pin(&self) -> (r: bool)
        ensures
            r == (11 <= self.port_pin_spec() <= 16 || self.port_pin_spec() == 22
                || self.port_pin_spec() == 23),
    {
        match self.port_pin {
            11 | 12 | 13 | 14 | 15 | 16 | 22 | 23 => true,
            _ => false,
        }
    }
}

impl Pin for AnyPin {
    closed spec fn port_pin_spec(&self) -> u8 {
        self.port_pin
    }

    fn port_pin(&self) -> (r: u8) {
        self.port_pin
    }
}


impl Level {
    /// The level a pin bit reads as.
    pub fn from_bit(high: bool) -> (r: Level)
        ensures
            r == (if high {
                Level::High
            } else {
                Level::Low
            }),
    {
        if high {
            Level::High
        } else {
            Level::Low
        }
    }
}

impl AnyPin {
    /// The pin's mask in its port's GPIO registers.
    pub fn bit(&self) -> (r: u32)
        ensures
            r == vstd::arithmetic::power2::pow2((self.port_pin_spec() % 32) as nat),
    {
        let n = self.pin();
        proof {
            vstd::arithmetic::power2::lemma2_to64();
            if n < 31 {
                vstd::arithmetic::power2::lemma_pow2_strictly_increases(n as nat, 31);
            }
            vstd::bits::lemma_u32_shl_is_mul(1, n as u32);
        }
        1u32 << n as u32
    }

    /// Checks that the pin takes `pull`: the I2C pins only float.
    pub fn check_pull(&self, pull: Pull) -> (r: Result<(), Unsupported>)
        ensures
            r is Err <==> (self.port_pin_spec() == 4 || self.port_pin_spec() == 5) && pull
                != Pull::Floating,
    {
        if self.is_i2c_pin() && pull != Pull::Floating {
            Err(Unsupported)
        } else {
            Ok(())
        }
    }

    /// Checks that the pin's input stage (hysteresis, inversion) can be
    /// configured: not on the I2C pins.
    pub fn check_input_config(&self) -> (r: Result<(), Unsupported>)
        ensures
            r is Err <==> self.port_pin_spec() == 4 || self.port_pin_spec() == 5,
    {
        if self.is_i2c_pin() {
            Err(Unsupported)
        } else {
            Ok(())
        }
    }

    /// Checks that the pin has a glitch filter: only the analog inputs do.
    pub fn check_glitch_filter(&self) -> (r: Result<(), Unsupported>)
        ensures
            r is Err <==> !(11 <= self.port_pin_spec() <= 16 || self.port_pin_spec() == 22
                || self.port_pin_spec() == 23),
    {
        if self.is_adc_pin() {
            Ok(())
        } else {
            Err(Unsupported)
        }
    }

    /// Whether open-drain mode `od` needs a register write. The I2C pins are
    /// always open-drain: asking for it needs no write, and leaving it is
    /// unsupported.
    pub fn open_drain_write(&self, od: bool) -> (r: Result<bool, Unsupported>)
        ensures
            r == (if self.port_pin_spec() == 4 || self.port_pin_spec() == 5 {
                if od {
                    Ok(false)
                } else {
                    Err(Unsupported)
                }
            } else {
                Ok(true)
            }),
    {
        if self.is_i2c_pin() {
            if od {
                Ok(false)
            } else {
                Err(Unsupported)
            }
        } else {
            Ok(true)
        }
    }
}

} // verus!
