use lpc11uxx_hal::gpio::{AnyPin, Level, Pin, Port, Pull, Unsupported};
use lpc11uxx_hal::storage::{check_eeprom_range, EepromError};

#[test]
fn pin_code_round_trips() {
    let p = AnyPin::new(Port::Port1, 23);
    assert_eq!(p.port_pin(), 55);
    assert_eq!(p.pin(), 23);
    assert_eq!(p.port(), Port::Port1);
    let q = AnyPin::new(Port::Port0, 7);
    assert_eq!(q.port_pin(), 7);
    assert_eq!(q.pin(), 7);
    assert_eq!(q.port(), Port::Port0);
}

#[test]
fn gpio_function_numbers() {
    for pin in [0u8, 10, 11, 12, 13, 14, 15] {
        assert_eq!(AnyPin::new(Port::Port0, pin).pio_func(), 1);
    }
    for pin in [1u8, 4, 9, 16, 23] {
        assert_eq!(AnyPin::new(Port::Port0, pin).pio_func(), 0);
    }
    assert_eq!(AnyPin::new(Port::Port1, 0).pio_func(), 0);
    assert_eq!(AnyPin::new(Port::Port1, 10).pio_func(), 0);
}

#[test]
fn special_pins() {
    assert!(AnyPin::new(Port::Port0, 4).is_i2c_pin());
    assert!(AnyPin::new(Port::Port0, 5).is_i2c_pin());
    assert!(!AnyPin::new(Port::Port1, 4).is_i2c_pin());
    for pin in [11u8, 12, 13, 14, 15, 16, 22, 23] {
        assert!(AnyPin::new(Port::Port0, pin).is_adc_pin());
    }
    assert!(!AnyPin::new(Port::Port0, 17).is_adc_pin());
    assert!(!AnyPin::new(Port::Port1, 11).is_adc_pin());
}

#[test]
fn eeprom_range() {
    assert_eq!(check_eeprom_range(0, 4096, 4096), Ok(()));
    assert_eq!(check_eeprom_range(4000, 96, 4096), Ok(()));
    assert_eq!(check_eeprom_range(4000, 97, 4096), Err(EepromError::OutOfRange));
    assert_eq!(check_eeprom_range(5000, 0, 4096), Err(EepromError::OutOfRange));
    assert_eq!(check_eeprom_range(0, 1, 0), Err(EepromError::OutOfRange));
    assert_eq!(check_eeprom_range(0, 0, 0), Ok(()));
    assert_eq!(check_eeprom_range(u32::MAX, usize::MAX, 4096), Err(EepromError::OutOfRange));
}

#[test]
fn pin_masks() {
    assert_eq!(AnyPin::new(Port::Port0, 0).bit(), 1);
    assert_eq!(AnyPin::new(Port::Port1, 7).bit(), 0x80);
    assert_eq!(AnyPin::new(Port::Port0, 31).bit(), 0x8000_0000);
}

#[test]
fn pull_on_i2c_pins_must_float() {
    let scl = AnyPin::new(Port::Port0, 4);
    assert_eq!(scl.check_pull(Pull::Floating), Ok(()));
    assert_eq!(scl.check_pull(Pull::Up), Err(Unsupported));
    assert_eq!(scl.check_pull(Pull::Repeater), Err(Unsupported));
    assert_eq!(AnyPin::new(Port::Port0, 6).check_pull(Pull::Down), Ok(()));
}

#[test]
fn input_stage_and_filter_support() {
    assert_eq!(AnyPin::new(Port::Port0, 5).check_input_config(), Err(Unsupported));
    assert_eq!(AnyPin::new(Port::Port0, 3).check_input_config(), Ok(()));
    assert_eq!(AnyPin::new(Port::Port0, 22).check_glitch_filter(), Ok(()));
    assert_eq!(AnyPin::new(Port::Port0, 21).check_glitch_filter(), Err(Unsupported));
}

#[test]
fn open_drain_on_i2c_pins() {
    let sda = AnyPin::new(Port::Port0, 5);
    assert_eq!(sda.open_drain_write(true), Ok(false));
    assert_eq!(sda.open_drain_write(false), Err(Unsupported));
    assert_eq!(AnyPin::new(Port::Port0, 8).open_drain_write(false), Ok(true));
}

#[test]
fn level_from_bit() {
    assert_eq!(Level::from_bit(true), Level::High);
    assert_eq!(Level::from_bit(false), Level::Low);
}
