//! Pin acquisition registry and peripheral ownership gate.

use ruspiro_gpio::{Gpio, GpioError, GpioGate};

#[test]
fn acquire_beyond_pin_count_is_invalid() {
    let mut gate = GpioGate::new();
    let mut gpio = Gpio::new(&mut gate, 40).unwrap();
    for id in [40u32, 41, 53, 54, 1000, u32::MAX] {
        assert_eq!(gpio.get_pin(id).err(), Some(GpioError::InvalidPinId));
    }
    let mut gate54 = GpioGate::new();
    let mut gpio54 = Gpio::new(&mut gate54, 54).unwrap();
    assert_eq!(gpio54.get_pin(54).err(), Some(GpioError::InvalidPinId));
    assert!(gpio54.get_pin(53).is_ok());
}

#[test]
fn acquire_twice_then_release_then_reacquire() {
    let mut gate = GpioGate::new();
    let mut gpio = Gpio::new(&mut gate, 40).unwrap();
    assert!(gpio.get_pin(17).is_ok());
    assert!(gpio.pin_in_use(17));
    assert_eq!(gpio.get_pin(17).err(), Some(GpioError::PinInUse));
    assert!(gpio.free_pin(17).is_ok());
    assert!(!gpio.pin_in_use(17));
    assert!(gpio.get_pin(17).is_ok());
}

#[test]
fn release_errors() {
    let mut gate = GpioGate::new();
    let mut gpio = Gpio::new(&mut gate, 40).unwrap();
    assert_eq!(gpio.free_pin(40).err(), Some(GpioError::InvalidPinId));
    assert_eq!(gpio.free_pin(3).err(), Some(GpioError::PinNotInUse));
    assert!(gpio.get_pin(3).is_ok());
    assert!(gpio.free_pin(3).is_ok());
    assert_eq!(gpio.free_pin(3).err(), Some(GpioError::PinNotInUse));
}

#[test]
fn second_instantiation_refused_until_release() {
    let mut gate = GpioGate::new();
    assert!(!gate.held());
    let gpio = Gpio::new(&mut gate, 40).unwrap();
    assert!(gate.held());
    assert_eq!(
        Gpio::new(&mut gate, 40).err(),
        Some(GpioError::AlreadyInstantiated)
    );
    assert_eq!(
        Gpio::new(&mut gate, 54).err(),
        Some(GpioError::AlreadyInstantiated)
    );
    gpio.release(&mut gate);
    assert!(!gate.held());
    let again = Gpio::new(&mut gate, 54);
    assert!(again.is_ok());
    assert_eq!(again.unwrap().max_pins(), 54);
    assert!(gate.held());
}

#[test]
fn fresh_handle_has_no_pin_claimed() {
    let mut gate = GpioGate::new();
    let gpio = Gpio::new(&mut gate, 54).unwrap();
    assert_eq!(gpio.max_pins(), 54);
    for id in 0..54u32 {
        assert!(!gpio.pin_in_use(id));
    }
}

#[test]
fn error_messages_are_nonempty() {
    for e in [
        GpioError::InvalidPinId,
        GpioError::PinInUse,
        GpioError::PinNotInUse,
        GpioError::UnsupportedAltFunction,
        GpioError::AlreadyInstantiated,
    ] {
        assert!(!e.message().is_empty());
    }
}
