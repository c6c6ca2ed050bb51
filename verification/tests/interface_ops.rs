//! Direct tests of the event-detect register interface.

use ruspiro_gpio::GpioEvent;
use ruspiro_gpio::bank::{EventBank, Slot};
use ruspiro_gpio::interface::{
    acknowledge_detected_events, activate_detect_event, deactivate_all_detect_events,
    deactivate_detect_event, get_detected_events,
};
use ruspiro_gpio::regs::{GpioRegisters, RegOp};

#[test]
fn activate_then_deactivate_one_kind() {
    let mut regs = GpioRegisters::new();
    activate_detect_event(&mut regs, 17, GpioEvent::FallingEdge);
    assert_eq!(regs.read(0x58), 1 << 17);
    activate_detect_event(&mut regs, 18, GpioEvent::FallingEdge);
    assert_eq!(regs.read(0x58), (1 << 17) | (1 << 18));
    deactivate_detect_event(&mut regs, 17, GpioEvent::FallingEdge);
    assert_eq!(regs.read(0x58), 1 << 18);
    // Disarming one kind leaves other kinds alone.
    activate_detect_event(&mut regs, 17, GpioEvent::High);
    deactivate_detect_event(&mut regs, 17, GpioEvent::FallingEdge);
    assert_eq!(regs.read(0x64), 1 << 17);
}

#[test]
fn deactivate_composite_clears_both_registers() {
    let mut regs = GpioRegisters::new();
    activate_detect_event(&mut regs, 5, GpioEvent::BothEdges);
    assert_eq!(regs.read(0x4C), 1 << 5);
    assert_eq!(regs.read(0x58), 1 << 5);
    deactivate_detect_event(&mut regs, 5, GpioEvent::BothEdges);
    assert_eq!(regs.read(0x4C), 0);
    assert_eq!(regs.read(0x58), 0);
}

#[test]
fn deactivate_all_touches_all_six_registers_in_order() {
    let mut regs = GpioRegisters::new();
    for event in [
        GpioEvent::RisingEdge,
        GpioEvent::FallingEdge,
        GpioEvent::High,
        GpioEvent::Low,
        GpioEvent::AsyncRisingEdge,
        GpioEvent::AsyncFallingEdge,
    ] {
        activate_detect_event(&mut regs, 2, event);
    }
    let before = regs.log_len();
    deactivate_all_detect_events(&mut regs, 2);
    assert_eq!(regs.log_len(), before + 6);
    let expected = [0x4Cu32, 0x58, 0x64, 0x70, 0x7C, 0x88];
    for (i, off) in expected.iter().enumerate() {
        assert_eq!(
            regs.log_entry(before + i),
            RegOp::Write { offset: *off, value: 0 }
        );
        assert_eq!(regs.read(*off), 0);
    }
}

#[test]
fn status_read_and_write_to_clear() {
    let mut regs = GpioRegisters::new();
    regs.latch_events(0, 0b1010);
    regs.latch_events(1, 0b0110);
    assert_eq!(get_detected_events(&regs, 0), 0b1010);
    assert_eq!(get_detected_events(&regs, 1), 0b0110);
    // Acknowledging clears exactly the bits written back.
    acknowledge_detected_events(&mut regs, 0b0010, 0);
    assert_eq!(get_detected_events(&regs, 0), 0b1000);
    acknowledge_detected_events(&mut regs, 0b1000, 0);
    assert_eq!(get_detected_events(&regs, 0), 0);
    assert_eq!(get_detected_events(&regs, 1), 0b0110);
    assert_eq!(regs.log_entry(0), RegOp::Write { offset: 0x40, value: 0b0010 });
}

#[test]
fn highest_pin_of_bank0_dispatches() {
    let mut regs = GpioRegisters::new();
    let mut bank = EventBank::<u32>::new(0, 32);
    bank.register_oneshot(31, GpioEvent::AsyncRisingEdge, 99, &mut regs);
    assert_eq!(regs.read(0x7C), 1u32 << 31);
    regs.latch_events(0, 1 << 31);
    let plan = bank.dispatch(&mut regs);
    assert_eq!(plan.len(), 1);
    assert_eq!(plan[0].slot, 31);
    assert_eq!(plan[0].token, 99);
    assert!(plan[0].one_shot);
    assert!(matches!(bank.slot_at(31), Slot::Empty));
}
