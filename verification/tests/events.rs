//! Event bank registration, guard behaviour and interrupt dispatch.

use ruspiro_gpio::GpioEvent;
use ruspiro_gpio::bank::{EventBank, EventBanks, Slot};
use ruspiro_gpio::pin::Pin;
use ruspiro_gpio::regs::{GpioRegisters, RegOp};
use ruspiro_gpio::{Gpio, GpioGate};

#[test]
fn oneshot_supersedes_recurring_and_fires_once() {
    let mut regs = GpioRegisters::new();
    let mut bank = EventBank::<u32>::new(0, 32);
    let out = bank.register_recurring(5, GpioEvent::High, 1, &mut regs);
    assert!(out.registered);
    assert!(matches!(bank.slot_at(5), Slot::Recurring(1)));

    let out = bank.register_oneshot(5, GpioEvent::High, 2, &mut regs);
    assert!(out.registered);
    // Exactly one callback stays active: the one-shot.
    assert!(matches!(bank.slot_at(5), Slot::Oneshot(2)));

    regs.latch_events(0, 1 << 5);
    let plan = bank.dispatch(&mut regs);
    assert_eq!(plan.len(), 1);
    assert_eq!(plan[0].token, 2);
    assert!(plan[0].one_shot);
    // After firing the slot is empty and no recurring callback remains.
    assert!(matches!(bank.slot_at(5), Slot::Empty));
    regs.latch_events(0, 1 << 5);
    let plan = bank.dispatch(&mut regs);
    assert!(plan.is_empty());
}

#[test]
fn recurring_supersedes_oneshot() {
    let mut regs = GpioRegisters::new();
    let mut bank = EventBank::<u32>::new(0, 32);
    bank.register_oneshot(9, GpioEvent::Low, 4, &mut regs);
    bank.register_recurring(9, GpioEvent::Low, 5, &mut regs);
    assert!(matches!(bank.slot_at(9), Slot::Recurring(5)));
    // A recurring callback stays in place over any number of passes.
    for _ in 0..3 {
        regs.latch_events(0, 1 << 9);
        let plan = bank.dispatch(&mut regs);
        assert_eq!(plan.len(), 1);
        assert_eq!(plan[0].token, 5);
        assert!(!plan[0].one_shot);
        assert!(matches!(bank.slot_at(9), Slot::Recurring(5)));
    }
}

#[test]
fn dispatch_acknowledges_before_any_invocation() {
    // Pin 17 (bank 0), recurring callback for the rising edge; the
    // status register is simulated with bit 17 set.
    let mut gate = GpioGate::new();
    let mut gpio = Gpio::new(&mut gate, 54).unwrap();
    let mut regs = GpioRegisters::new();
    let pin = gpio.get_pin(17).unwrap().into_input(&mut regs);
    let mut banks = EventBanks::<u32>::new(54);

    let out = gpio.register_recurring_event_handler(
        &pin,
        GpioEvent::RisingEdge,
        7,
        &mut banks,
        &mut regs,
    );
    assert!(out.registered);
    assert_ne!(regs.read(0x4C) & (1 << 17), 0);

    regs.latch_events(0, 1 << 17);
    let before = regs.log_len();
    let plan = banks.bank0.dispatch(&mut regs);
    // The acknowledge store (bit 17 written back to the status register)
    // is logged inside the dispatch pass...
    assert_eq!(regs.log_len(), before + 1);
    assert_eq!(
        regs.log_entry(before),
        RegOp::Write { offset: 0x40, value: 1 << 17 }
    );
    assert_eq!(regs.read(0x40), 0);
    // ...while the callback is only handed back afterwards, so every
    // invocation runs strictly after the acknowledgment.
    assert_eq!(plan.len(), 1);
    assert_eq!(plan[0].slot, 17);
    assert_eq!(plan[0].token, 7);
    assert!(!plan[0].one_shot);
    assert!(matches!(banks.bank0.slot_at(17), Slot::Recurring(7)));
}

#[test]
fn unregister_pin_40_clears_slots_and_bank1_enables() {
    // Pin 40 is bank 1, pin-in-bank 8.
    let mut gate = GpioGate::new();
    let mut gpio = Gpio::new(&mut gate, 54).unwrap();
    let mut regs = GpioRegisters::new();
    let pin = gpio.get_pin(40).unwrap().into_input(&mut regs);
    let mut banks = EventBanks::<u32>::new(54);

    // Arm all six enable registers of bank 1 for pin-in-bank 8.
    gpio.register_recurring_event_handler(&pin, GpioEvent::BothEdges, 1, &mut banks, &mut regs);
    gpio.register_recurring_event_handler(&pin, GpioEvent::High, 2, &mut banks, &mut regs);
    gpio.register_recurring_event_handler(&pin, GpioEvent::Low, 3, &mut banks, &mut regs);
    gpio.register_oneshot_event_handler(&pin, GpioEvent::AsyncBothEdges, 4, &mut banks, &mut regs);
    let enables = [0x50u32, 0x5C, 0x68, 0x74, 0x80, 0x8C];
    for off in enables {
        assert_ne!(regs.read(off) & (1 << 8), 0);
    }
    assert!(matches!(banks.bank1.slot_at(8), Slot::Oneshot(4)));

    let before = regs.log_len();
    let cleared = gpio.remove_event_handler(&pin, &mut banks, &mut regs);
    assert!(cleared);
    // Both slot kinds are gone...
    assert!(matches!(banks.bank1.slot_at(8), Slot::Empty));
    // ...and all six enable bits of pin-in-bank 8 are cleared, one
    // read-modify-write per enable register, in order.
    assert_eq!(regs.log_len(), before + 6);
    for (i, off) in enables.iter().enumerate() {
        match regs.log_entry(before + i) {
            RegOp::Write { offset, value } => {
                assert_eq!(offset, *off);
                assert_eq!(value & (1 << 8), 0);
            }
            RegOp::Settle => panic!("expected a store, found a settle step"),
        }
        assert_eq!(regs.read(*off) & (1 << 8), 0);
    }
}

#[test]
fn guard_contention_makes_calls_silent_noops() {
    let mut regs = GpioRegisters::new();
    let mut bank = EventBank::<u32>::new(0, 32);
    assert!(bank.guard_try_acquire());
    // The guard is single-step and non-blocking: a second acquire fails
    // at once instead of waiting.
    assert!(!bank.guard_try_acquire());

    let out = bank.register_recurring(3, GpioEvent::High, 9, &mut regs);
    assert!(!out.registered);
    assert!(!out.unmask_line);
    assert_eq!(regs.log_len(), 0);
    assert!(matches!(bank.slot_at(3), Slot::Empty));

    let out = bank.register_oneshot(3, GpioEvent::High, 9, &mut regs);
    assert!(!out.registered);
    assert!(!bank.unregister(3, &mut regs));
    assert_eq!(regs.log_len(), 0);

    // A dispatch pass under a held guard still acknowledges the events
    // but skips every pin.
    regs.latch_events(0, 1 << 3);
    let plan = bank.dispatch(&mut regs);
    assert!(plan.is_empty());
    assert_eq!(regs.read(0x40), 0);
    assert_eq!(regs.log_len(), 1);

    bank.guard_release();
    let out = bank.register_recurring(3, GpioEvent::High, 9, &mut regs);
    assert!(out.registered);
    assert!(matches!(bank.slot_at(3), Slot::Recurring(9)));
}

#[test]
fn unmask_signal_on_first_registration_only() {
    let mut regs = GpioRegisters::new();
    let mut banks = EventBanks::<u32>::new(54);
    let out = banks.bank0.register_recurring(1, GpioEvent::High, 1, &mut regs);
    assert!(out.unmask_line);
    let out = banks.bank0.register_oneshot(2, GpioEvent::Low, 2, &mut regs);
    assert!(!out.unmask_line);
    // The banks signal independently.
    let out = banks.bank1.register_recurring(1, GpioEvent::High, 3, &mut regs);
    assert!(out.unmask_line);
    let out = banks.bank1.register_recurring(2, GpioEvent::High, 4, &mut regs);
    assert!(!out.unmask_line);
}

#[test]
fn composite_events_arm_two_registers() {
    let mut regs = GpioRegisters::new();
    let mut bank = EventBank::<u32>::new(0, 32);
    bank.register_recurring(3, GpioEvent::BothEdges, 1, &mut regs);
    assert_eq!(regs.log_len(), 2);
    assert_ne!(regs.read(0x4C) & (1 << 3), 0);
    assert_ne!(regs.read(0x58) & (1 << 3), 0);

    let mut regs1 = GpioRegisters::new();
    let mut bank1 = EventBank::<u32>::new(1, 22);
    bank1.register_recurring(1, GpioEvent::AsyncBothEdges, 1, &mut regs1);
    assert_eq!(regs1.log_len(), 2);
    assert_ne!(regs1.read(0x80) & (1 << 1), 0);
    assert_ne!(regs1.read(0x8C) & (1 << 1), 0);
}

#[test]
fn each_event_arms_its_enable_register() {
    let cases = [
        (GpioEvent::RisingEdge, 0x4Cu32, 0x50u32),
        (GpioEvent::FallingEdge, 0x58, 0x5C),
        (GpioEvent::High, 0x64, 0x68),
        (GpioEvent::Low, 0x70, 0x74),
        (GpioEvent::AsyncRisingEdge, 0x7C, 0x80),
        (GpioEvent::AsyncFallingEdge, 0x88, 0x8C),
    ];
    for (event, bank0_off, bank1_off) in cases {
        let mut regs = GpioRegisters::new();
        let mut bank = EventBank::<u32>::new(0, 32);
        bank.register_recurring(6, event, 1, &mut regs);
        assert_eq!(regs.log_len(), 1);
        assert_eq!(
            regs.log_entry(0),
            RegOp::Write { offset: bank0_off, value: 1 << 6 }
        );

        let mut regs1 = GpioRegisters::new();
        let mut bank1 = EventBank::<u32>::new(1, 22);
        bank1.register_recurring(6, event, 1, &mut regs1);
        assert_eq!(
            regs1.log_entry(0),
            RegOp::Write { offset: bank1_off, value: 1 << 6 }
        );
    }
}

#[test]
fn dispatch_visits_lowest_pin_first() {
    let mut regs = GpioRegisters::new();
    let mut bank = EventBank::<u32>::new(0, 32);
    bank.register_oneshot(1, GpioEvent::High, 10, &mut regs);
    bank.register_recurring(3, GpioEvent::High, 11, &mut regs);
    bank.register_recurring(30, GpioEvent::High, 12, &mut regs);
    // Bits 1, 3, 5 and 30 detected; slot 5 is empty.
    regs.latch_events(0, (1 << 1) | (1 << 3) | (1 << 5) | (1 << 30));
    let plan = bank.dispatch(&mut regs);
    assert_eq!(plan.len(), 3);
    assert_eq!((plan[0].slot, plan[0].token, plan[0].one_shot), (1, 10, true));
    assert_eq!((plan[1].slot, plan[1].token, plan[1].one_shot), (3, 11, false));
    assert_eq!((plan[2].slot, plan[2].token, plan[2].one_shot), (30, 12, false));
    assert!(matches!(bank.slot_at(1), Slot::Empty));
    assert!(matches!(bank.slot_at(3), Slot::Recurring(11)));
    assert!(matches!(bank.slot_at(30), Slot::Recurring(12)));
}

#[test]
fn dispatch_with_no_detected_events() {
    let mut regs = GpioRegisters::new();
    let mut bank = EventBank::<u32>::new(0, 32);
    bank.register_recurring(2, GpioEvent::High, 1, &mut regs);
    let before = regs.log_len();
    let plan = bank.dispatch(&mut regs);
    assert!(plan.is_empty());
    // The acknowledge store is still performed, with no bit set.
    assert_eq!(regs.log_entry(before), RegOp::Write { offset: 0x40, value: 0 });
    assert!(matches!(bank.slot_at(2), Slot::Recurring(1)));
}

#[test]
fn status_bits_without_slots_are_ignored() {
    // Bank 1 has 22 slots; status bits 22 and up have no pin behind them
    // and must not produce invocations.
    let mut regs = GpioRegisters::new();
    let mut bank = EventBank::<u32>::new(1, 22);
    bank.register_recurring(21, GpioEvent::High, 8, &mut regs);
    regs.latch_events(1, (1 << 21) | (1 << 22) | (1 << 31));
    let plan = bank.dispatch(&mut regs);
    assert_eq!(plan.len(), 1);
    assert_eq!(plan[0].slot, 21);
}

#[test]
fn bank_construction_is_empty_and_free() {
    let banks = EventBanks::<u32>::new(40);
    assert_eq!(banks.bank0.slot_count(), 32);
    assert_eq!(banks.bank1.slot_count(), 8);
    assert_eq!(banks.bank0.bank_index(), 0);
    assert_eq!(banks.bank1.bank_index(), 1);
    assert!(!banks.bank0.is_guard_held());
    assert!(!banks.bank1.is_guard_held());
    assert!(!banks.bank0.is_line_enabled());
    assert!(!banks.bank1.is_line_enabled());
    for i in 0..32 {
        assert!(matches!(banks.bank0.slot_at(i), Slot::Empty));
    }
    for i in 0..8 {
        assert!(matches!(banks.bank1.slot_at(i), Slot::Empty));
    }
}

#[test]
fn registration_skipped_leaves_detect_bits_unarmed() {
    // When the guard blocks a registration the detect bits are not armed
    // either: the call has no effect at all.
    let mut regs = GpioRegisters::new();
    let mut bank = EventBank::<u32>::new(0, 32);
    assert!(bank.guard_try_acquire());
    bank.register_recurring(7, GpioEvent::RisingEdge, 1, &mut regs);
    assert_eq!(regs.read(0x4C), 0);
    bank.guard_release();
    bank.register_recurring(7, GpioEvent::RisingEdge, 1, &mut regs);
    assert_ne!(regs.read(0x4C) & (1 << 7), 0);
}

#[test]
fn gpio_level_registration_picks_the_bank() {
    let mut gate = GpioGate::new();
    let mut gpio = Gpio::new(&mut gate, 54).unwrap();
    let mut regs = GpioRegisters::new();
    let pin0 = gpio.get_pin(31).unwrap().into_input(&mut regs);
    let pin1 = gpio.get_pin(32).unwrap().into_input(&mut regs);
    let mut banks = EventBanks::<u32>::new(54);

    gpio.register_oneshot_event_handler(&pin0, GpioEvent::High, 100, &mut banks, &mut regs);
    gpio.register_oneshot_event_handler(&pin1, GpioEvent::High, 200, &mut banks, &mut regs);
    assert!(matches!(banks.bank0.slot_at(31), Slot::Oneshot(100)));
    assert!(matches!(banks.bank1.slot_at(0), Slot::Oneshot(200)));
    // Pin 31 arms bit 31 of bank 0's high-detect register, pin 32 bit 0
    // of bank 1's.
    assert_ne!(regs.read(0x64) & (1 << 31), 0);
    assert_ne!(regs.read(0x68) & 1, 0);
}
