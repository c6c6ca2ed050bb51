//! Pin function, pull and level operations over the register mirror.

use ruspiro_gpio::GpioError;
use ruspiro_gpio::pin::{Pin, select_alt_function};
use ruspiro_gpio::regs::{GpioRegisters, RegOp};

#[test]
fn output_function_write_for_pin_17() {
    // Pin 17 lives in function-select register 1 (offset 0x04) at bit
    // offset (17 % 10) * 3 = 21.
    let mut regs = GpioRegisters::new();
    let pin = Pin::new(17);
    let _out = pin.into_output(&mut regs);
    assert_eq!(regs.log_len(), 1);
    assert_eq!(
        regs.log_entry(0),
        RegOp::Write { offset: 0x04, value: 1 << 21 }
    );
    assert_eq!(regs.read(0x04), 1 << 21);
}

#[test]
fn input_function_clears_the_field() {
    let mut regs = GpioRegisters::new();
    let pin = Pin::new(17);
    let out = pin.into_output(&mut regs);
    assert_eq!(regs.read(0x04), 1 << 21);
    // Rebuild an unconfigured handle for the same pin and switch it to
    // input: the 3-bit field goes back to 0b000.
    let _ = out;
    let pin2 = Pin::new(17);
    let _inp = pin2.into_input(&mut regs);
    assert_eq!(regs.read(0x04), 0);
    assert_eq!(regs.log_entry(1), RegOp::Write { offset: 0x04, value: 0 });
}

#[test]
fn function_select_register_of_pin_53() {
    // Pin 53: register 5 (offset 0x14), bit offset (53 % 10) * 3 = 9.
    let mut regs = GpioRegisters::new();
    let pin = Pin::new(53);
    let _out = pin.into_output(&mut regs);
    assert_eq!(
        regs.log_entry(0),
        RegOp::Write { offset: 0x14, value: 1 << 9 }
    );
}

#[test]
fn alternate_function_codes() {
    // On pin 0 the field sits at bit 0 of register 0, so the register
    // value equals the function code: 0b100, 0b101, 0b110, 0b111, 0b011,
    // 0b010 for alternate functions 0 through 5.
    let mut regs = GpioRegisters::new();
    let expected = [0b100u32, 0b101, 0b110, 0b111, 0b011, 0b010];
    let p0 = Pin::new(0).into_alt_f0(&mut regs);
    assert_eq!(regs.read(0x00), expected[0]);
    let p1 = Pin::new(0).into_alt_f1(&mut regs);
    assert_eq!(regs.read(0x00), expected[1]);
    let p2 = Pin::new(0).into_alt_f2(&mut regs);
    assert_eq!(regs.read(0x00), expected[2]);
    let p3 = Pin::new(0).into_alt_f3(&mut regs);
    assert_eq!(regs.read(0x00), expected[3]);
    let p4 = Pin::new(0).into_alt_f4(&mut regs);
    assert_eq!(regs.read(0x00), expected[4]);
    let p5 = Pin::new(0).into_alt_f5(&mut regs);
    assert_eq!(regs.read(0x00), expected[5]);
    assert_eq!(regs.log_len(), 6);
    let _ = (p0, p1, p2, p3, p4, p5);
}

#[test]
fn alt_function_six_rejected_without_register_write() {
    for id in [0u32, 17, 40, 53] {
        let mut regs = GpioRegisters::new();
        assert_eq!(
            select_alt_function(&mut regs, id, 6),
            Err(GpioError::UnsupportedAltFunction)
        );
        assert_eq!(
            select_alt_function(&mut regs, id, 7),
            Err(GpioError::UnsupportedAltFunction)
        );
        assert_eq!(
            select_alt_function(&mut regs, id, u32::MAX),
            Err(GpioError::UnsupportedAltFunction)
        );
        assert_eq!(regs.log_len(), 0);
    }
}

#[test]
fn select_alt_function_writes_once_when_supported() {
    let mut regs = GpioRegisters::new();
    assert_eq!(select_alt_function(&mut regs, 10, 2), Ok(()));
    assert_eq!(regs.log_len(), 1);
    // Pin 10: register 1, bit offset 0, code 0b110.
    assert_eq!(regs.log_entry(0), RegOp::Write { offset: 0x04, value: 0b110 });
}

#[test]
fn pull_up_handshake_for_pin_33() {
    // Pin 33 is in bank 1: clock register 0x9C, mask 1 << 1.  The
    // six-step handshake: control code, settle, clock bit, settle,
    // control cleared, clock bit again.
    let mut regs = GpioRegisters::new();
    let pin = Pin::new(33);
    let _p = pin.into_pud_up(&mut regs);
    assert_eq!(regs.log_len(), 6);
    assert_eq!(regs.log_entry(0), RegOp::Write { offset: 0x94, value: 0b10 });
    assert_eq!(regs.log_entry(1), RegOp::Settle);
    assert_eq!(regs.log_entry(2), RegOp::Write { offset: 0x9C, value: 1 << 1 });
    assert_eq!(regs.log_entry(3), RegOp::Settle);
    assert_eq!(regs.log_entry(4), RegOp::Write { offset: 0x94, value: 0 });
    assert_eq!(regs.log_entry(5), RegOp::Write { offset: 0x9C, value: 1 << 1 });
    assert_eq!(regs.read(0x94), 0);
    assert_eq!(regs.read(0x9C), 1 << 1);
}

#[test]
fn pull_codes_down_and_disabled() {
    let mut regs = GpioRegisters::new();
    let _down = Pin::new(17).into_pud_down(&mut regs);
    assert_eq!(regs.log_entry(0), RegOp::Write { offset: 0x94, value: 0b01 });
    assert_eq!(regs.log_entry(2), RegOp::Write { offset: 0x98, value: 1 << 17 });
    let start = regs.log_len();
    let _dis = Pin::new(17).into_pud_disabled(&mut regs);
    assert_eq!(regs.log_entry(start), RegOp::Write { offset: 0x94, value: 0 });
}

#[test]
fn high_low_toggle_on_output_pin() {
    let mut regs = GpioRegisters::new();
    let out = Pin::new(17).into_output(&mut regs);
    let base = regs.log_len();

    out.high(&mut regs);
    assert_eq!(
        regs.log_entry(base),
        RegOp::Write { offset: 0x1C, value: 1 << 17 }
    );
    assert_ne!(regs.read(0x34) & (1 << 17), 0);

    out.toggle(&mut regs);
    assert_eq!(
        regs.log_entry(base + 1),
        RegOp::Write { offset: 0x28, value: 1 << 17 }
    );
    assert_eq!(regs.read(0x34) & (1 << 17), 0);

    out.toggle(&mut regs);
    assert_eq!(
        regs.log_entry(base + 2),
        RegOp::Write { offset: 0x1C, value: 1 << 17 }
    );
    assert_ne!(regs.read(0x34) & (1 << 17), 0);

    out.low(&mut regs);
    assert_eq!(
        regs.log_entry(base + 3),
        RegOp::Write { offset: 0x28, value: 1 << 17 }
    );
    assert_eq!(regs.read(0x34) & (1 << 17), 0);
}

#[test]
fn bank1_output_uses_bank1_registers() {
    let mut regs = GpioRegisters::new();
    let out = Pin::new(40).into_output(&mut regs);
    let base = regs.log_len();
    out.high(&mut regs);
    assert_eq!(
        regs.log_entry(base),
        RegOp::Write { offset: 0x20, value: 1 << 8 }
    );
    assert_ne!(regs.read(0x38) & (1 << 8), 0);
    out.low(&mut regs);
    assert_eq!(
        regs.log_entry(base + 1),
        RegOp::Write { offset: 0x2C, value: 1 << 8 }
    );
    assert_eq!(regs.read(0x38) & (1 << 8), 0);
}

#[test]
fn is_high_reads_latched_level() {
    let mut regs = GpioRegisters::new();
    let inp = Pin::new(35).into_input(&mut regs);
    assert!(!inp.is_high(&regs));
    regs.latch_levels(1, 1 << 3);
    assert!(inp.is_high(&regs));
    regs.latch_levels(1, 0);
    assert!(!inp.is_high(&regs));
}

#[test]
fn pin_id_is_kept_through_transitions() {
    let mut regs = GpioRegisters::new();
    let pin = Pin::new(12);
    assert_eq!(pin.pin_id(), 12);
    let inp = pin.into_input(&mut regs);
    assert_eq!(inp.pin_id(), 12);
    let pulled = inp.into_pud_up(&mut regs);
    assert_eq!(pulled.pin_id(), 12);
}
