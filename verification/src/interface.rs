//! Event-detect register logic.
//!
//! Arms and disarms the per-pin detect-enable bits of a bank, and reads
//! and acknowledges the bank's event status register.  Every function
//! states exactly which read-modify-write stores it performs, over the
//! register mirror of [`crate::regs::GpioRegisters`].

use vstd::prelude::*;

use crate::GpioEvent;
use crate::regs::{
    GpioRegisters, RegOp, async_falling_off, async_falling_offset, async_rising_off,
    async_rising_offset, falling_off, falling_offset, high_detect_off, high_detect_offset,
    low_detect_off, low_detect_offset, rising_off, rising_offset, status_off, status_offset,
};

verus! {

/// `words` with bit `bit` of the register at `off` set.
pub open spec fn with_bit_set(words: Seq<u32>, off: u32, bit: u32) -> Seq<u32> {
    words.update(off as int / 4, words[off as int / 4] | (1u32 << bit))
}

/// `words` with bit `bit` of the register at `off` cleared.
pub open spec fn with_bit_clear(words: Seq<u32>, off: u32, bit: u32) -> Seq<u32> {
    words.update(off as int / 4, words[off as int / 4] & !(1u32 << bit))
}

/// The logged store of a read-modify-write that sets bit `bit` of the
/// register at `off`, starting from mirror `words`.
pub open spec fn set_bit_op(words: Seq<u32>, off: u32, bit: u32) -> RegOp {
    RegOp::Write { offset: off, value: words[off as int / 4] | (1u32 << bit) }
}

/// The logged store of a read-modify-write that clears bit `bit` of the
/// register at `off`, starting from mirror `words`.
pub open spec fn clear_bit_op(words: Seq<u32>, off: u32, bit: u32) -> RegOp {
    RegOp::Write { offset: off, value: words[off as int / 4] & !(1u32 << bit) }
}

/// The register mirror after arming detection of `event` for pin-in-bank
/// `slot` of `bank`.  Composite events arm two registers, rising before
/// falling.
pub open spec fn activate_state(words: Seq<u32>, bank: u32, slot: u32, event: GpioEvent) -> Seq<
    u32,
> {
    match event {
        GpioEvent::RisingEdge => with_bit_set(words, rising_off(bank), slot),
        GpioEvent::FallingEdge => with_bit_set(words, falling_off(bank), slot),
        GpioEvent::BothEdges => with_bit_set(
            with_bit_set(words, rising_off(bank), slot),
            falling_off(bank),
            slot,
        ),
        GpioEvent::High => with_bit_set(words, high_detect_off(bank), slot),
        GpioEvent::Low => with_bit_set(words, low_detect_off(bank), slot),
        GpioEvent::AsyncRisingEdge => with_bit_set(words, async_rising_off(bank), slot),
        GpioEvent::AsyncFallingEdge => with_bit_set(words, async_falling_off(bank), slot),
        GpioEvent::AsyncBothEdges => with_bit_set(
            with_bit_set(words, async_rising_off(bank), slot),
            async_falling_off(bank),
            slot,
        ),
    }
}

/// The stores logged while arming detection of `event`, in order.
pub open spec fn activate_log(words: Seq<u32>, bank: u32, slot: u32, event: GpioEvent) -> Seq<
    RegOp,
> {
    match event {
        GpioEvent::RisingEdge => seq![set_bit_op(words, rising_off(bank), slot)],
        GpioEvent::FallingEdge => seq![set_bit_op(words, falling_off(bank), slot)],
        GpioEvent::BothEdges => seq![
            set_bit_op(words, rising_off(bank), slot),
            set_bit_op(with_bit_set(words, rising_off(bank), slot), falling_off(bank), slot),
        ],
        GpioEvent::High => seq![set_bit_op(words, high_detect_off(bank), slot)],
        GpioEvent::Low => seq![set_bit_op(words, low_detect_off(bank), slot)],
        GpioEvent::AsyncRisingEdge => seq![set_bit_op(words, async_rising_off(bank), slot)],
        GpioEvent::AsyncFallingEdge => seq![set_bit_op(words, async_falling_off(bank), slot)],
        GpioEvent::AsyncBothEdges => seq![
            set_bit_op(words, async_rising_off(bank), slot),
            set_bit_op(
                with_bit_set(words, async_rising_off(bank), slot),
                async_falling_off(bank),
                slot,
            ),
        ],
    }
}

/// The register mirror after disarming detection of `event` for
/// pin-in-bank `slot` of `bank`.
pub open spec fn deactivate_state(words: Seq<u32>, bank: u32, slot: u32, event: GpioEvent) -> Seq<
    u32,
> {
    match event {
        GpioEvent::RisingEdge => with_bit_clear(words, rising_off(bank), slot),
        GpioEvent::FallingEdge => with_bit_clear(words, falling_off(bank), slot),
        GpioEvent::BothEdges => with_bit_clear(
            with_bit_clear(words, rising_off(bank), slot),
            falling_off(bank),
            slot,
        ),
        GpioEvent::High => with_bit_clear(words, high_detect_off(bank), slot),
        GpioEvent::Low => with_bit_clear(words, low_detect_off(bank), slot),
        GpioEvent::AsyncRisingEdge => with_bit_clear(words, async_rising_off(bank), slot),
        GpioEvent::AsyncFallingEdge => with_bit_clear(words, async_falling_off(bank), slot),
        GpioEvent::AsyncBothEdges => with_bit_clear(
            with_bit_clear(words, async_rising_off(bank), slot),
            async_falling_off(bank),
            slot,
        ),
    }
}

/// The stores logged while disarming detection of `event`, in order.
pub open spec fn deactivate_log(words: Seq<u32>, bank: u32, slot: u32, event: GpioEvent) -> Seq<
    RegOp,
> {
    match event {
        GpioEvent::RisingEdge => seq![clear_bit_op(words, rising_off(bank), slot)],
        GpioEvent::FallingEdge => seq![clear_bit_op(words, falling_off(bank), slot)],
        GpioEvent::BothEdges => seq![
            clear_bit_op(words, rising_off(bank), slot),
            clear_bit_op(with_bit_clear(words, rising_off(bank), slot), falling_off(bank), slot),
        ],
        GpioEvent::High => seq![clear_bit_op(words, high_detect_off(bank), slot)],
        GpioEvent::Low => seq![clear_bit_op(words, low_detect_off(bank), slot)],
        GpioEvent::AsyncRisingEdge => seq![clear_bit_op(words, async_rising_off(bank), slot)],
        GpioEvent::AsyncFallingEdge => seq![clear_bit_op(words, async_falling_off(bank), slot)],
        GpioEvent::AsyncBothEdges => seq![
            clear_bit_op(words, async_rising_off(bank), slot),
            clear_bit_op(
                with_bit_clear(words, async_rising_off(bank), slot),
                async_falling_off(bank),
                slot,
            ),
        ],
    }
}

/// The register mirror after disarming every detect kind for pin-in-bank
/// `slot` of `bank`: one read-modify-write per enable register, in the
/// fixed order rising, falling, high, low, async rising, async falling.
pub open spec fn deactivate_all_state(words: Seq<u32>, bank: u32, slot: u32) -> Seq<u32> {
    let w1 = with_bit_clear(words, rising_off(bank), slot);
    let w2 = with_bit_clear(w1, falling_off(bank), slot);
    let w3 = with_bit_clear(w2, high_detect_off(bank), slot);
    let w4 = with_bit_clear(w3, low_detect_off(bank), slot);
    let w5 = with_bit_clear(w4, async_rising_off(bank), slot);
    with_bit_clear(w5, async_falling_off(bank), slot)
}

/// The six stores logged while disarming every detect kind, in order.
pub open spec fn deactivate_all_log(words: Seq<u32>, bank: u32, slot: u32) -> Seq<RegOp> {
    let w1 = with_bit_clear(words, rising_off(bank), slot);
    let w2 = with_bit_clear(w1, falling_off(bank), slot);
    let w3 = with_bit_clear(w2, high_detect_off(bank), slot);
    let w4 = with_bit_clear(w3, low_detect_off(bank), slot);
    let w5 = with_bit_clear(w4, async_rising_off(bank), slot);
    seq![
        clear_bit_op(words, rising_off(bank), slot),
        clear_bit_op(w1, falling_off(bank), slot),
        clear_bit_op(w2, high_detect_off(bank), slot),
        clear_bit_op(w3, low_detect_off(bank), slot),
        clear_bit_op(w4, async_rising_off(bank), slot),
        clear_bit_op(w5, async_falling_off(bank), slot),
    ]
}

/// Arm event detection of `event` for `pin` in its bank's enable
/// registers.
pub fn activate_detect_event(regs: &mut GpioRegisters, pin: u32, event: GpioEvent)
    requires
        old(regs).wf(),
        pin < 54,
    ensures
        final(regs).wf(),
        final(regs).mirror() == activate_state(old(regs).mirror(), pin / 32, pin % 32, event),
        final(regs).log() == old(regs).log() + activate_log(
            old(regs).mirror(),
            pin / 32,
            pin % 32,
            event,
        ),
{
    let bank = pin / 32;
    let slot = pin % 32;
    match event {
        GpioEvent::RisingEdge => regs.set_bit(rising_offset(bank), slot),
        GpioEvent::FallingEdge => regs.set_bit(falling_offset(bank), slot),
        GpioEvent::BothEdges => {
            regs.set_bit(rising_offset(bank), slot);
            regs.set_bit(falling_offset(bank), slot);
        },
        GpioEvent::High => regs.set_bit(high_detect_offset(bank), slot),
        GpioEvent::Low => regs.set_bit(low_detect_offset(bank), slot),
        GpioEvent::AsyncRisingEdge => regs.set_bit(async_rising_offset(bank), slot),
        GpioEvent::AsyncFallingEdge => regs.set_bit(async_falling_offset(bank), slot),
        GpioEvent::AsyncBothEdges => {
            regs.set_bit(async_rising_offset(bank), slot);
            regs.set_bit(async_falling_offset(bank), slot);
        },
    }
    proof {
        assert(regs.log() =~= old(regs).log() + activate_log(
            old(regs).mirror(),
            pin / 32,
            pin % 32,
            event,
        ));
    }
}

/// Disarm event detection of `event` for `pin`.
pub fn deactivate_detect_event(regs: &mut GpioRegisters, pin: u32, event: GpioEvent)
    requires
        old(regs).wf(),
        pin < 54,
    ensures
        final(regs).wf(),
        final(regs).mirror() == deactivate_state(old(regs).mirror(), pin / 32, pin % 32, event),
        final(regs).log() == old(regs).log() + deactivate_log(
            old(regs).mirror(),
            pin / 32,
            pin % 32,
            event,
        ),
{
    let bank = pin / 32;
    let slot = pin % 32;
    match event {
        GpioEvent::RisingEdge => regs.clear_bit(rising_offset(bank), slot),
        GpioEvent::FallingEdge => regs.clear_bit(falling_offset(bank), slot),
        GpioEvent::BothEdges => {
            regs.clear_bit(rising_offset(bank), slot);
            regs.clear_bit(falling_offset(bank), slot);
        },
        GpioEvent::High => regs.clear_bit(high_detect_offset(bank), slot),
        GpioEvent::Low => regs.clear_bit(low_detect_offset(bank), slot),
        GpioEvent::AsyncRisingEdge => regs.clear_bit(async_rising_offset(bank), slot),
        GpioEvent::AsyncFallingEdge => regs.clear_bit(async_falling_offset(bank), slot),
        GpioEvent::AsyncBothEdges => {
            regs.clear_bit(async_rising_offset(bank), slot);
            regs.clear_bit(async_falling_offset(bank), slot);
        },
    }
    proof {
        assert(regs.log() =~= old(regs).log() + deactivate_log(
            old(regs).mirror(),
            pin / 32,
            pin % 32,
            event,
        ));
    }
}

/// Disarm every detect kind for `pin` across its bank's six enable
/// registers.
pub fn deactivate_all_detect_events(regs: &mut GpioRegisters, pin: u32)
    requires
        old(regs).wf(),
        pin < 54,
    ensures
        final(regs).wf(),
        final(regs).mirror() == deactivate_all_state(old(regs).mirror(), pin / 32, pin % 32),
        final(regs).log() == old(regs).log() + deactivate_all_log(
            old(regs).mirror(),
            pin / 32,
            pin % 32,
        ),
{
    let bank = pin / 32;
    let slot = pin % 32;
    regs.clear_bit(rising_offset(bank), slot);
    regs.clear_bit(falling_offset(bank), slot);
    regs.clear_bit(high_detect_offset(bank), slot);
    regs.clear_bit(low_detect_offset(bank), slot);
    regs.clear_bit(async_rising_offset(bank), slot);
    regs.clear_bit(async_falling_offset(bank), slot);
    proof {
        assert(regs.log() =~= old(regs).log() + deactivate_all_log(
            old(regs).mirror(),
            pin / 32,
            pin % 32,
        ));
    }
}

/// Read the event status word of `bank` from the mirror: one bit per pin
/// that hardware has detected an event on since the last acknowledgment.
pub fn get_detected_events(regs: &GpioRegisters, bank: u32) -> (r: u32)
    requires
        regs.wf(),
        bank < 2,
    ensures
        r == regs.reg(status_off(bank)),
{
    regs.read(status_offset(bank))
}

/// Acknowledge the detected events in `events` by writing the same bit
/// pattern back to the status register of `bank` (write-to-clear).
pub fn acknowledge_detected_events(regs: &mut GpioRegisters, events: u32, bank: u32)
    requires
        old(regs).wf(),
        bank < 2,
    ensures
        final(regs).wf(),
        final(regs).mirror() == old(regs).mirror().update(
            status_off(bank) as int / 4,
            old(regs).reg(status_off(bank)) & !events,
        ),
        final(regs).log() == old(regs).log() + seq![
            RegOp::Write { offset: status_off(bank), value: events },
        ],
{
    regs.write(status_offset(bank), events);
}

} // verus!
