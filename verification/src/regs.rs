//! Model of the peripheral's memory-mapped register block.
//!
//! [`GpioRegisters`] keeps a word-for-word mirror of the register block
//! together with an ordered log of every hardware write the driver logic
//! decides to perform.  The verified driver code reads the mirror and
//! appends to the log; an unverified platform layer replays the log onto
//! the real registers (and feeds hardware-driven registers back into the
//! mirror through the `latch_*` functions).
//!
//! Offsets are relative to the board-specific base address of the block.

use vstd::pervasive::VecAdditionalExecFns;
use vstd::prelude::*;

verus! {

/// Number of 32-bit words in the register block (offsets `0x00..=0x9C`).
pub const REG_WORDS: usize = 40;

/// Function-select register for pins 0..=9.
pub const GPFSEL0: u32 = 0x00;
/// Function-select register for pins 10..=19.
pub const GPFSEL1: u32 = 0x04;
/// Function-select register for pins 20..=29.
pub const GPFSEL2: u32 = 0x08;
/// Function-select register for pins 30..=39.
pub const GPFSEL3: u32 = 0x0C;
/// Function-select register for pins 40..=49.
pub const GPFSEL4: u32 = 0x10;
/// Function-select register for pins 50..=53.
pub const GPFSEL5: u32 = 0x14;
/// Output set register, bank 0.
pub const GPSET0: u32 = 0x1C;
/// Output set register, bank 1.
pub const GPSET1: u32 = 0x20;
/// Output clear register, bank 0.
pub const GPCLR0: u32 = 0x28;
/// Output clear register, bank 1.
pub const GPCLR1: u32 = 0x2C;
/// Pin level register, bank 0 (read-only).
pub const GPLEV0: u32 = 0x34;
/// Pin level register, bank 1 (read-only).
pub const GPLEV1: u32 = 0x38;
/// Event detect status register, bank 0 (write a bit to acknowledge it).
pub const GPEDS0: u32 = 0x40;
/// Event detect status register, bank 1 (write a bit to acknowledge it).
pub const GPEDS1: u32 = 0x44;
/// Rising edge detect enable register, bank 0.
pub const GPREN0: u32 = 0x4C;
/// Rising edge detect enable register, bank 1.
pub const GPREN1: u32 = 0x50;
/// Falling edge detect enable register, bank 0.
pub const GPFEN0: u32 = 0x58;
/// Falling edge detect enable register, bank 1.
pub const GPFEN1: u32 = 0x5C;
/// High level detect enable register, bank 0.
pub const GPHEN0: u32 = 0x64;
/// High level detect enable register, bank 1.
pub const GPHEN1: u32 = 0x68;
/// Low level detect enable register, bank 0.
pub const GPLEN0: u32 = 0x70;
/// Low level detect enable register, bank 1.
pub const GPLEN1: u32 = 0x74;
/// Async rising edge detect enable register, bank 0.
pub const GPAREN0: u32 = 0x7C;
/// Async rising edge detect enable register, bank 1.
pub const GPAREN1: u32 = 0x80;
/// Async falling edge detect enable register, bank 0.
pub const GPAFEN0: u32 = 0x88;
/// Async falling edge detect enable register, bank 1.
pub const GPAFEN1: u32 = 0x8C;
/// Pull-up/down control register (2-bit field).
pub const GPPUD: u32 = 0x94;
/// Pull-up/down clock register, bank 0.
pub const GPPUDCLK0: u32 = 0x98;
/// Pull-up/down clock register, bank 1.
pub const GPPUDCLK1: u32 = 0x9C;

/// Offset of the function-select register covering pin `10 * index`.
pub open spec fn fsel_off(index: u32) -> u32 {
    (4 * index) as u32
}

/// Offset of the output set register of `bank`.
pub open spec fn set_off(bank: u32) -> u32 {
    if bank == 0 {
        GPSET0
    } else {
        GPSET1
    }
}

/// Offset of the output clear register of `bank`.
pub open spec fn clear_off(bank: u32) -> u32 {
    if bank == 0 {
        GPCLR0
    } else {
        GPCLR1
    }
}

/// Offset of the level register of `bank`.
pub open spec fn level_off(bank: u32) -> u32 {
    if bank == 0 {
        GPLEV0
    } else {
        GPLEV1
    }
}

/// Offset of the event detect status register of `bank`.
pub open spec fn status_off(bank: u32) -> u32 {
    if bank == 0 {
        GPEDS0
    } else {
        GPEDS1
    }
}

/// Offset of the rising edge detect enable register of `bank`.
pub open spec fn rising_off(bank: u32) -> u32 {
    if bank == 0 {
        GPREN0
    } else {
        GPREN1
    }
}

/// Offset of the falling edge detect enable register of `bank`.
pub open spec fn falling_off(bank: u32) -> u32 {
    if bank == 0 {
        GPFEN0
    } else {
        GPFEN1
    }
}

/// Offset of the high level detect enable register of `bank`.
pub open spec fn high_detect_off(bank: u32) -> u32 {
    if bank == 0 {
        GPHEN0
    } else {
        GPHEN1
    }
}

/// Offset of the low level detect enable register of `bank`.
pub open spec fn low_detect_off(bank: u32) -> u32 {
    if bank == 0 {
        GPLEN0
    } else {
        GPLEN1
    }
}

/// Offset of the async rising edge detect enable register of `bank`.
pub open spec fn async_rising_off(bank: u32) -> u32 {
    if bank == 0 {
        GPAREN0
    } else {
        GPAREN1
    }
}

/// Offset of the async falling edge detect enable register of `bank`.
pub open spec fn async_falling_off(bank: u32) -> u32 {
    if bank == 0 {
        GPAFEN0
    } else {
        GPAFEN1
    }
}

/// Offset of the pull-up/down clock register of `bank`.
pub open spec fn pull_clock_off(bank: u32) -> u32 {
    if bank == 0 {
        GPPUDCLK0
    } else {
        GPPUDCLK1
    }
}

/// Compute [`fsel_off`] for the function-select register `index`.
pub fn fsel_offset(index: u32) -> (r: u32)
    requires
        index < 6,
    ensures
        r == fsel_off(index),
{
    4 * index
}

/// Compute [`set_off`] for `bank`.
pub fn set_offset(bank: u32) -> (r: u32)
    requires
        bank < 2,
    ensures
        r == set_off(bank),
{
    if bank == 0 {
        GPSET0
    } else {
        GPSET1
    }
}

/// Compute [`clear_off`] for `bank`.
pub fn clear_offset(bank: u32) -> (r: u32)
    requires
        bank < 2,
    ensures
        r == clear_off(bank),
{
    if bank == 0 {
        GPCLR0
    } else {
        GPCLR1
    }
}

/// Compute [`level_off`] for `bank`.
pub fn level_offset(bank: u32) -> (r: u32)
    requires
        bank < 2,
    ensures
        r == level_off(bank),
{
    if bank == 0 {
        GPLEV0
    } else {
        GPLEV1
    }
}

/// Compute [`status_off`] for `bank`.
pub fn status_offset(bank: u32) -> (r: u32)
    requires
        bank < 2,
    ensures
        r == status_off(bank),
{
    if bank == 0 {
        GPEDS0
    } else {
        GPEDS1
    }
}

/// Compute [`rising_off`] for `bank`.
pub fn rising_offset(bank: u32) -> (r: u32)
    requires
        bank < 2,
    ensures
        r == rising_off(bank),
{
    if bank == 0 {
        GPREN0
    } else {
        GPREN1
    }
}

/// Compute [`falling_off`] for `bank`.
pub fn falling_offset(bank: u32) -> (r: u32)
    requires
        bank < 2,
    ensures
        r == falling_off(bank),
{
    if bank == 0 {
        GPFEN0
    } else {
        GPFEN1
    }
}

/// Compute [`high_detect_off`] for `bank`.
pub fn high_detect_offset(bank: u32) -> (r: u32)
    requires
        bank < 2,
    ensures
        r == high_detect_off(bank),
{
    if bank == 0 {
        GPHEN0
    } else {
        GPHEN1
    }
}

/// Compute [`low_detect_off`] for `bank`.
pub fn low_detect_offset(bank: u32) -> (r: u32)
    requires
        bank < 2,
    ensures
        r == low_detect_off(bank),
{
    if bank == 0 {
        GPLEN0
    } else {
        GPLEN1
    }
}

/// Compute [`async_rising_off`] for `bank`.
pub fn async_rising_offset(bank: u32) -> (r: u32)
    requires
        bank < 2,
    ensures
        r == async_rising_off(bank),
{
    if bank == 0 {
        GPAREN0
    } else {
        GPAREN1
    }
}

/// Compute [`async_falling_off`] for `bank`.
pub fn async_falling_offset(bank: u32) -> (r: u32)
    requires
        bank < 2,
    ensures
        r == async_falling_off(bank),
{
    if bank == 0 {
        GPAFEN0
    } else {
        GPAFEN1
    }
}

/// Compute [`pull_clock_off`] for `bank`.
pub fn pull_clock_offset(bank: u32) -> (r: u32)
    requires
        bank < 2,
    ensures
        r == pull_clock_off(bank),
{
    if bank == 0 {
        GPPUDCLK0
    } else {
        GPPUDCLK1
    }
}

/// One step of the hardware programming sequence the driver decided on:
/// either a 32-bit store to a register of the block, or a fixed settle
/// delay (the pull handshake's "long enough" busy wait).
#[derive(Clone, Copy, Debug, PartialEq, Eq, Structural)]
pub enum RegOp {
    /// Store `value` to the register at `offset`.
    Write { offset: u32, value: u32 },
    /// Hold for the fixed settle delay.
    Settle,
}

/// The register-block mirror and write log.
pub struct GpioRegisters {
    words: Vec<u32>,
    log: Vec<RegOp>,
}

/// The mirror's view of the register word at `off` after storing `value`
/// there.  Stores to the set/clear registers act on the level words,
/// stores to a status register acknowledge (clear) the bits written, and
/// every other store replaces the word.
pub open spec fn write_effect(words: Seq<u32>, off: u32, value: u32) -> Seq<u32> {
    let lev0 = GPLEV0 as int / 4;
    let lev1 = GPLEV1 as int / 4;
    if off == GPSET0 {
        words.update(lev0, words[lev0] | value)
    } else if off == GPSET1 {
        words.update(lev1, words[lev1] | value)
    } else if off == GPCLR0 {
        words.update(lev0, words[lev0] & !value)
    } else if off == GPCLR1 {
        words.update(lev1, words[lev1] & !value)
    } else if off == GPEDS0 || off == GPEDS1 {
        words.update(off as int / 4, words[off as int / 4] & !value)
    } else {
        words.update(off as int / 4, value)
    }
}

/// True for offsets of registers that a driver may store to: every word
/// of the block except the read-only level registers.
pub open spec fn writable(off: u32) -> bool {
    off % 4 == 0 && off <= 0x9C && off != GPLEV0 && off != GPLEV1
}

/// True for offsets of plain read/write registers, where a store simply
/// replaces the word (no set/clear or acknowledge semantics).
pub open spec fn plain_reg(off: u32) -> bool {
    writable(off) && off != GPSET0 && off != GPSET1 && off != GPCLR0 && off != GPCLR1 && off
        != GPEDS0 && off != GPEDS1
}

impl GpioRegisters {
    /// The mirrored register words, indexed by offset / 4.
    pub closed spec fn mirror(self) -> Seq<u32> {
        self.words@
    }

    /// The ordered log of hardware operations decided on so far.
    pub closed spec fn log(self) -> Seq<RegOp> {
        self.log@
    }

    /// The mirrored value of the register at offset `off`.
    pub open spec fn reg(self, off: u32) -> u32 {
        self.mirror()[off as int / 4]
    }

    pub open spec fn wf(self) -> bool {
        self.mirror().len() == REG_WORDS
    }

    /// A fresh mirror: every word zero, no operations logged.
    pub fn new() -> (r: Self)
        ensures
            r.wf(),
            r.log() == Seq::<RegOp>::empty(),
            forall|i: int| 0 <= i < REG_WORDS ==> r.mirror()[i] == 0u32,
    {
        let mut words: Vec<u32> = Vec::new();
        let mut i: usize = 0;
        while i < REG_WORDS
            invariant
                i <= REG_WORDS,
                words@.len() == i,
                forall|j: int| 0 <= j < i ==> words@[j] == 0u32,
            decreases REG_WORDS - i,
        {
            words.push(0);
            i += 1;
        }
        GpioRegisters { words, log: Vec::new() }
    }

    /// Read the mirrored value of the register at `off`.
    pub fn read(&self, off: u32) -> (r: u32)
        requires
            self.wf(),
            off % 4 == 0,
            off <= 0x9C,
        ensures
            r == self.reg(off),
    {
        self.words[(off / 4) as usize]
    }

    /// Decide on a store of `value` to the register at `off`: the store is
    /// appended to the log and its effect applied to the mirror.
    pub fn write(&mut self, off: u32, value: u32)
        requires
            old(self).wf(),
            writable(off),
        ensures
            final(self).wf(),
            final(self).mirror() == write_effect(old(self).mirror(), off, value),
            final(self).log() == old(self).log() + seq![RegOp::Write { offset: off, value }],
    {
        if off == GPSET0 {
            let lidx = (GPLEV0 / 4) as usize;
            let w = self.words[lidx] | value;
            self.words.set(lidx, w);
        } else if off == GPSET1 {
            let lidx = (GPLEV1 / 4) as usize;
            let w = self.words[lidx] | value;
            self.words.set(lidx, w);
        } else if off == GPCLR0 {
            let lidx = (GPLEV0 / 4) as usize;
            let w = self.words[lidx] & !value;
            self.words.set(lidx, w);
        } else if off == GPCLR1 {
            let lidx = (GPLEV1 / 4) as usize;
            let w = self.words[lidx] & !value;
            self.words.set(lidx, w);
        } else if off == GPEDS0 || off == GPEDS1 {
            let idx = (off / 4) as usize;
            let w = self.words[idx] & !value;
            self.words.set(idx, w);
        } else {
            let idx = (off / 4) as usize;
            self.words.set(idx, value);
        }
        self.log.push(RegOp::Write { offset: off, value });
    }

    /// Read-modify-write that sets bit `bit` of the plain register at `off`.
    pub fn set_bit(&mut self, off: u32, bit: u32)
        requires
            old(self).wf(),
            plain_reg(off),
            bit < 32,
        ensures
            final(self).wf(),
            final(self).mirror() == old(self).mirror().update(
                off as int / 4,
                old(self).reg(off) | (1u32 << bit),
            ),
            final(self).log() == old(self).log() + seq![
                RegOp::Write { offset: off, value: old(self).reg(off) | (1u32 << bit) },
            ],
    {
        let w = self.read(off) | (1u32 << bit);
        self.write(off, w);
    }

    /// Read-modify-write that clears bit `bit` of the plain register at `off`.
    pub fn clear_bit(&mut self, off: u32, bit: u32)
        requires
            old(self).wf(),
            plain_reg(off),
            bit < 32,
        ensures
            final(self).wf(),
            final(self).mirror() == old(self).mirror().update(
                off as int / 4,
                old(self).reg(off) & !(1u32 << bit),
            ),
            final(self).log() == old(self).log() + seq![
                RegOp::Write { offset: off, value: old(self).reg(off) & !(1u32 << bit) },
            ],
    {
        let w = self.read(off) & !(1u32 << bit);
        self.write(off, w);
    }

    /// Decide on the fixed settle delay of the pull handshake.
    pub fn settle(&mut self)
        requires
            old(self).wf(),
        ensures
            final(self).wf(),
            final(self).mirror() == old(self).mirror(),
            final(self).log() == old(self).log() + seq![RegOp::Settle],
    {
        self.log.push(RegOp::Settle);
    }

    /// Feed the hardware-latched event status word of `bank` into the
    /// mirror (an interrupt entry reads the real status register and
    /// loads it here before dispatching).
    pub fn latch_events(&mut self, bank: u32, value: u32)
        requires
            old(self).wf(),
            bank < 2,
        ensures
            final(self).wf(),
            final(self).mirror() == old(self).mirror().update(
                (if bank == 0 { GPEDS0 } else { GPEDS1 }) as int / 4,
                value,
            ),
            final(self).log() == old(self).log(),
    {
        let off = if bank == 0 { GPEDS0 } else { GPEDS1 };
        self.words.set((off / 4) as usize, value);
    }

    /// Feed the hardware-driven level word of `bank` into the mirror.
    pub fn latch_levels(&mut self, bank: u32, value: u32)
        requires
            old(self).wf(),
            bank < 2,
        ensures
            final(self).wf(),
            final(self).mirror() == old(self).mirror().update(
                (if bank == 0 { GPLEV0 } else { GPLEV1 }) as int / 4,
                value,
            ),
            final(self).log() == old(self).log(),
    {
        let off = if bank == 0 { GPLEV0 } else { GPLEV1 };
        self.words.set((off / 4) as usize, value);
    }

    /// Number of operations logged so far.
    pub fn log_len(&self) -> (n: usize)
        ensures
            n == self.log().len(),
    {
        self.log.len()
    }

    /// The `i`-th logged operation.
    pub fn log_entry(&self, i: usize) -> (r: RegOp)
        requires
            i < self.log().len(),
        ensures
            r == self.log()[i as int],
    {
        self.log[i]
    }
}

} // verus!
