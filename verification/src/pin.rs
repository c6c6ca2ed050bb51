//! The per-pin configuration model.
//!
//! A [`Pin`] carries its id together with the precomputed register
//! selection for that id (function-select register and bit offset, bank,
//! and bit mask).  Its current function and pull state are tracked in the
//! type, so that output-only operations exist only on
//! `Pin<function::Output, _>` and input-only ones on
//! `Pin<function::Input, _>`.  Every transition states the exact
//! read-modify-write stores it performs on the register mirror.

use vstd::prelude::*;

use crate::GpioError;
use crate::function;
use crate::pud;
use crate::regs::{
    GPPUD, GpioRegisters, RegOp, clear_off, clear_offset, fsel_off, fsel_offset, level_off,
    level_offset, pull_clock_off, pull_clock_offset, set_off, set_offset,
};

verus! {

/// Function code written to a pin's function-select field for Input.
pub const FUNC_INPUT: u32 = 0b000;

/// Function code for Output.
pub const FUNC_OUTPUT: u32 = 0b001;

/// Pull code for disabled pull resistors.
pub const PULL_DISABLED: u32 = 0b00;

/// Pull code for the pull-down resistor.
pub const PULL_DOWN: u32 = 0b01;

/// Pull code for the pull-up resistor.
pub const PULL_UP: u32 = 0b10;

/// The bank (0 or 1) owning pin `num`.
pub open spec fn bank_of(num: u32) -> u32 {
    (num / 32) as u32
}

/// The bit position of pin `num` within its bank's registers.
pub open spec fn bit_of(num: u32) -> u32 {
    (num % 32) as u32
}

/// The single-bit mask of pin `num` within its bank's registers.
pub open spec fn mask_of(num: u32) -> u32 {
    1u32 << bit_of(num)
}

/// Index (0..=5) of the function-select register covering pin `num`.
pub open spec fn fsel_index(num: u32) -> u32 {
    (num / 10) as u32
}

/// Bit offset of pin `num`'s 3-bit field within its function-select
/// register.
pub open spec fn fsel_shift(num: u32) -> u32 {
    ((num % 10) * 3) as u32
}

/// The function code written to a function-select field for alternate
/// function `alt` (0..=5).
pub open spec fn alt_code(alt: u32) -> u32 {
    if alt == 0 {
        0b100u32
    } else if alt == 1 {
        0b101u32
    } else if alt == 2 {
        0b110u32
    } else if alt == 3 {
        0b111u32
    } else if alt == 4 {
        0b011u32
    } else {
        0b010u32
    }
}

/// The value of pin `num`'s function-select register after writing `code`
/// into the pin's 3-bit field (read-modify-write over mirror `words`).
pub open spec fn fsel_value(words: Seq<u32>, num: u32, code: u32) -> u32 {
    (words[fsel_index(num) as int] & !(0b111u32 << fsel_shift(num))) | (code << fsel_shift(num))
}

/// The register mirror after writing function `code` for pin `num`.
pub open spec fn function_write_state(words: Seq<u32>, num: u32, code: u32) -> Seq<u32> {
    words.update(fsel_index(num) as int, fsel_value(words, num, code))
}

/// The single store logged by a function write for pin `num`.
pub open spec fn function_write_op(words: Seq<u32>, num: u32, code: u32) -> RegOp {
    RegOp::Write { offset: fsel_off(fsel_index(num)), value: fsel_value(words, num, code) }
}

/// The value of the pull control register after writing `code` into its
/// 2-bit field.
pub open spec fn pull_control_value(words: Seq<u32>, code: u32) -> u32 {
    (words[GPPUD as int / 4] & !0b11u32) | code
}

/// The register mirror after the six-step pull handshake for pin `num`
/// with pull `code`: control written, settle, the pin's clock bit
/// written, settle, control cleared, clock bit written again.
pub open spec fn pull_sequence_state(words: Seq<u32>, num: u32, code: u32) -> Seq<u32> {
    let clk = pull_clock_off(bank_of(num)) as int / 4;
    let w1 = words.update(GPPUD as int / 4, pull_control_value(words, code));
    let w3 = w1.update(clk, mask_of(num));
    let w5 = w3.update(GPPUD as int / 4, 0u32);
    w5.update(clk, mask_of(num))
}

/// The operations logged by the six-step pull handshake, in order.
pub open spec fn pull_sequence_log(words: Seq<u32>, num: u32, code: u32) -> Seq<RegOp> {
    seq![
        RegOp::Write { offset: GPPUD, value: pull_control_value(words, code) },
        RegOp::Settle,
        RegOp::Write { offset: pull_clock_off(bank_of(num)), value: mask_of(num) },
        RegOp::Settle,
        RegOp::Write { offset: GPPUD, value: 0u32 },
        RegOp::Write { offset: pull_clock_off(bank_of(num)), value: mask_of(num) },
    ]
}

/// A claimed pin.  `F` is its function type state (a marker from
/// [`crate::function`]), `P` its pull type state (from [`crate::pud`]).
pub struct Pin<F, P> {
    num: u32,
    sel_index: u32,
    sel_shift: u32,
    bank: u32,
    mask: u32,
    function: F,
    pud: P,
}

impl<F, P> Pin<F, P> {
    /// The pin's id.
    pub closed spec fn id(self) -> u32 {
        self.num
    }

    /// The precomputed register selection matches the pin's id.
    pub closed spec fn wf(self) -> bool {
        &&& self.num < 54
        &&& self.sel_index == fsel_index(self.num)
        &&& self.sel_shift == fsel_shift(self.num)
        &&& self.bank == bank_of(self.num)
        &&& self.mask == mask_of(self.num)
    }

    /// The pin's id, as a value.
    pub fn pin_id(&self) -> (r: u32)
        ensures
            r == self.id(),
    {
        self.num
    }

    /// Read-modify-write the pin's 3-bit function-select field to `code`.
    fn write_function_code(&self, code: u32, regs: &mut GpioRegisters)
        requires
            self.wf(),
            old(regs).wf(),
            code < 8,
        ensures
            final(regs).wf(),
            final(regs).mirror() == function_write_state(old(regs).mirror(), self.id(), code),
            final(regs).log() == old(regs).log() + seq![
                function_write_op(old(regs).mirror(), self.id(), code),
            ],
    {
        let off = fsel_offset(self.sel_index);
        let w = (regs.read(off) & !(0b111u32 << self.sel_shift)) | (code << self.sel_shift);
        regs.write(off, w);
    }

    /// Switch the pin into an input pin.
    pub fn into_input(self, regs: &mut GpioRegisters) -> (p: Pin<function::Input, P>)
        requires
            self.wf(),
            old(regs).wf(),
        ensures
            p.wf(),
            p.id() == self.id(),
            final(regs).wf(),
            final(regs).mirror() == function_write_state(
                old(regs).mirror(),
                self.id(),
                FUNC_INPUT,
            ),
            final(regs).log() == old(regs).log() + seq![
                function_write_op(old(regs).mirror(), self.id(), FUNC_INPUT),
            ],
    {
        self.write_function_code(FUNC_INPUT, regs);
        Pin {
            num: self.num,
            sel_index: self.sel_index,
            sel_shift: self.sel_shift,
            bank: self.bank,
            mask: self.mask,
            function: function::Input,
            pud: self.pud,
        }
    }

    /// Switch the pin into an output pin.
    pub fn into_output(self, regs: &mut GpioRegisters) -> (p: Pin<function::Output, P>)
        requires
            self.wf(),
            old(regs).wf(),
        ensures
            p.wf(),
            p.id() == self.id(),
            final(regs).wf(),
            final(regs).mirror() == function_write_state(
                old(regs).mirror(),
                self.id(),
                FUNC_OUTPUT,
            ),
            final(regs).log() == old(regs).log() + seq![
                function_write_op(old(regs).mirror(), self.id(), FUNC_OUTPUT),
            ],
    {
        self.write_function_code(FUNC_OUTPUT, regs);
        Pin {
            num: self.num,
            sel_index: self.sel_index,
            sel_shift: self.sel_shift,
            bank: self.bank,
            mask: self.mask,
            function: function::Output,
            pud: self.pud,
        }
    }

    /// Switch the pin to alternate function 0.
    pub fn into_alt_f0(self, regs: &mut GpioRegisters) -> (p: Pin<function::AltFunc0, P>)
        requires
            self.wf(),
            old(regs).wf(),
        ensures
            p.wf(),
            p.id() == self.id(),
            final(regs).wf(),
            final(regs).mirror() == function_write_state(
                old(regs).mirror(),
                self.id(),
                alt_code(0),
            ),
            final(regs).log() == old(regs).log() + seq![
                function_write_op(old(regs).mirror(), self.id(), alt_code(0)),
            ],
    {
        self.write_function_code(0b100, regs);
        Pin {
            num: self.num,
            sel_index: self.sel_index,
            sel_shift: self.sel_shift,
            bank: self.bank,
            mask: self.mask,
            function: function::AltFunc0,
            pud: self.pud,
        }
    }

    /// Switch the pin to alternate function 1.
    pub fn into_alt_f1(self, regs: &mut GpioRegisters) -> (p: Pin<function::AltFunc1, P>)
        requires
            self.wf(),
            old(regs).wf(),
        ensures
            p.wf(),
            p.id() == self.id(),
            final(regs).wf(),
            final(regs).mirror() == function_write_state(
                old(regs).mirror(),
                self.id(),
                alt_code(1),
            ),
            final(regs).log() == old(regs).log() + seq![
                function_write_op(old(regs).mirror(), self.id(), alt_code(1)),
            ],
    {
        self.write_function_code(0b101, regs);
        Pin {
            num: self.num,
            sel_index: self.sel_index,
            sel_shift: self.sel_shift,
            bank: self.bank,
            mask: self.mask,
            function: function::AltFunc1,
            pud: self.pud,
        }
    }

    /// Switch the pin to alternate function 2.
    pub fn into_alt_f2(self, regs: &mut GpioRegisters) -> (p: Pin<function::AltFunc2, P>)
        requires
            self.wf(),
            old(regs).wf(),
        ensures
            p.wf(),
            p.id() == self.id(),
            final(regs).wf(),
            final(regs).mirror() == function_write_state(
                old(regs).mirror(),
                self.id(),
                alt_code(2),
            ),
            final(regs).log() == old(regs).log() + seq![
                function_write_op(old(regs).mirror(), self.id(), alt_code(2)),
            ],
    {
        self.write_function_code(0b110, regs);
        Pin {
            num: self.num,
            sel_index: self.sel_index,
            sel_shift: self.sel_shift,
            bank: self.bank,
            mask: self.mask,
            function: function::AltFunc2,
            pud: self.pud,
        }
    }

    /// Switch the pin to alternate function 3.
    pub fn into_alt_f3(self, regs: &mut GpioRegisters) -> (p: Pin<function::AltFunc3, P>)
        requires
            self.wf(),
            old(regs).wf(),
        ensures
            p.wf(),
            p.id() == self.id(),
            final(regs).wf(),
            final(regs).mirror() == function_write_state(
                old(regs).mirror(),
                self.id(),
                alt_code(3),
            ),
            final(regs).log() == old(regs).log() + seq![
                function_write_op(old(regs).mirror(), self.id(), alt_code(3)),
            ],
    {
        self.write_function_code(0b111, regs);
        Pin {
            num: self.num,
            sel_index: self.sel_index,
            sel_shift: self.sel_shift,
            bank: self.bank,
            mask: self.mask,
            function: function::AltFunc3,
            pud: self.pud,
        }
    }

    /// Switch the pin to alternate function 4.
    pub fn into_alt_f4(self, regs: &mut GpioRegisters) -> (p: Pin<function::AltFunc4, P>)
        requires
            self.wf(),
            old(regs).wf(),
        ensures
            p.wf(),
            p.id() == self.id(),
            final(regs).wf(),
            final(regs).mirror() == function_write_state(
                old(regs).mirror(),
                self.id(),
                alt_code(4),
            ),
            final(regs).log() == old(regs).log() + seq![
                function_write_op(old(regs).mirror(), self.id(), alt_code(4)),
            ],
    {
        self.write_function_code(0b011, regs);
        Pin {
            num: self.num,
            sel_index: self.sel_index,
            sel_shift: self.sel_shift,
            bank: self.bank,
            mask: self.mask,
            function: function::AltFunc4,
            pud: self.pud,
        }
    }

    /// Switch the pin to alternate function 5.
    pub fn into_alt_f5(self, regs: &mut GpioRegisters) -> (p: Pin<function::AltFunc5, P>)
        requires
            self.wf(),
            old(regs).wf(),
        ensures
            p.wf(),
            p.id() == self.id(),
            final(regs).wf(),
            final(regs).mirror() == function_write_state(
                old(regs).mirror(),
                self.id(),
                alt_code(5),
            ),
            final(regs).log() == old(regs).log() + seq![
                function_write_op(old(regs).mirror(), self.id(), alt_code(5)),
            ],
    {
        self.write_function_code(0b010, regs);
        Pin {
            num: self.num,
            sel_index: self.sel_index,
            sel_shift: self.sel_shift,
            bank: self.bank,
            mask: self.mask,
            function: function::AltFunc5,
            pud: self.pud,
        }
    }

    /// Perform the six-step pull handshake with pull `code`.  The
    /// peripheral latches the pull configuration only on this exact
    /// sequence, so it is stated step by step in the contract.
    fn set_pud(&self, code: u32, regs: &mut GpioRegisters)
        requires
            self.wf(),
            old(regs).wf(),
            code <= 2,
        ensures
            final(regs).wf(),
            final(regs).mirror() == pull_sequence_state(old(regs).mirror(), self.id(), code),
            final(regs).log() == old(regs).log() + pull_sequence_log(
                old(regs).mirror(),
                self.id(),
                code,
            ),
    {
        let ctrl = (regs.read(GPPUD) & !0b11u32) | code;
        regs.write(GPPUD, ctrl);
        regs.settle();
        let clk = pull_clock_offset(self.bank);
        regs.write(clk, self.mask);
        regs.settle();
        regs.write(GPPUD, 0);
        regs.write(clk, self.mask);
        proof {
            assert(regs.log() =~= old(regs).log() + pull_sequence_log(
                old(regs).mirror(),
                self.id(),
                code,
            ));
        }
    }

    /// Disable the pull resistors for the pin.
    pub fn into_pud_disabled(self, regs: &mut GpioRegisters) -> (p: Pin<F, pud::Disabled>)
        requires
            self.wf(),
            old(regs).wf(),
        ensures
            p.wf(),
            p.id() == self.id(),
            final(regs).wf(),
            final(regs).mirror() == pull_sequence_state(
                old(regs).mirror(),
                self.id(),
                PULL_DISABLED,
            ),
            final(regs).log() == old(regs).log() + pull_sequence_log(
                old(regs).mirror(),
                self.id(),
                PULL_DISABLED,
            ),
    {
        self.set_pud(PULL_DISABLED, regs);
        Pin {
            num: self.num,
            sel_index: self.sel_index,
            sel_shift: self.sel_shift,
            bank: self.bank,
            mask: self.mask,
            function: self.function,
            pud: pud::Disabled,
        }
    }

    /// Enable the pull-up resistor for the pin.
    pub fn into_pud_up(self, regs: &mut GpioRegisters) -> (p: Pin<F, pud::PullUp>)
        requires
            self.wf(),
            old(regs).wf(),
        ensures
            p.wf(),
            p.id() == self.id(),
            final(regs).wf(),
            final(regs).mirror() == pull_sequence_state(old(regs).mirror(), self.id(), PULL_UP),
            final(regs).log() == old(regs).log() + pull_sequence_log(
                old(regs).mirror(),
                self.id(),
                PULL_UP,
            ),
    {
        self.set_pud(PULL_UP, regs);
        Pin {
            num: self.num,
            sel_index: self.sel_index,
            sel_shift: self.sel_shift,
            bank: self.bank,
            mask: self.mask,
            function: self.function,
            pud: pud::PullUp,
        }
    }

    /// Enable the pull-down resistor for the pin.
    pub fn into_pud_down(self, regs: &mut GpioRegisters) -> (p: Pin<F, pud::PullDown>)
        requires
            self.wf(),
            old(regs).wf(),
        ensures
            p.wf(),
            p.id() == self.id(),
            final(regs).wf(),
            final(regs).mirror() == pull_sequence_state(old(regs).mirror(), self.id(), PULL_DOWN),
            final(regs).log() == old(regs).log() + pull_sequence_log(
                old(regs).mirror(),
                self.id(),
                PULL_DOWN,
            ),
    {
        self.set_pud(PULL_DOWN, regs);
        Pin {
            num: self.num,
            sel_index: self.sel_index,
            sel_shift: self.sel_shift,
            bank: self.bank,
            mask: self.mask,
            function: self.function,
            pud: pud::PullDown,
        }
    }
}

impl Pin<function::Unknown, pud::Unknown> {
    /// Build a pin in unknown function and pull state, with its register
    /// selection computed from the id: function-select register `num / 10`
    /// at bit offset `(num % 10) * 3`, bank `num / 32`, bit `num % 32`.
    pub fn new(num: u32) -> (p: Self)
        requires
            num < 54,
        ensures
            p.wf(),
            p.id() == num,
    {
        Pin {
            num,
            sel_index: num / 10,
            sel_shift: (num % 10) * 3,
            bank: num / 32,
            mask: 1u32 << (num % 32),
            function: function::Unknown,
            pud: pud::Unknown,
        }
    }
}

impl<P> Pin<function::Output, P> {
    /// Drive the pin high by writing its bit to the bank's set register.
    pub fn high(&self, regs: &mut GpioRegisters)
        requires
            self.wf(),
            old(regs).wf(),
        ensures
            final(regs).wf(),
            final(regs).mirror() == old(regs).mirror().update(
                level_off(bank_of(self.id())) as int / 4,
                old(regs).reg(level_off(bank_of(self.id()))) | mask_of(self.id()),
            ),
            final(regs).log() == old(regs).log() + seq![
                RegOp::Write { offset: set_off(bank_of(self.id())), value: mask_of(self.id()) },
            ],
    {
        regs.write(set_offset(self.bank), self.mask);
    }

    /// Drive the pin low by writing its bit to the bank's clear register.
    pub fn low(&self, regs: &mut GpioRegisters)
        requires
            self.wf(),
            old(regs).wf(),
        ensures
            final(regs).wf(),
            final(regs).mirror() == old(regs).mirror().update(
                level_off(bank_of(self.id())) as int / 4,
                old(regs).reg(level_off(bank_of(self.id()))) & !mask_of(self.id()),
            ),
            final(regs).log() == old(regs).log() + seq![
                RegOp::Write { offset: clear_off(bank_of(self.id())), value: mask_of(self.id()) },
            ],
    {
        regs.write(clear_offset(self.bank), self.mask);
    }

    /// Read the pin's current level and drive it to the opposite one.
    pub fn toggle(&self, regs: &mut GpioRegisters)
        requires
            self.wf(),
            old(regs).wf(),
        ensures
            final(regs).wf(),
            old(regs).reg(level_off(bank_of(self.id()))) & mask_of(self.id()) == 0 ==> {
                &&& final(regs).mirror() == old(regs).mirror().update(
                    level_off(bank_of(self.id())) as int / 4,
                    old(regs).reg(level_off(bank_of(self.id()))) | mask_of(self.id()),
                )
                &&& final(regs).log() == old(regs).log() + seq![
                    RegOp::Write {
                        offset: set_off(bank_of(self.id())),
                        value: mask_of(self.id()),
                    },
                ]
            },
            old(regs).reg(level_off(bank_of(self.id()))) & mask_of(self.id()) != 0 ==> {
                &&& final(regs).mirror() == old(regs).mirror().update(
                    level_off(bank_of(self.id())) as int / 4,
                    old(regs).reg(level_off(bank_of(self.id()))) & !mask_of(self.id()),
                )
                &&& final(regs).log() == old(regs).log() + seq![
                    RegOp::Write {
                        offset: clear_off(bank_of(self.id())),
                        value: mask_of(self.id()),
                    },
                ]
            },
    {
        if (regs.read(level_offset(self.bank)) & self.mask) == 0 {
            self.high(regs);
        } else {
            self.low(regs);
        }
    }
}

impl<P> Pin<function::Input, P> {
    /// Whether the pin's bit is set in the bank's level register.
    pub fn is_high(&self, regs: &GpioRegisters) -> (r: bool)
        requires
            self.wf(),
            regs.wf(),
        ensures
            r == (regs.reg(level_off(bank_of(self.id()))) & mask_of(self.id()) != 0),
    {
        (regs.read(level_offset(self.bank)) & self.mask) != 0
    }
}

/// Write alternate function `alt` into the function-select field of
/// `pin`.  An index outside 0..=5 is rejected with
/// [`GpioError::UnsupportedAltFunction`] before any register operation is
/// decided on: the mirror and the log are left untouched.
pub fn select_alt_function(regs: &mut GpioRegisters, pin: u32, alt: u32) -> (r: Result<
    (),
    GpioError,
>)
    requires
        old(regs).wf(),
        pin < 54,
    ensures
        final(regs).wf(),
        alt > 5 ==> {
            &&& r == Result::<(), GpioError>::Err(GpioError::UnsupportedAltFunction)
            &&& final(regs).mirror() == old(regs).mirror()
            &&& final(regs).log() == old(regs).log()
        },
        alt <= 5 ==> {
            &&& r is Ok
            &&& final(regs).mirror() == function_write_state(
                old(regs).mirror(),
                pin,
                alt_code(alt),
            )
            &&& final(regs).log() == old(regs).log() + seq![
                function_write_op(old(regs).mirror(), pin, alt_code(alt)),
            ]
        },
{
    if alt > 5 {
        return Err(GpioError::UnsupportedAltFunction);
    }
    let code = if alt == 0 {
        0b100
    } else if alt == 1 {
        0b101
    } else if alt == 2 {
        0b110
    } else if alt == 3 {
        0b111
    } else if alt == 4 {
        0b011
    } else {
        0b010
    };
    let off = fsel_offset(pin / 10);
    let shift = (pin % 10) * 3;
    let w = (regs.read(off) & !(0b111u32 << shift)) | (code << shift);
    regs.write(off, w);
    Ok(())
}

} // verus!
