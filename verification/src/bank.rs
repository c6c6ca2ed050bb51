//! Per-bank callback storage and interrupt dispatch.
//!
//! Each of the two interrupt banks owns one callback slot per pin in the
//! bank and a non-blocking access guard.  The guard keeps the
//! registration API (normal execution context) and the dispatch routine
//! (interrupt context) from mutating the slots at the same time; because
//! the interrupt context must never wait, a failed acquire makes the
//! operation a silent no-op rather than blocking.
//!
//! Callbacks are represented by opaque tokens of type `T`: the caller
//! maps tokens to real closures and invokes them in the order the
//! dispatch plan lists.

use vstd::pervasive::VecAdditionalExecFns;
use vstd::prelude::*;

use crate::GpioEvent;
use crate::interface::{
    activate_detect_event, activate_log, activate_state, deactivate_all_detect_events,
    deactivate_all_log, deactivate_all_state,
};
use crate::regs::{GpioRegisters, RegOp, status_off, status_offset};

verus! {

/// The callback slot of one pin: empty, or holding exactly one callback,
/// either recurring (left in place when it fires) or one-shot (removed
/// when it fires).
#[derive(Clone, Copy, Debug, PartialEq, Eq)]
pub enum Slot<T> {
    /// No callback registered.
    Empty,
    /// A callback invoked on every matching event.
    Recurring(T),
    /// A callback invoked once and then removed.
    Oneshot(T),
}

/// What a registration call did: whether the callback was stored (the
/// guard was free), and whether the bank's interrupt line still has to be
/// unmasked at the interrupt controller (first registration on the bank).
#[derive(Clone, Copy, Debug, PartialEq, Eq, Structural)]
pub struct RegisterOutcome {
    /// The callback was stored and its detect bits armed.
    pub registered: bool,
    /// The caller must unmask this bank's interrupt line.
    pub unmask_line: bool,
}

/// One callback invocation a dispatch pass decided on.
#[derive(Clone, Copy, Debug, PartialEq, Eq)]
pub struct Invocation<T> {
    /// Pin-in-bank index the event was detected on.
    pub slot: u32,
    /// The stored callback token.
    pub token: T,
    /// The callback was a one-shot and has been removed from its slot.
    pub one_shot: bool,
}

/// Whether bit `i` of `w` is set.
pub open spec fn bit_is_set(w: u32, i: int) -> bool {
    w & (1u32 << (i as u32)) != 0
}

/// A slot after a dispatch pass: a hit one-shot is removed, everything
/// else stays.
pub open spec fn slot_after_dispatch<T>(s: Slot<T>, hit: bool) -> Slot<T> {
    if hit {
        match s {
            Slot::Oneshot(_) => Slot::Empty,
            _ => s,
        }
    } else {
        s
    }
}

/// All slots of a bank after a dispatch pass over status word `status`.
pub open spec fn slots_after_dispatch<T>(slots: Seq<Slot<T>>, status: u32) -> Seq<Slot<T>> {
    Seq::new(slots.len(), |i: int| slot_after_dispatch(slots[i], bit_is_set(status, i)))
}

/// The invocations slot `i` contributes to a dispatch pass: one if its
/// pin's status bit is set and a callback is stored, none otherwise.
pub open spec fn slot_invocations<T>(i: int, s: Slot<T>, hit: bool) -> Seq<Invocation<T>> {
    if hit {
        match s {
            Slot::Empty => Seq::empty(),
            Slot::Recurring(t) => seq![Invocation { slot: i as u32, token: t, one_shot: false }],
            Slot::Oneshot(t) => seq![Invocation { slot: i as u32, token: t, one_shot: true }],
        }
    } else {
        Seq::empty()
    }
}

/// The invocations of a dispatch pass over the first `n` slots, lowest
/// pin index first.
pub open spec fn dispatch_plan_prefix<T>(slots: Seq<Slot<T>>, status: u32, n: int) -> Seq<
    Invocation<T>,
>
    decreases n,
{
    if n <= 0 {
        Seq::empty()
    } else {
        dispatch_plan_prefix(slots, status, n - 1) + slot_invocations(
            n - 1,
            slots[n - 1],
            bit_is_set(status, n - 1),
        )
    }
}

/// The invocations of a full dispatch pass, lowest pin index first.
pub open spec fn dispatch_plan<T>(slots: Seq<Slot<T>>, status: u32) -> Seq<Invocation<T>> {
    dispatch_plan_prefix(slots, status, slots.len() as int)
}

/// The register mirror and log are untouched.
pub open spec fn regs_unchanged(pre: GpioRegisters, post: GpioRegisters) -> bool {
    post.mirror() == pre.mirror() && post.log() == pre.log()
}

/// The bank is untouched.
pub open spec fn bank_unchanged<T>(pre: EventBank<T>, post: EventBank<T>) -> bool {
    &&& post@ == pre@
    &&& post.bank_id() == pre.bank_id()
    &&& post.guard_held() == pre.guard_held()
    &&& post.line_enabled() == pre.line_enabled()
}

/// A registration stored `stored` in slot `slot`, released the guard and
/// marked the bank's interrupt line enabled.
pub open spec fn registration_applied<T>(
    pre: EventBank<T>,
    post: EventBank<T>,
    slot: u32,
    stored: Slot<T>,
) -> bool {
    &&& post@ == pre@.update(slot as int, stored)
    &&& post.bank_id() == pre.bank_id()
    &&& !post.guard_held()
    &&& post.line_enabled()
}

/// Full behaviour of registering callback `stored` for `event` on
/// pin-in-bank `slot`: skipped entirely when the guard was held,
/// otherwise the slot is overwritten (superseding any other callback
/// kind), the guard released, and the event's detect bits armed.
pub open spec fn registration_outcome<T>(
    pre_b: EventBank<T>,
    post_b: EventBank<T>,
    pre_r: GpioRegisters,
    post_r: GpioRegisters,
    slot: u32,
    event: GpioEvent,
    stored: Slot<T>,
    out: RegisterOutcome,
) -> bool {
    &&& out.registered == !pre_b.guard_held()
    &&& pre_b.guard_held() ==> {
        &&& bank_unchanged(pre_b, post_b)
        &&& regs_unchanged(pre_r, post_r)
        &&& !out.unmask_line
    }
    &&& !pre_b.guard_held() ==> {
        &&& registration_applied(pre_b, post_b, slot, stored)
        &&& out.unmask_line == !pre_b.line_enabled()
        &&& post_r.mirror() == activate_state(pre_r.mirror(), pre_b.bank_id(), slot, event)
        &&& post_r.log() == pre_r.log() + activate_log(pre_r.mirror(), pre_b.bank_id(), slot, event)
    }
}

/// Full behaviour of unregistering pin-in-bank `slot`: skipped entirely
/// when the guard was held, otherwise both callback kinds are cleared and
/// every detect-enable bit of the pin disarmed.
pub open spec fn unregister_outcome<T>(
    pre_b: EventBank<T>,
    post_b: EventBank<T>,
    pre_r: GpioRegisters,
    post_r: GpioRegisters,
    slot: u32,
    cleared: bool,
) -> bool {
    &&& cleared == !pre_b.guard_held()
    &&& pre_b.guard_held() ==> {
        &&& bank_unchanged(pre_b, post_b)
        &&& regs_unchanged(pre_r, post_r)
    }
    &&& !pre_b.guard_held() ==> {
        &&& post_b@ == pre_b@.update(slot as int, Slot::<T>::Empty)
        &&& post_b.bank_id() == pre_b.bank_id()
        &&& !post_b.guard_held()
        &&& post_b.line_enabled() == pre_b.line_enabled()
        &&& post_r.mirror() == deactivate_all_state(pre_r.mirror(), pre_b.bank_id(), slot)
        &&& post_r.log() == pre_r.log() + deactivate_all_log(pre_r.mirror(), pre_b.bank_id(), slot)
    }
}

/// Callback storage of one interrupt bank.
pub struct EventBank<T> {
    bank: u32,
    slots: Vec<Slot<T>>,
    guard: bool,
    line_enabled: bool,
}

impl<T> View for EventBank<T> {
    type V = Seq<Slot<T>>;

    closed spec fn view(&self) -> Seq<Slot<T>> {
        self.slots@
    }
}

impl<T> EventBank<T> {
    /// The bank index (0 or 1).
    pub closed spec fn bank_id(self) -> u32 {
        self.bank
    }

    /// Whether the non-blocking access guard is currently held.
    pub closed spec fn guard_held(self) -> bool {
        self.guard
    }

    /// Whether the bank's interrupt line has been enabled (a callback was
    /// registered on the bank at least once).
    pub closed spec fn line_enabled(self) -> bool {
        self.line_enabled
    }

    /// Bank 0 covers pins 0..=31, bank 1 the pins from 32 up (at most 22
    /// of them on any supported board).
    pub open spec fn wf(self) -> bool {
        &&& self.bank_id() < 2
        &&& self.bank_id() == 0 ==> self@.len() == 32
        &&& self.bank_id() == 1 ==> 1 <= self@.len() <= 22
    }

    /// Build the callback storage of bank `bank` with `slot_count` empty
    /// slots, guard free, interrupt line not yet enabled.
    pub fn new(bank: u32, slot_count: usize) -> (b: EventBank<T>)
        requires
            bank < 2,
            bank == 0 ==> slot_count == 32,
            bank == 1 ==> 1 <= slot_count <= 22,
        ensures
            b.wf(),
            b.bank_id() == bank,
            b@.len() == slot_count,
            forall|i: int| 0 <= i < slot_count ==> b@[i] == Slot::<T>::Empty,
            !b.guard_held(),
            !b.line_enabled(),
    {
        let mut slots: Vec<Slot<T>> = Vec::new();
        let mut i: usize = 0;
        while i < slot_count
            invariant
                i <= slot_count,
                slots@.len() == i,
                forall|j: int| 0 <= j < i ==> slots@[j] == Slot::<T>::Empty,
            decreases slot_count - i,
        {
            slots.push(Slot::Empty);
            i += 1;
        }
        EventBank { bank, slots, guard: false, line_enabled: false }
    }

    /// Attempt the single-step non-blocking acquire of the access guard.
    /// Succeeds exactly when the guard was free; never waits.
    pub fn guard_try_acquire(&mut self) -> (acquired: bool)
        ensures
            acquired == !old(self).guard_held(),
            final(self).guard_held(),
            final(self)@ == old(self)@,
            final(self).bank_id() == old(self).bank_id(),
            final(self).line_enabled() == old(self).line_enabled(),
    {
        if self.guard {
            false
        } else {
            self.guard = true;
            true
        }
    }

    /// Release the access guard.
    pub fn guard_release(&mut self)
        ensures
            !final(self).guard_held(),
            final(self)@ == old(self)@,
            final(self).bank_id() == old(self).bank_id(),
            final(self).line_enabled() == old(self).line_enabled(),
    {
        self.guard = false;
    }

    /// Register a recurring callback for `event` on pin-in-bank `slot`.
    /// If the guard was free: the token is stored (clearing any one-shot
    /// for the pin), the guard released, and the event's detect bits
    /// armed.  If the guard was held, the call has no effect: no retry,
    /// no queueing.
    pub fn register_recurring(
        &mut self,
        slot: u32,
        event: GpioEvent,
        token: T,
        regs: &mut GpioRegisters,
    ) -> (out: RegisterOutcome)
        requires
            old(self).wf(),
            old(regs).wf(),
            slot < old(self)@.len(),
        ensures
            final(self).wf(),
            final(regs).wf(),
            registration_outcome(
                *old(self),
                *final(self),
                *old(regs),
                *final(regs),
                slot,
                event,
                Slot::Recurring(token),
                out,
            ),
    {
        if self.guard {
            return RegisterOutcome { registered: false, unmask_line: false };
        }
        self.guard = true;
        self.slots.set(slot as usize, Slot::Recurring(token));
        self.guard = false;
        let unmask = !self.line_enabled;
        self.line_enabled = true;
        let pin = self.bank * 32 + slot;
        activate_detect_event(regs, pin, event);
        RegisterOutcome { registered: true, unmask_line: unmask }
    }

    /// Register a one-shot callback for `event` on pin-in-bank `slot`.
    /// Symmetric to [`EventBank::register_recurring`]: storing the
    /// one-shot clears any recurring callback for the pin.
    pub fn register_oneshot(
        &mut self,
        slot: u32,
        event: GpioEvent,
        token: T,
        regs: &mut GpioRegisters,
    ) -> (out: RegisterOutcome)
        requires
            old(self).wf(),
            old(regs).wf(),
            slot < old(self)@.len(),
        ensures
            final(self).wf(),
            final(regs).wf(),
            registration_outcome(
                *old(self),
                *final(self),
                *old(regs),
                *final(regs),
                slot,
                event,
                Slot::Oneshot(token),
                out,
            ),
    {
        if self.guard {
            return RegisterOutcome { registered: false, unmask_line: false };
        }
        self.guard = true;
        self.slots.set(slot as usize, Slot::Oneshot(token));
        self.guard = false;
        let unmask = !self.line_enabled;
        self.line_enabled = true;
        let pin = self.bank * 32 + slot;
        activate_detect_event(regs, pin, event);
        RegisterOutcome { registered: true, unmask_line: unmask }
    }

    /// Remove both callback kinds for pin-in-bank `slot` and disarm every
    /// detect-enable bit of the pin.  Best effort: a held guard makes the
    /// call a no-op.
    pub fn unregister(&mut self, slot: u32, regs: &mut GpioRegisters) -> (cleared: bool)
        requires
            old(self).wf(),
            old(regs).wf(),
            slot < old(self)@.len(),
        ensures
            final(self).wf(),
            final(regs).wf(),
            unregister_outcome(*old(self), *final(self), *old(regs), *final(regs), slot, cleared),
    {
        if self.guard {
            return false;
        }
        self.guard = true;
        self.slots.set(slot as usize, Slot::Empty);
        self.guard = false;
        let pin = self.bank * 32 + slot;
        deactivate_all_detect_events(regs, pin);
        true
    }

    /// One dispatch pass, run once per hardware interrupt on this bank's
    /// line.  Reads the bank's event status word from the mirror and
    /// acknowledges it (the acknowledge store is logged before any
    /// invocation is decided on); then, for each status bit set, lowest
    /// pin first, attempts the guard: if acquired, a stored one-shot is
    /// removed and planned for invocation, a stored recurring callback
    /// planned and left in place; if the guard was held, the pin is
    /// skipped for this pass.
    pub fn dispatch(&mut self, regs: &mut GpioRegisters) -> (plan: Vec<Invocation<T>>) where
        T: Copy,

        requires
            old(self).wf(),
            old(regs).wf(),
        ensures
            final(self).wf(),
            final(regs).wf(),
            final(self).bank_id() == old(self).bank_id(),
            final(self).line_enabled() == old(self).line_enabled(),
            final(self).guard_held() == old(self).guard_held(),
            ({
                let status = old(regs).reg(status_off(old(self).bank_id()));
                &&& final(regs).mirror() == old(regs).mirror().update(
                    status_off(old(self).bank_id()) as int / 4,
                    0u32,
                )
                &&& final(regs).log() == old(regs).log() + seq![
                    RegOp::Write { offset: status_off(old(self).bank_id()), value: status },
                ]
                &&& old(self).guard_held() ==> final(self)@ == old(self)@ && plan@ == Seq::<
                    Invocation<T>,
                >::empty()
                &&& !old(self).guard_held() ==> {
                    &&& final(self)@ == slots_after_dispatch(old(self)@, status)
                    &&& plan@ == dispatch_plan(old(self)@, status)
                }
            }),
    {
        let bank = self.bank;
        let status = regs.read(status_offset(bank));
        regs.write(status_offset(bank), status);
        proof {
            assert(status & !status == 0) by (bit_vector);
        }
        let ghost m0 = regs.mirror();
        let ghost l0 = regs.log();
        let mut plan: Vec<Invocation<T>> = Vec::new();
        let n = self.slots.len();
        let mut i: usize = 0;
        while i < n
            invariant
                i <= n,
                n <= 32,
                n == old(self)@.len(),
                self.slots@.len() == n,
                self.bank == old(self).bank_id(),
                self.line_enabled == old(self).line_enabled(),
                regs.wf(),
                regs.mirror() == m0,
                regs.log() == l0,
                old(self).guard_held() ==> {
                    &&& self.guard
                    &&& self.slots@ == old(self)@
                    &&& plan@ == Seq::<Invocation<T>>::empty()
                },
                !old(self).guard_held() ==> {
                    &&& !self.guard
                    &&& forall|j: int|
                        0 <= j < i ==> self.slots@[j] == slot_after_dispatch(
                            old(self)@[j],
                            bit_is_set(status, j),
                        )
                    &&& forall|j: int| i <= j < n ==> self.slots@[j] == old(self)@[j]
                    &&& plan@ == dispatch_plan_prefix(old(self)@, status, i as int)
                },
            decreases n - i,
        {
            if (status & (1u32 << (i as u32))) != 0 {
                if !self.guard {
                    self.guard = true;
                    match self.slots[i] {
                        Slot::Oneshot(t) => {
                            self.slots.set(i, Slot::Empty);
                            self.guard = false;
                            plan.push(Invocation { slot: i as u32, token: t, one_shot: true });
                        },
                        Slot::Recurring(t) => {
                            self.guard = false;
                            plan.push(Invocation { slot: i as u32, token: t, one_shot: false });
                        },
                        Slot::Empty => {
                            self.guard = false;
                        },
                    }
                }
            }
            i += 1;
            proof {
                if !old(self).guard_held() {
                    assert(plan@ =~= dispatch_plan_prefix(old(self)@, status, i as int));
                }
            }
        }
        proof {
            if !old(self).guard_held() {
                assert(self.slots@ =~= slots_after_dispatch(old(self)@, status));
            }
            assert(regs.log() =~= old(regs).log() + seq![
                RegOp::Write {
                    offset: status_off(old(self).bank_id()),
                    value: old(regs).reg(status_off(old(self).bank_id())),
                },
            ]);
        }
        plan
    }

    /// The bank index, as a value.
    pub fn bank_index(&self) -> (r: u32)
        ensures
            r == self.bank_id(),
    {
        self.bank
    }

    /// Number of callback slots (pins) in the bank.
    pub fn slot_count(&self) -> (n: usize)
        ensures
            n == self@.len(),
    {
        self.slots.len()
    }

    /// The current contents of slot `i`.
    pub fn slot_at(&self, i: usize) -> (s: Slot<T>) where T: Copy
        requires
            i < self@.len(),
        ensures
            s == self@[i as int],
    {
        self.slots[i]
    }

    /// Whether the access guard is held, as a value.
    pub fn is_guard_held(&self) -> (r: bool)
        ensures
            r == self.guard_held(),
    {
        self.guard
    }

    /// Whether the bank's interrupt line has been enabled, as a value.
    pub fn is_line_enabled(&self) -> (r: bool)
        ensures
            r == self.line_enabled(),
    {
        self.line_enabled
    }
}

/// The callback storage of both banks of the peripheral.
pub struct EventBanks<T> {
    /// Bank 0: pins 0..=31.
    pub bank0: EventBank<T>,
    /// Bank 1: pins 32 up to the board's last pin.
    pub bank1: EventBank<T>,
}

impl<T> EventBanks<T> {
    pub open spec fn wf(self) -> bool {
        &&& self.bank0.wf()
        &&& self.bank0.bank_id() == 0
        &&& self.bank1.wf()
        &&& self.bank1.bank_id() == 1
    }

    /// Build empty callback storage for a board with `pin_count` pins.
    pub fn new(pin_count: u32) -> (b: EventBanks<T>)
        requires
            pin_count == 40 || pin_count == 54,
        ensures
            b.wf(),
            b.bank0@.len() == 32,
            b.bank1@.len() == pin_count - 32,
            forall|i: int| 0 <= i < 32 ==> b.bank0@[i] == Slot::<T>::Empty,
            forall|i: int| 0 <= i < pin_count - 32 ==> b.bank1@[i] == Slot::<T>::Empty,
            !b.bank0.guard_held(),
            !b.bank1.guard_held(),
            !b.bank0.line_enabled(),
            !b.bank1.line_enabled(),
    {
        let bank0 = EventBank::new(0, 32);
        let bank1 = EventBank::new(1, (pin_count - 32) as usize);
        EventBanks { bank0, bank1 }
    }
}

/// Every invocation of `plan` names a pin-in-bank below `bound`.
pub open spec fn plan_slots_below<T>(plan: Seq<Invocation<T>>, bound: int) -> bool {
    forall|k: int| 0 <= k < plan.len() ==> (plan[k].slot as int) < bound
}

/// The invocations of `plan` are strictly ascending in pin-in-bank index.
pub open spec fn plan_ascending<T>(plan: Seq<Invocation<T>>) -> bool {
    forall|k1: int, k2: int| 0 <= k1 < k2 < plan.len() ==> plan[k1].slot < plan[k2].slot
}

/// A partial dispatch plan only names pins below its length bound, in
/// strictly ascending order.
pub proof fn lemma_dispatch_plan_prefix_ascending<T>(slots: Seq<Slot<T>>, status: u32, n: int)
    requires
        0 <= n <= slots.len(),
        slots.len() <= 32,
    ensures
        plan_slots_below(dispatch_plan_prefix(slots, status, n), n),
        plan_ascending(dispatch_plan_prefix(slots, status, n)),
    decreases n,
{
    if n > 0 {
        lemma_dispatch_plan_prefix_ascending(slots, status, n - 1);
        let prior = dispatch_plan_prefix(slots, status, n - 1);
        let tail = slot_invocations(n - 1, slots[n - 1], bit_is_set(status, n - 1));
        let whole = dispatch_plan_prefix(slots, status, n);
        assert forall|k: int| 0 <= k < whole.len() implies (whole[k].slot as int) < n by {
            if k < prior.len() {
                assert(whole[k] == prior[k]);
            } else {
                assert(whole[k] == tail[k - prior.len()]);
            }
        }
        assert(tail.len() <= 1);
        assert forall|k1: int, k2: int|
            0 <= k1 < k2 < whole.len() implies whole[k1].slot < whole[k2].slot by {
            if k2 < prior.len() {
                assert(whole[k1] == prior[k1] && whole[k2] == prior[k2]);
                assert(prior[k1].slot < prior[k2].slot);
            } else {
                assert(k2 == prior.len());
                assert(k1 < prior.len());
                assert(whole[k1] == prior[k1]);
                assert((prior[k1].slot as int) < n - 1);
                assert(whole[k2] == tail[0]);
                assert(tail[0].slot == (n - 1) as u32);
            }
        }
    }
}

/// A dispatch pass hands its invocations back lowest pin index first:
/// the plan is strictly ascending in pin-in-bank index.
pub proof fn lemma_dispatch_lowest_pin_first<T>(slots: Seq<Slot<T>>, status: u32)
    requires
        slots.len() <= 32,
    ensures
        plan_ascending(dispatch_plan(slots, status)),
{
    lemma_dispatch_plan_prefix_ascending(slots, status, slots.len() as int);
}

/// Registering a recurring callback and then a one-shot on the same pin
/// leaves exactly one active callback, the one-shot; once a dispatch pass
/// fires it, the slot is empty and no recurring callback remains.
pub proof fn lemma_oneshot_supersedes_recurring<T>(
    slots: Seq<Slot<T>>,
    i: int,
    t1: T,
    t2: T,
    status: u32,
)
    requires
        0 <= i < slots.len(),
        slots.len() <= 32,
        bit_is_set(status, i),
    ensures
        ({
            let after_recurring = slots.update(i, Slot::Recurring(t1));
            let after_oneshot = after_recurring.update(i, Slot::Oneshot(t2));
            &&& after_oneshot[i] == Slot::<T>::Oneshot(t2)
            &&& !(after_oneshot[i] is Recurring)
            &&& slot_invocations(i, after_oneshot[i], true) == seq![
                Invocation { slot: i as u32, token: t2, one_shot: true },
            ]
            &&& slots_after_dispatch(after_oneshot, status)[i] == Slot::<T>::Empty
        }),
{
}

} // verus!
