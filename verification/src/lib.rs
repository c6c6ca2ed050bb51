//! Hardware abstraction for the general-purpose I/O peripheral of a
//! single-board computer.
//!
//! The crate models the peripheral's memory-mapped register block as an
//! explicit mirror plus an ordered write log ([`regs::GpioRegisters`]), so
//! that every register-level effect of the driver logic is stated in a
//! contract and proved.  A thin unverified layer can replay the write log
//! onto the real register block.
//!
//! On top of the register map sit:
//! * a pin acquisition registry and a peripheral ownership gate ([`Gpio`],
//!   [`GpioGate`]),
//! * a type-state pin configuration model ([`pin::Pin`]),
//! * the per-bank event-callback storage and interrupt dispatch logic
//!   ([`bank::EventBank`]).

use vstd::prelude::*;

pub mod bank;
pub mod function;
pub mod interface;
pub mod pin;
pub mod pud;
pub mod regs;

verus! {

/// The detect events a callback can be registered for.  The composite
/// kinds ([`GpioEvent::BothEdges`], [`GpioEvent::AsyncBothEdges`]) arm two
/// underlying detect bits.
#[derive(Clone, Copy, Debug, PartialEq, Eq, Structural)]
pub enum GpioEvent {
    /// The level changes from low to high.
    RisingEdge,
    /// The level changes from high to low.
    FallingEdge,
    /// The level changes in either direction.
    BothEdges,
    /// The level is high.
    High,
    /// The level is low.
    Low,
    /// Rising edge, detected asynchronously (not bound to the peripheral
    /// clock, allowing faster detection).
    AsyncRisingEdge,
    /// Falling edge, detected asynchronously.
    AsyncFallingEdge,
    /// Either edge, detected asynchronously.
    AsyncBothEdges,
}

/// Errors returned by the GPIO peripheral abstraction.
#[derive(Clone, Copy, Debug, PartialEq, Eq, Structural)]
pub enum GpioError {
    /// The pin id lies outside the board's pin range.
    InvalidPinId,
    /// The pin is already claimed by another owner.
    PinInUse,
    /// The pin is not currently claimed.
    PinNotInUse,
    /// The requested alternate function index lies outside 0..=5.
    UnsupportedAltFunction,
    /// A live handle to the peripheral already exists.
    AlreadyInstantiated,
}

impl GpioError {
    /// A human-readable description of the error.
    pub fn message(&self) -> (r: &'static str)
        ensures
            r@.len() > 0,
    {
        let r = match self {
            GpioError::InvalidPinId => "pin id outside the board's pin range",
            GpioError::PinInUse => "pin already in use",
            GpioError::PinNotInUse => "pin was not in use",
            GpioError::UnsupportedAltFunction => "alternate function index outside 0..=5",
            GpioError::AlreadyInstantiated => "a GPIO peripheral handle already exists",
        };
        proof {
            reveal_strlit("pin id outside the board's pin range");
            reveal_strlit("pin already in use");
            reveal_strlit("pin was not in use");
            reveal_strlit("alternate function index outside 0..=5");
            reveal_strlit("a GPIO peripheral handle already exists");
        }
        r
    }
}

/// Whether an acquisition of pin `id` must succeed: the id is in range
/// and the pin is not claimed.
pub open spec fn acquire_allowed(used: Seq<bool>, id: u32) -> bool {
    (id as int) < used.len() && !used[id as int]
}

/// The error an acquisition of pin `id` fails with when it is not
/// allowed: out-of-range ids are invalid, claimed pins are in use.
pub open spec fn acquire_error(used: Seq<bool>, id: u32) -> GpioError {
    if (id as int) >= used.len() {
        GpioError::InvalidPinId
    } else {
        GpioError::PinInUse
    }
}

/// Whether a release of pin `id` must succeed: the id is in range and the
/// pin is currently claimed.
pub open spec fn release_allowed(used: Seq<bool>, id: u32) -> bool {
    (id as int) < used.len() && used[id as int]
}

/// The error a release of pin `id` fails with when it is not allowed.
pub open spec fn release_error(used: Seq<bool>, id: u32) -> GpioError {
    if (id as int) >= used.len() {
        GpioError::InvalidPinId
    } else {
        GpioError::PinNotInUse
    }
}

/// The registry table after marking pin `id` claimed.
pub open spec fn mark_used(used: Seq<bool>, id: u32) -> Seq<bool> {
    used.update(id as int, true)
}

/// The registry table after marking pin `id` free.
pub open spec fn mark_free(used: Seq<bool>, id: u32) -> Seq<bool> {
    used.update(id as int, false)
}

/// The shared flag gating instantiation of the peripheral handle: at most
/// one [`Gpio`] exists while this flag is held.
pub struct GpioGate {
    held: bool,
}

/// A [`GpioGate`] after a successful instantiation.
pub closed spec fn gate_acquired(g: GpioGate) -> GpioGate {
    GpioGate { held: true }
}

/// A [`GpioGate`] after the handle was released.
pub closed spec fn gate_released(g: GpioGate) -> GpioGate {
    GpioGate { held: false }
}

impl GpioGate {
    /// Whether a peripheral handle currently exists.
    pub closed spec fn is_held(self) -> bool {
        self.held
    }

    /// A fresh gate: no handle exists.
    pub fn new() -> (g: Self)
        ensures
            !g.is_held(),
    {
        GpioGate { held: false }
    }

    /// Whether a peripheral handle currently exists, as a value.
    pub fn held(&self) -> (r: bool)
        ensures
            r == self.is_held(),
    {
        self.held
    }
}

/// The GPIO peripheral handle: tracks which pins are claimed.
pub struct Gpio {
    used_pins: Vec<bool>,
}

impl Gpio {
    /// The registry table: one flag per pin, true while claimed.
    pub closed spec fn used(self) -> Seq<bool> {
        self.used_pins@
    }

    /// The board's pin count.
    pub open spec fn pin_count(self) -> int {
        self.used().len() as int
    }

    /// The board has one of the supported pin counts.
    pub open spec fn wf(self) -> bool {
        self.pin_count() == 40 || self.pin_count() == 54
    }

    /// Instantiate the peripheral handle for a board with `pin_count`
    /// pins.  Succeeds only when no other handle exists (its gate flag is
    /// free); the new handle starts with every pin unclaimed.
    pub fn new(gate: &mut GpioGate, pin_count: u32) -> (r: Result<Gpio, GpioError>)
        requires
            pin_count == 40 || pin_count == 54,
        ensures
            old(gate).is_held() ==> {
                &&& r matches Err(e) && e == GpioError::AlreadyInstantiated
                &&& *final(gate) == *old(gate)
            },
            !old(gate).is_held() ==> {
                &&& *final(gate) == gate_acquired(*old(gate))
                &&& final(gate).is_held()
                &&& r matches Ok(g) && g.wf() && g.pin_count() == pin_count && forall|i: int|
                    0 <= i < pin_count ==> !g.used()[i]
            },
    {
        if gate.held {
            return Err(GpioError::AlreadyInstantiated);
        }
        gate.held = true;
        let mut used_pins: Vec<bool> = Vec::new();
        let mut i: u32 = 0;
        while i < pin_count
            invariant
                i <= pin_count,
                used_pins@.len() == i,
                forall|j: int| 0 <= j < i ==> !used_pins@[j],
            decreases pin_count - i,
        {
            used_pins.push(false);
            i += 1;
        }
        Ok(Gpio { used_pins })
    }

    /// Release the peripheral handle, clearing its gate flag so that exactly
    /// one subsequent instantiation can succeed.  The pins' hardware
    /// configuration is left as it stands.
    pub fn release(self, gate: &mut GpioGate)
        ensures
            *final(gate) == gate_released(*old(gate)),
            !final(gate).is_held(),
    {
        gate.held = false;
    }

    /// Claim pin `num` and hand out its handle in unknown function and
    /// pull state.  Fails with [`GpioError::InvalidPinId`] for ids at or
    /// beyond the board's pin count and with [`GpioError::PinInUse`] for
    /// pins already claimed.
    pub fn get_pin(&mut self, num: u32) -> (r: Result<
        pin::Pin<function::Unknown, pud::Unknown>,
        GpioError,
    >)
        requires
            old(self).wf(),
        ensures
            final(self).wf(),
            final(self).pin_count() == old(self).pin_count(),
            num >= old(self).pin_count() ==> (r matches Err(e) && e == GpioError::InvalidPinId),
            acquire_allowed(old(self).used(), num) ==> {
                &&& r matches Ok(p) && p.wf() && p.id() == num
                &&& final(self).used() == mark_used(old(self).used(), num)
            },
            !acquire_allowed(old(self).used(), num) ==> {
                &&& r matches Err(e) && e == acquire_error(old(self).used(), num)
                &&& final(self).used() == old(self).used()
            },
    {
        if num >= self.used_pins.len() as u32 {
            return Err(GpioError::InvalidPinId);
        }
        if self.used_pins[num as usize] {
            return Err(GpioError::PinInUse);
        }
        self.used_pins.set(num as usize, true);
        Ok(pin::Pin::new(num))
    }

    /// Release claimed pin `num`, making its id available again.  Pure
    /// bookkeeping: the pin's hardware configuration is left as it
    /// stands.  Fails with [`GpioError::InvalidPinId`] for out-of-range
    /// ids and [`GpioError::PinNotInUse`] for unclaimed pins.
    pub fn free_pin(&mut self, num: u32) -> (r: Result<(), GpioError>)
        requires
            old(self).wf(),
        ensures
            final(self).wf(),
            final(self).pin_count() == old(self).pin_count(),
            release_allowed(old(self).used(), num) ==> {
                &&& r is Ok
                &&& final(self).used() == mark_free(old(self).used(), num)
            },
            !release_allowed(old(self).used(), num) ==> {
                &&& r matches Err(e) && e == release_error(old(self).used(), num)
                &&& final(self).used() == old(self).used()
            },
    {
        if num >= self.used_pins.len() as u32 {
            return Err(GpioError::InvalidPinId);
        }
        if !self.used_pins[num as usize] {
            return Err(GpioError::PinNotInUse);
        }
        self.used_pins.set(num as usize, false);
        Ok(())
    }

    /// Whether pin `num` is currently claimed, as a value.
    pub fn pin_in_use(&self, num: u32) -> (r: bool)
        requires
            (num as int) < self.pin_count(),
        ensures
            r == self.used()[num as int],
    {
        self.used_pins[num as usize]
    }

    /// The board's pin count, as a value.
    pub fn max_pins(&self) -> (r: u32)
        requires
            self.wf(),
        ensures
            r == self.pin_count(),
    {
        self.used_pins.len() as u32
    }

    /// Register a recurring callback token for `event` on input pin
    /// `pin`, in the bank owning the pin.  See
    /// [`bank::EventBank::register_recurring`] for the guarded store and
    /// the silent no-op on contention.
    pub fn register_recurring_event_handler<T, PUD>(
        &self,
        pin: &pin::Pin<function::Input, PUD>,
        event: GpioEvent,
        token: T,
        banks: &mut bank::EventBanks<T>,
        regs: &mut regs::GpioRegisters,
    ) -> (out: bank::RegisterOutcome)
        requires
            pin.wf(),
            old(banks).wf(),
            old(regs).wf(),
            (pin.id() as int) < 32 + old(banks).bank1@.len(),
        ensures
            final(banks).wf(),
            final(regs).wf(),
            pin.id() < 32 ==> {
                &&& bank::registration_outcome(
                    old(banks).bank0,
                    final(banks).bank0,
                    *old(regs),
                    *final(regs),
                    pin.id(),
                    event,
                    bank::Slot::Recurring(token),
                    out,
                )
                &&& bank::bank_unchanged(old(banks).bank1, final(banks).bank1)
            },
            pin.id() >= 32 ==> {
                &&& bank::registration_outcome(
                    old(banks).bank1,
                    final(banks).bank1,
                    *old(regs),
                    *final(regs),
                    (pin.id() - 32) as u32,
                    event,
                    bank::Slot::Recurring(token),
                    out,
                )
                &&& bank::bank_unchanged(old(banks).bank0, final(banks).bank0)
            },
    {
        let num = pin.pin_id();
        if num < 32 {
            banks.bank0.register_recurring(num, event, token, regs)
        } else {
            banks.bank1.register_recurring(num - 32, event, token, regs)
        }
    }

    /// Register a one-shot callback token for `event` on input pin
    /// `pin`, in the bank owning the pin.  See
    /// [`bank::EventBank::register_oneshot`].
    pub fn register_oneshot_event_handler<T, PUD>(
        &self,
        pin: &pin::Pin<function::Input, PUD>,
        event: GpioEvent,
        token: T,
        banks: &mut bank::EventBanks<T>,
        regs: &mut regs::GpioRegisters,
    ) -> (out: bank::RegisterOutcome)
        requires
            pin.wf(),
            old(banks).wf(),
            old(regs).wf(),
            (pin.id() as int) < 32 + old(banks).bank1@.len(),
        ensures
            final(banks).wf(),
            final(regs).wf(),
            pin.id() < 32 ==> {
                &&& bank::registration_outcome(
                    old(banks).bank0,
                    final(banks).bank0,
                    *old(regs),
                    *final(regs),
                    pin.id(),
                    event,
                    bank::Slot::Oneshot(token),
                    out,
                )
                &&& bank::bank_unchanged(old(banks).bank1, final(banks).bank1)
            },
            pin.id() >= 32 ==> {
                &&& bank::registration_outcome(
                    old(banks).bank1,
                    final(banks).bank1,
                    *old(regs),
                    *final(regs),
                    (pin.id() - 32) as u32,
                    event,
                    bank::Slot::Oneshot(token),
                    out,
                )
                &&& bank::bank_unchanged(old(banks).bank0, final(banks).bank0)
            },
    {
        let num = pin.pin_id();
        if num < 32 {
            banks.bank0.register_oneshot(num, event, token, regs)
        } else {
            banks.bank1.register_oneshot(num - 32, event, token, regs)
        }
    }

    /// Remove any callback for input pin `pin` and disarm all of its
    /// detect-enable bits, in the bank owning the pin.  See
    /// [`bank::EventBank::unregister`].
    pub fn remove_event_handler<T, PUD>(
        &self,
        pin: &pin::Pin<function::Input, PUD>,
        banks: &mut bank::EventBanks<T>,
        regs: &mut regs::GpioRegisters,
    ) -> (cleared: bool)
        requires
            pin.wf(),
            old(banks).wf(),
            old(regs).wf(),
            (pin.id() as int) < 32 + old(banks).bank1@.len(),
        ensures
            final(banks).wf(),
            final(regs).wf(),
            pin.id() < 32 ==> {
                &&& bank::unregister_outcome(
                    old(banks).bank0,
                    final(banks).bank0,
                    *old(regs),
                    *final(regs),
                    pin.id(),
                    cleared,
                )
                &&& bank::bank_unchanged(old(banks).bank1, final(banks).bank1)
            },
            pin.id() >= 32 ==> {
                &&& bank::unregister_outcome(
                    old(banks).bank1,
                    final(banks).bank1,
                    *old(regs),
                    *final(regs),
                    (pin.id() - 32) as u32,
                    cleared,
                )
                &&& bank::bank_unchanged(old(banks).bank0, final(banks).bank0)
            },
    {
        let num = pin.pin_id();
        if num < 32 {
            banks.bank0.unregister(num, regs)
        } else {
            banks.bank1.unregister(num - 32, regs)
        }
    }
}

/// Acquiring a free pin succeeds and marks it; acquiring it again without
/// a release is refused with [`GpioError::PinInUse`]; after a release the
/// pin can be acquired again.
pub proof fn lemma_exclusive_acquisition(used: Seq<bool>, id: u32)
    requires
        (id as int) < used.len(),
        !used[id as int],
    ensures
        acquire_allowed(used, id),
        !acquire_allowed(mark_used(used, id), id),
        acquire_error(mark_used(used, id), id) == GpioError::PinInUse,
        release_allowed(mark_used(used, id), id),
        acquire_allowed(mark_free(mark_used(used, id), id), id),
{
}

/// While a peripheral handle exists its gate flag refuses a second
/// instantiation; releasing the handle frees that flag, so exactly one
/// new instantiation can succeed.
pub proof fn lemma_single_instance(g: GpioGate)
    requires
        !g.is_held(),
    ensures
        gate_acquired(g).is_held(),
        !gate_released(gate_acquired(g)).is_held(),
{
}

} // verus!

