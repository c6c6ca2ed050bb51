//! Type states for the function parameter of a [`crate::pin::Pin`].

use vstd::prelude::*;

verus! {

/// The pin is configured as an input.
pub struct Input;

/// The pin is configured as an output.
pub struct Output;

/// The pin is switched to alternate function 0.
pub struct AltFunc0;

/// The pin is switched to alternate function 1.
pub struct AltFunc1;

/// The pin is switched to alternate function 2.
pub struct AltFunc2;

/// The pin is switched to alternate function 3.
pub struct AltFunc3;

/// The pin is switched to alternate function 4.
pub struct AltFunc4;

/// The pin is switched to alternate function 5.
pub struct AltFunc5;

/// The pin's function has not been configured since acquisition.
pub struct Unknown;

} // verus!
