//! Type states for the pull-resistor parameter of a [`crate::pin::Pin`].

use vstd::prelude::*;

verus! {

/// The internal pull-down resistor is enabled.
pub struct PullDown;

/// The internal pull-up resistor is enabled.
pub struct PullUp;

/// The internal pull resistors are disabled.
pub struct Disabled;

/// The pull state has not been configured since acquisition.
pub struct Unknown;

} // verus!
