//! The choices of the controller's user.

use crate::clock::Span;
use crate::features::trigger::EnableOnConditions;
use vstd::prelude::*;

verus! {

/// What the user of the controller chooses.
pub trait Customization {
    /// At which times of day the trigger is enabled.
    fn enable_image_trigger_on(&self) -> EnableOnConditions;

    /// For how long after confirmed motion images are kept.
    fn trigger_duration(&self) -> Span;
}

} // verus!
