//! The choices made for the board.

use crate::clock::Span;
use crate::clock::Time;
use crate::clock::NANOS_PER_DAY;
use crate::clock::NANOS_PER_SECOND;
use crate::configuration::customization::Customization as CustomizationTrait;
use crate::features::trigger::EnableOnConditions;
use crate::features::trigger::TimeWindow;
use vstd::prelude::*;

verus! {

/// Seconds for which images are kept after confirmed motion: three hours.
pub const TRIGGER_SECONDS: i64 = 10_800;

/// The choices made for the board: the trigger is enabled all day, and
/// images are kept for three hours after confirmed motion.
pub struct Customization;

impl CustomizationTrait for Customization {
    /// One window, from the first second of the day to the last.
    fn enable_image_trigger_on(&self) -> (r: EnableOnConditions)
        ensures
            r matches EnableOnConditions::TimeWindows { ranges } && ranges@.len() == 1
                && ranges@[0].start@ == 0 && ranges@[0].end@ == NANOS_PER_DAY - NANOS_PER_SECOND,
    {
        let start = Time::midnight();
        let end = match Time::from_hms(23, 59, 59) {
            Some(time) => time,
            None => Time::midnight(),
        };
        let mut ranges: Vec<TimeWindow> = Vec::new();
        ranges.push(TimeWindow::new(start, end));
        EnableOnConditions::TimeWindows { ranges }
    }

    fn trigger_duration(&self) -> (r: Span)
        ensures
            r@ == TRIGGER_SECONDS * NANOS_PER_SECOND,
    {
        Span::seconds(TRIGGER_SECONDS)
    }
}

} // verus!
