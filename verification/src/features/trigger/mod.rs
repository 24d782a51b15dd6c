//! The motion trigger: when to capture an image and when to keep it.

pub mod debounce;
pub mod enable_on;

pub use enable_on::EnableOnConditions;
pub use enable_on::TimeWindow;

use crate::clock::Date;
use crate::clock::Span;
use crate::clock::Time;
use crate::clock::NANOS_PER_DAY;
use crate::clock::NANOS_PER_SECOND;
use crate::configuration::peripherals::MotionPin;
use debounce::DebounceFilter;
use debounce::FilterState;
use debounce::Sample;
use vstd::prelude::*;

verus! {

/// Seconds for which the motion signal has to last before it counts.
pub const HOLD_SECONDS: i64 = 60;

/// Days from which on the time between two readings is taken for a jump
/// of the clock.
pub const IMPLAUSIBLE_DAYS: i64 = 365;

/// Whether the trigger ever asks for an image to be kept.
#[derive(Clone, Copy, Debug, PartialEq, Eq, Structural)]
pub enum StorePolicy {
    /// No image is kept.
    Never,
    /// Images are kept for the trigger duration after confirmed motion.
    WhileTriggered,
}

/// The time from the reading `from` to the date and time given, in
/// nanoseconds; zero where there is no reading to start from.
pub open spec fn span_since(from: Option<(Date, Time)>, date: Date, time: Time) -> int {
    match from {
        Some((from_date, from_time)) => (date@ - from_date@) * NANOS_PER_DAY + (time@
            - from_time@),
        None => 0,
    }
}

/// Whether a time between two readings is short enough to be believed.
pub open spec fn is_plausible(delta: int) -> bool {
    delta < IMPLAUSIBLE_DAYS * NANOS_PER_DAY
}

/// What a trigger holds, as mathematical values.
pub struct TriggerView {
    /// The filter over the motion signal.
    pub filter: FilterState,
    /// The clock reading of the last tick, if the clock gave one.
    pub last_tick: Option<(Date, Time)>,
    /// The clock reading at the last confirmed motion.
    pub trigger: Option<(Date, Time)>,
    /// For how long after confirmed motion images are kept, in nanoseconds.
    pub trigger_duration: int,
    /// Whether the schedule enabled the trigger at the last reading.
    pub is_enabled: bool,
    /// The schedule.
    pub enable_on: EnableOnConditions,
    /// Whether images are ever kept.
    pub store_policy: StorePolicy,
}

impl TriggerView {
    /// The first part of a tick. With a reading, the schedule decides anew
    /// whether the trigger is enabled. Without a reading nothing changes.
    pub open spec fn prepared(self, now: Option<(Date, Time)>) -> TriggerView {
        match now {
            Some((_, time)) => TriggerView {
                is_enabled: self.enable_on.spec_should_be_enabled(time),
                ..self
            },
            None => self,
        }
    }

    /// Whether the second part of a tick needs the level of the motion
    /// signal: with a reading, unless the time since the last reading is
    /// implausibly long. After a jump of the clock the filter is left alone,
    /// so the level is not asked for.
    pub open spec fn needs_level(self, now: Option<(Date, Time)>) -> bool {
        now matches Some((date, time)) && is_plausible(span_since(self.last_tick, date, time))
    }

    /// The filter after the second part of a tick: where the level is
    /// needed and given, the filter takes in the time since the last reading
    /// together with the level; else it stays as it is.
    pub open spec fn filter_after(self, now: Option<(Date, Time)>, level: Option<bool>) -> FilterState {
        match now {
            Some((date, time)) if self.needs_level(now) && level.is_some() => self.filter.fed(
                span_since(self.last_tick, date, time),
                level.unwrap(),
            ),
            _ => self.filter,
        }
    }

    /// The second part of a tick. The filter takes in time and level, where
    /// the level is needed and given. With a reading, an enabled trigger
    /// whose filter then reports a high level makes this reading the time of
    /// the last confirmed motion. The reading, or its absence, is remembered
    /// as the last tick.
    pub open spec fn completed(self, now: Option<(Date, Time)>, level: Option<bool>) -> TriggerView {
        let filter = self.filter_after(now, level);
        TriggerView {
            filter,
            trigger: if now.is_some() && self.is_enabled && filter.level {
                now
            } else {
                self.trigger
            },
            last_tick: now,
            ..self
        }
    }

    /// A whole tick with the given reading and level.
    pub open spec fn ticked(self, now: Option<(Date, Time)>, level: Option<bool>) -> TriggerView {
        self.prepared(now).completed(now, level)
    }

    /// Whether an image is to be captured: while the trigger is enabled.
    pub open spec fn needs_capture(self) -> bool {
        self.is_enabled
    }

    /// The time from the last confirmed motion to the last tick, in
    /// nanoseconds; zero where the last tick had no reading.
    pub open spec fn time_since_trigger(self) -> int
        recommends
            self.trigger.is_some(),
    {
        -span_since(self.last_tick, self.trigger.unwrap().0, self.trigger.unwrap().1)
    }

    /// Whether an image is to be kept: where the policy allows it, from a
    /// confirmed motion on for the trigger duration.
    pub open spec fn needs_store(self) -> bool {
        &&& self.store_policy == StorePolicy::WhileTriggered
        &&& self.trigger.is_some()
        &&& self.time_since_trigger() <= self.trigger_duration
    }
}

/// The state of the trigger, apart from the pin it reads.
#[derive(Clone, Debug)]
pub struct TriggerState {
    filter: DebounceFilter,
    date_and_time_of_last_tick: Option<(Date, Time)>,
    trigger_date_and_time: Option<(Date, Time)>,
    trigger_duration: Span,
    is_enabled: bool,
    enable_on: EnableOnConditions,
    store_policy: StorePolicy,
}

impl View for TriggerState {
    type V = TriggerView;

    closed spec fn view(&self) -> TriggerView {
        TriggerView {
            filter: self.filter@,
            last_tick: self.date_and_time_of_last_tick,
            trigger: self.trigger_date_and_time,
            trigger_duration: self.trigger_duration@,
            is_enabled: self.is_enabled,
            enable_on: self.enable_on,
            store_policy: self.store_policy,
        }
    }
}

impl TriggerState {
    /// A trigger that has seen nothing yet: disabled until the first
    /// reading, the motion signal taken for low, no image ever kept.
    pub fn new(enable_on: EnableOnConditions, trigger_duration: Span) -> (r: TriggerState)
        ensures
            r@ == (TriggerView {
                filter: FilterState::initial(false, HOLD_SECONDS * NANOS_PER_SECOND),
                last_tick: None,
                trigger: None,
                trigger_duration: trigger_duration@,
                is_enabled: false,
                enable_on,
                store_policy: StorePolicy::Never,
            }),
    {
        TriggerState {
            filter: DebounceFilter::new(false, Span::seconds(HOLD_SECONDS)),
            date_and_time_of_last_tick: None,
            trigger_date_and_time: None,
            trigger_duration,
            is_enabled: false,
            enable_on,
            store_policy: StorePolicy::Never,
        }
    }

    /// The same trigger with another policy on keeping images.
    pub fn with_store_policy(self, store_policy: StorePolicy) -> (r: TriggerState)
        ensures
            r@ == (TriggerView { store_policy, ..self@ }),
    {
        let mut state = self;
        state.store_policy = store_policy;
        state
    }

    /// The time from the last tick's reading to the date and time given.
    fn duration_since_last_tick(&self, date: Date, time: Time) -> (r: Span)
        ensures
            r@ == span_since(self@.last_tick, date, time),
            -(0x1_0000_0000 + 1) * NANOS_PER_DAY < r@ < (0x1_0000_0000 + 1) * NANOS_PER_DAY,
    {
        match self.date_and_time_of_last_tick {
            Some((last_date, last_time)) => {
                let days: Span = date.since(last_date);
                let rest: Span = time.since(last_time);
                days.saturating_plus(rest)
            },
            None => Span::zero(),
        }
    }

    /// Whether the time from the last tick's reading to the date and time
    /// given can be believed.
    fn are_date_and_time_of_last_tick_valid(&self, current_date: Date, current_time: Time) -> (r:
        bool)
        ensures
            r == is_plausible(span_since(self@.last_tick, current_date, current_time)),
    {
        self.duration_since_last_tick(current_date, current_time).is_less_than(
            Span::days(IMPLAUSIBLE_DAYS),
        )
    }

    /// The first part of a tick: the schedule.
    pub fn prepare(&mut self, current_date_and_time: Option<(Date, Time)>)
        ensures
            final(self)@ == old(self)@.prepared(current_date_and_time),
    {
        if let Some((_, current_time)) = current_date_and_time {
            self.is_enabled = self.enable_on.should_be_enabled(current_time);
        }
    }

    /// Whether the second part of the tick needs the level of the motion
    /// signal.
    pub fn needs_level(&self, current_date_and_time: Option<(Date, Time)>) -> (r: bool)
        ensures
            r == self@.needs_level(current_date_and_time),
    {
        match current_date_and_time {
            Some((current_date, current_time)) => self.are_date_and_time_of_last_tick_valid(
                current_date,
                current_time,
            ),
            None => false,
        }
    }

    /// The second part of a tick: the time that has passed and the level of
    /// the motion signal, where it was needed and read, and the reading to
    /// remember.
    pub fn complete(&mut self, current_date_and_time: Option<(Date, Time)>, level: Option<bool>)
        ensures
            final(self)@ == old(self)@.completed(current_date_and_time, level),
    {
        if let Some((current_date, current_time)) = current_date_and_time {
            if self.are_date_and_time_of_last_tick_valid(current_date, current_time) {
                if let Some(raw) = level {
                    let delta: Span = self.duration_since_last_tick(current_date, current_time);
                    self.filter.feed(delta, raw);
                }
            }
            if self.is_enabled && self.filter.level() {
                self.trigger_date_and_time = current_date_and_time;
            }
        }
        self.date_and_time_of_last_tick = current_date_and_time;
    }

    /// Whether an image is to be captured.
    pub fn needs_to_capture_image(&self) -> (r: bool)
        ensures
            r == self@.needs_capture(),
    {
        self.is_enabled
    }

    /// The filter over the motion signal, as it stands.
    pub fn filter(&self) -> (r: DebounceFilter)
        ensures
            r@ == self@.filter,
    {
        self.filter
    }

    /// The clock reading of the last tick, if the clock gave one.
    pub fn date_and_time_of_last_tick(&self) -> (r: Option<(Date, Time)>)
        ensures
            r == self@.last_tick,
    {
        self.date_and_time_of_last_tick
    }

    /// The clock reading at the last confirmed motion, if there was one.
    pub fn trigger_date_and_time(&self) -> (r: Option<(Date, Time)>)
        ensures
            r == self@.trigger,
    {
        self.trigger_date_and_time
    }

    /// Whether an image is to be kept.
    pub fn needs_to_store_image(&self) -> (r: bool)
        ensures
            r == self@.needs_store(),
    {
        match self.store_policy {
            StorePolicy::Never => false,
            StorePolicy::WhileTriggered => {
                if let Some((trigger_date, trigger_time)) = self.trigger_date_and_time {
                    let duration_since_trigger: Span = self.duration_since_last_tick(
                        trigger_date,
                        trigger_time,
                    ).negated();
                    duration_since_trigger.is_at_most(self.trigger_duration)
                } else {
                    false
                }
            },
        }
    }
}

/// Decides if the camera should capture images and also if it should store
/// the image in the storage device.
pub struct ImageTrigger<P: MotionPin> {
    pir_sensor: P,
    state: TriggerState,
}

impl<P: MotionPin> ImageTrigger<P> {
    /// What the trigger holds, apart from the pin.
    pub closed spec fn state(&self) -> TriggerView {
        self.state@
    }

    /// A trigger on the given pin. It confirms motion once the pin has
    /// been high for the hold time, and never asks for an image to be kept.
    pub fn new(pir_sensor: P, enable_on: EnableOnConditions, trigger_duration: Span) -> (r: Self)
        ensures
            r.state() == (TriggerView {
                filter: FilterState::initial(false, HOLD_SECONDS * NANOS_PER_SECOND),
                last_tick: None,
                trigger: None,
                trigger_duration: trigger_duration@,
                is_enabled: false,
                enable_on,
                store_policy: StorePolicy::Never,
            }),
    {
        ImageTrigger { pir_sensor, state: TriggerState::new(enable_on, trigger_duration) }
    }

    /// The same trigger with another policy on keeping images.
    pub fn with_store_policy(self, store_policy: StorePolicy) -> (r: Self)
        ensures
            r.state() == (TriggerView { store_policy, ..self.state() }),
    {
        ImageTrigger {
            pir_sensor: self.pir_sensor,
            state: self.state.with_store_policy(store_policy),
        }
    }

    /// The state of the trigger, apart from the pin.
    pub fn trigger_state(&self) -> (r: &TriggerState)
        ensures
            r@ == self.state(),
    {
        &self.state
    }

    /// One tick with the clock's reading, or with none where the clock was
    /// not available. The pin is read only where the level is needed: with
    /// a reading that is not a jump of the clock. On
    /// success the state is that of a whole tick with the level read; where
    /// the pin fails, its error is returned and only the first part of the
    /// tick has taken place.
    pub fn tick(&mut self, current_date_and_time: Option<(Date, Time)>) -> (r: Result<
        (),
        P::Error,
    >)
        ensures
            r.is_ok() ==> exists|level: Option<bool>|
                {
                    &&& level.is_some() == old(self).state().prepared(
                        current_date_and_time,
                    ).needs_level(current_date_and_time)
                    &&& final(self).state() == #[trigger] old(self).state().ticked(
                        current_date_and_time,
                        level,
                    )
                },
            r.is_err() ==> {
                &&& old(self).state().prepared(current_date_and_time).needs_level(
                    current_date_and_time,
                )
                &&& final(self).state() == old(self).state().prepared(current_date_and_time)
            },
            !old(self).state().prepared(current_date_and_time).needs_level(current_date_and_time)
                ==> r.is_ok(),
    {
        self.state.prepare(current_date_and_time);
        let level: Option<bool> = if self.state.needs_level(current_date_and_time) {
            match self.pir_sensor.is_high() {
                Ok(raw) => Some(raw),
                Err(error) => {
                    return Err(error);
                },
            }
        } else {
            None
        };
        self.state.complete(current_date_and_time, level);
        assert(self.state() == old(self).state().ticked(current_date_and_time, level));
        Ok(())
    }

    /// Whether an image is to be captured.
    pub fn needs_to_capture_image(&self) -> (r: bool)
        ensures
            r == self.state().needs_capture(),
    {
        self.state.needs_to_capture_image()
    }

    /// Whether an image is to be kept.
    pub fn needs_to_store_image(&self) -> (r: bool)
        ensures
            r == self.state().needs_store(),
    {
        self.state.needs_to_store_image()
    }
}

/// A jump of the clock leaves the filter alone: where the time since the
/// last reading is implausibly long, the level of the pin is not asked for,
/// and whatever level is given, the tick leaves the filter as it was. The
/// reading is marked as confirmed motion only where the trigger is enabled
/// and the filter reported a high level before.
pub proof fn lemma_clock_jump_leaves_the_filter(
    state: TriggerView,
    date: Date,
    time: Time,
    level: Option<bool>,
)
    requires
        !is_plausible(span_since(state.last_tick, date, time)),
    ensures
        !state.prepared(Some((date, time))).needs_level(Some((date, time))),
        state.ticked(Some((date, time)), level).filter == state.filter,
        state.ticked(Some((date, time)), level).last_tick == Some((date, time)),
        state.ticked(Some((date, time)), level).trigger == if state.enable_on.spec_should_be_enabled(
            time,
        ) && state.filter.level {
            Some((date, time))
        } else {
            state.trigger
        },
{
}

/// A tick moves the time of the last confirmed motion only to its own
/// reading, and only while the trigger is enabled and the filter reports a
/// high level.
pub proof fn lemma_trigger_marks_confirmed_motion(
    state: TriggerView,
    now: Option<(Date, Time)>,
    level: Option<bool>,
)
    ensures
        ({
            let next = state.ticked(now, level);
            next.trigger != state.trigger ==> {
                &&& next.trigger == now
                &&& now.is_some()
                &&& next.is_enabled
                &&& next.filter.level
            }
        }),
{
}

/// No tick changes the schedule, the trigger duration or the policy.
pub proof fn lemma_tick_keeps_settings(
    state: TriggerView,
    now: Option<(Date, Time)>,
    level: Option<bool>,
)
    ensures
        state.ticked(now, level).trigger_duration == state.trigger_duration,
        state.ticked(now, level).enable_on == state.enable_on,
        state.ticked(now, level).store_policy == state.store_policy,
        state.ticked(now, level).filter.hold_threshold == state.filter.hold_threshold,
        state.ticked(now, level).last_tick == now,
{
}

/// One tick of a run of ticks: the reading that the clock gave and the
/// level that the pin gave.
pub struct TickSample {
    pub date: Date,
    pub time: Time,
    pub raw: bool,
}

impl TriggerView {
    /// The trigger after a run of ticks, each with a reading and a level.
    pub open spec fn after_ticks(self, ticks: Seq<TickSample>) -> TriggerView
        decreases ticks.len(),
    {
        if ticks.len() == 0 {
            self
        } else {
            self.after_ticks(ticks.drop_last()).ticked(
                Some((ticks.last().date, ticks.last().time)),
                Some(ticks.last().raw),
            )
        }
    }

    /// The time that the last tick of a run credits: the time since the
    /// reading of the tick before it.
    pub open spec fn last_delta(self, ticks: Seq<TickSample>) -> int
        recommends
            ticks.len() > 0,
    {
        span_since(
            self.after_ticks(ticks.drop_last()).last_tick,
            ticks.last().date,
            ticks.last().time,
        )
    }

    /// Whether no tick of a run comes after a jump of the clock.
    pub open spec fn runs_without_jump(self, ticks: Seq<TickSample>) -> bool
        decreases ticks.len(),
    {
        ticks.len() == 0 || (self.runs_without_jump(ticks.drop_last()) && is_plausible(
            self.last_delta(ticks),
        ))
    }

    /// What a run of ticks feeds to the filter: for each tick the time
    /// since the reading before it, and the level of the pin.
    pub open spec fn samples_of(self, ticks: Seq<TickSample>) -> Seq<Sample>
        decreases ticks.len(),
    {
        if ticks.len() == 0 {
            Seq::<Sample>::empty()
        } else {
            self.samples_of(ticks.drop_last()).push(
                Sample { delta: self.last_delta(ticks), raw: ticks.last().raw },
            )
        }
    }
}

/// A run of ticks without a jump of the clock feeds the filter tick by
/// tick: the filter after the run is the filter after the samples of the
/// run.
pub proof fn lemma_run_feeds_the_filter(state: TriggerView, ticks: Seq<TickSample>)
    requires
        state.runs_without_jump(ticks),
    ensures
        state.samples_of(ticks).len() == ticks.len(),
        forall|i: int|
            0 <= i < ticks.len() ==> (#[trigger] state.samples_of(ticks)[i]).raw == ticks[i].raw,
        state.after_ticks(ticks).filter == state.filter.after(state.samples_of(ticks)),
        ticks.len() > 0 ==> state.samples_of(ticks).drop_last() == state.samples_of(
            ticks.drop_last(),
        ),
    decreases ticks.len(),
{
    if ticks.len() > 0 {
        let front = ticks.drop_last();
        lemma_run_feeds_the_filter(state, front);
        let samples = state.samples_of(ticks);
        assert(samples.drop_last() =~= state.samples_of(front));
        assert(samples.last() == Sample { delta: state.last_delta(ticks), raw: ticks.last().raw });
        assert forall|i: int| 0 <= i < ticks.len() implies (#[trigger] samples[i]).raw
            == ticks[i].raw by {
            if i < front.len() {
                assert(samples[i] == state.samples_of(front)[i]);
                assert(front[i] == ticks[i]);
            }
        }
    }
}

/// A flicker never shows in a run of ticks, and marks no motion. Where the
/// filter reports the level it last saw, and the pin then gives the other
/// level in every tick of a run without a jump of the clock whose ticks
/// after the first add up to less than the hold time, the reported level
/// stays as it was, also in the tick in which the pin comes back to it;
/// and where that level is low, the time of the last confirmed motion
/// stays as it was.
pub proof fn lemma_flicker_marks_nothing(state: TriggerView, ticks: Seq<TickSample>)
    requires
        state.filter.elapsed >= 0,
        state.filter.raw_level == state.filter.level,
        ticks.len() >= 1,
        state.runs_without_jump(ticks),
        forall|j: int| 0 <= j < ticks.len() ==> (#[trigger] ticks[j]).raw != state.filter.level,
        debounce::credited_time(state.samples_of(ticks).subrange(1, ticks.len() as int))
            < state.filter.hold_threshold,
    ensures
        state.after_ticks(ticks).filter.level == state.filter.level,
        !state.filter.level ==> state.after_ticks(ticks).trigger == state.trigger,
        forall|date: Date, time: Time| #[trigger]
            state.after_ticks(ticks).ticked(
                Some((date, time)),
                Some(state.filter.level),
            ).filter.level == state.filter.level,
    decreases ticks.len(),
{
    let samples = state.samples_of(ticks);
    let front = ticks.drop_last();
    lemma_run_feeds_the_filter(state, ticks);
    assert forall|j: int| 0 <= j < samples.len() implies (#[trigger] samples[j]).raw
        != state.filter.level by {
        assert(ticks[j].raw != state.filter.level);
    }
    debounce::lemma_flicker_keeps_level(state.filter, samples);
    if ticks.len() >= 2 {
        let tail = samples.subrange(1, samples.len() as int);
        assert(tail.drop_last() =~= state.samples_of(front).subrange(1, front.len() as int));
        debounce::lemma_credited_time_grows(tail);
        assert forall|j: int| 0 <= j < front.len() implies (#[trigger] front[j]).raw
            != state.filter.level by {
            assert(front[j] == ticks[j]);
        }
        lemma_flicker_marks_nothing(state, front);
    } else {
        assert(front.len() == 0);
        assert(state.after_ticks(front) == state);
    }
    lemma_trigger_marks_confirmed_motion(
        state.after_ticks(front),
        Some((ticks.last().date, ticks.last().time)),
        Some(ticks.last().raw),
    );
}

} // verus!
