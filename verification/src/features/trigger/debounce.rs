//! A level filter: a raw level is trusted only once it has been seen
//! without interruption for a hold time.

use crate::clock::clamp_nanos;
use crate::clock::Span;
use vstd::prelude::*;

verus! {

/// What a [`DebounceFilter`] holds, as mathematical values. Times are in
/// nanoseconds.
pub struct FilterState {
    /// The raw level at the last observation.
    pub raw_level: bool,
    /// The time credited to the raw level since it last changed.
    pub elapsed: int,
    /// The time a raw level has to last before it is reported.
    pub hold_threshold: int,
    /// The level that the filter reports.
    pub level: bool,
}

/// One step of a trace: the time that passed, then the raw level seen.
pub struct Sample {
    pub delta: int,
    pub raw: bool,
}

/// The part of a span that counts as observation time: a span that leads
/// back in time counts for nothing.
pub open spec fn credited(delta: int) -> int {
    if delta > 0 {
        delta
    } else {
        0
    }
}

/// The observation time of a whole trace.
pub open spec fn credited_time(samples: Seq<Sample>) -> int
    decreases samples.len(),
{
    if samples.len() == 0 {
        0
    } else {
        credited_time(samples.drop_last()) + credited(samples.last().delta)
    }
}

impl FilterState {
    /// The filter before any observation: it reports `level` and has seen
    /// it for no time yet.
    pub open spec fn initial(level: bool, hold_threshold: int) -> FilterState {
        FilterState { raw_level: level, elapsed: 0, hold_threshold, level }
    }

    /// The state after `delta` nanoseconds have passed: the time is
    /// credited to the current raw level.
    pub open spec fn advanced(self, delta: int) -> FilterState {
        FilterState { elapsed: clamp_nanos(self.elapsed + credited(delta)), ..self }
    }

    /// The state after the raw level `raw` was seen: a changed level starts
    /// at no time, and a level that has lasted for the hold time is
    /// reported.
    pub open spec fn observed(self, raw: bool) -> FilterState {
        let elapsed = if raw == self.raw_level {
            self.elapsed
        } else {
            0
        };
        FilterState {
            raw_level: raw,
            elapsed,
            hold_threshold: self.hold_threshold,
            level: if elapsed >= self.hold_threshold {
                raw
            } else {
                self.level
            },
        }
    }

    /// The state after `delta` nanoseconds have passed and the raw level
    /// `raw` was then seen: time and level are taken in together.
    pub open spec fn fed(self, delta: int, raw: bool) -> FilterState {
        self.advanced(delta).observed(raw)
    }

    /// The state after a whole trace of samples.
    pub open spec fn after(self, samples: Seq<Sample>) -> FilterState
        decreases samples.len(),
    {
        if samples.len() == 0 {
            self
        } else {
            self.after(samples.drop_last()).advanced(samples.last().delta).observed(
                samples.last().raw,
            )
        }
    }
}

/// A filter over a raw level.
///
/// The reported level follows the raw level only after the raw level has
/// been observed without change for the hold time.
#[derive(Clone, Copy, Debug)]
pub struct DebounceFilter {
    raw_level: bool,
    elapsed: Span,
    hold_threshold: Span,
    level: bool,
}

impl View for DebounceFilter {
    type V = FilterState;

    closed spec fn view(&self) -> FilterState {
        FilterState {
            raw_level: self.raw_level,
            elapsed: self.elapsed@,
            hold_threshold: self.hold_threshold@,
            level: self.level,
        }
    }
}

impl DebounceFilter {
    #[verifier::type_invariant]
    closed spec fn well_formed(self) -> bool {
        self.elapsed@ >= 0
    }

    /// A filter that reports `initial_level` until the other level has
    /// lasted for `hold_threshold`.
    pub fn new(initial_level: bool, hold_threshold: Span) -> (r: DebounceFilter)
        ensures
            r@ == FilterState::initial(initial_level, hold_threshold@),
    {
        DebounceFilter {
            raw_level: initial_level,
            elapsed: Span::zero(),
            hold_threshold,
            level: initial_level,
        }
    }

    /// Credits `delta` to the current raw level.
    pub fn tick(&mut self, delta: Span)
        ensures
            final(self)@ == old(self)@.advanced(delta@),
    {
        proof {
            use_type_invariant(&*self);
        }
        if delta.nanos > 0 {
            self.elapsed = self.elapsed.saturating_plus(delta);
        }
    }

    /// Takes in the raw level `raw` and returns the level that the filter
    /// reports after it.
    pub fn observe(&mut self, raw: bool) -> (r: bool)
        ensures
            final(self)@ == old(self)@.observed(raw),
            r == final(self)@.level,
    {
        proof {
            use_type_invariant(&*self);
        }
        if raw != self.raw_level {
            self.raw_level = raw;
            self.elapsed = Span::zero();
        }
        if self.hold_threshold.is_at_most(self.elapsed) {
            self.level = raw;
        }
        self.level
    }

    /// Credits `delta` to the current raw level, takes in the raw level
    /// `raw` and returns the level that the filter reports after it.
    pub fn feed(&mut self, delta: Span, raw: bool) -> (r: bool)
        ensures
            final(self)@ == old(self)@.fed(delta@, raw),
            r == final(self)@.level,
    {
        self.tick(delta);
        self.observe(raw)
    }

    /// The level that the filter reports.
    pub fn level(&self) -> (r: bool)
        ensures
            r == self@.level,
    {
        self.level
    }

    /// The raw level at the last observation.
    pub fn raw_level(&self) -> (r: bool)
        ensures
            r == self@.raw_level,
    {
        self.raw_level
    }

    /// The time credited to the raw level since it last changed.
    pub fn elapsed(&self) -> (r: Span)
        ensures
            r@ == self@.elapsed,
            r@ >= 0,
    {
        proof {
            use_type_invariant(self);
        }
        self.elapsed
    }

    /// The time that a raw level has to last before it is reported.
    pub fn hold_threshold(&self) -> (r: Span)
        ensures
            r@ == self@.hold_threshold,
    {
        self.hold_threshold
    }
}

/// A step changes the reported level only to the raw level just seen, and
/// only when that level has been credited with the hold time. Where the
/// raw level itself changed in this step, its time starts at zero.
pub proof fn lemma_change_needs_hold(state: FilterState, delta: int, raw: bool)
    ensures
        ({
            let next = state.advanced(delta).observed(raw);
            &&& next.hold_threshold == state.hold_threshold
            &&& next.raw_level == raw
            &&& raw != state.raw_level ==> next.elapsed == 0
            &&& next.level != state.level ==> next.level == raw && next.elapsed
                >= state.hold_threshold
        }),
{
}

/// A trace leaves the hold time as it was, leaves the credited time
/// non-negative, and ends at the raw level of its last sample.
pub proof fn lemma_after_basics(state: FilterState, samples: Seq<Sample>)
    requires
        state.elapsed >= 0,
    ensures
        state.after(samples).hold_threshold == state.hold_threshold,
        state.after(samples).elapsed >= 0,
        state.after(samples).raw_level == if samples.len() == 0 {
            state.raw_level
        } else {
            samples.last().raw
        },
    decreases samples.len(),
{
    if samples.len() > 0 {
        lemma_after_basics(state, samples.drop_last());
    }
}

/// The time credited to the raw level is the observation time since that
/// level was first seen: where sample `since` brought a new raw level and
/// every later sample showed the same level, the credited time at the end is
/// the time of the samples after `since`, held at the end of the range.
pub proof fn lemma_elapsed_counts_unbroken_time(
    state: FilterState,
    samples: Seq<Sample>,
    since: int,
)
    requires
        state.elapsed >= 0,
        0 <= since < samples.len(),
        samples[since].raw != state.after(samples.subrange(0, since)).raw_level,
        forall|j: int| since <= j < samples.len() ==> (#[trigger] samples[j]).raw == samples[since].raw,
    ensures
        state.after(samples).elapsed == clamp_nanos(
            credited_time(samples.subrange(since + 1, samples.len() as int)),
        ),
        state.after(samples).elapsed <= credited_time(
            samples.subrange(since + 1, samples.len() as int),
        ),
    decreases samples.len(),
{
    let front = samples.drop_last();
    let tail = samples.subrange(since + 1, samples.len() as int);
    lemma_after_basics(state, front);
    lemma_credited_time_grows(tail);
    if since == samples.len() - 1 {
        assert(front =~= samples.subrange(0, since));
        assert(tail.len() == 0);
    } else {
        assert(front.subrange(0, since) =~= samples.subrange(0, since));
        assert(front[since] == samples[since]);
        assert forall|j: int| since <= j < front.len() implies (#[trigger] front[j]).raw
            == front[since].raw by {
            assert(front[j] == samples[j]);
        }
        lemma_elapsed_counts_unbroken_time(state, front, since);
        assert(tail.drop_last() =~= front.subrange(since + 1, front.len() as int));
        lemma_credited_time_grows(tail.drop_last());
        assert(tail.last() == samples.last());
        assert(front.last() == samples[samples.len() - 2]);
    }
}

/// A raw level that lasts is reported: where sample `since` brought a new
/// raw level, every later sample showed the same level, and the samples
/// after `since` add up to the hold time or more, the filter reports that
/// level at the end.
pub proof fn lemma_persistent_level_is_reported(
    state: FilterState,
    samples: Seq<Sample>,
    since: int,
)
    requires
        state.elapsed >= 0,
        state.hold_threshold <= i128::MAX,
        0 <= since < samples.len(),
        samples[since].raw != state.after(samples.subrange(0, since)).raw_level,
        forall|j: int| since <= j < samples.len() ==> (#[trigger] samples[j]).raw == samples[since].raw,
        credited_time(samples.subrange(since + 1, samples.len() as int))
            >= state.hold_threshold,
    ensures
        state.after(samples).level == samples[since].raw,
{
    lemma_elapsed_counts_unbroken_time(state, samples, since);
    lemma_after_basics(state, samples.drop_last());
    lemma_after_basics(state, samples);
}

/// A change of the reported level at the end of a trace means that the raw
/// level has lasted: the samples since the raw level was first seen add up
/// to the hold time or more.
pub proof fn lemma_change_only_after_persistence(
    state: FilterState,
    samples: Seq<Sample>,
    since: int,
)
    requires
        state.elapsed >= 0,
        0 <= since < samples.len(),
        samples[since].raw != state.after(samples.subrange(0, since)).raw_level,
        forall|j: int| since <= j < samples.len() ==> (#[trigger] samples[j]).raw == samples[since].raw,
        state.after(samples).level != state.after(samples.drop_last()).level,
    ensures
        state.after(samples).level == samples[since].raw,
        credited_time(samples.subrange(since + 1, samples.len() as int))
            >= state.hold_threshold,
{
    lemma_elapsed_counts_unbroken_time(state, samples, since);
    lemma_after_basics(state, samples.drop_last());
    lemma_change_needs_hold(
        state.after(samples.drop_last()),
        samples.last().delta,
        samples.last().raw,
    );
}

/// A flicker never shows: where the filter reports the level it last saw,
/// and the raw level then turns to the other level for less than the hold
/// time, the reported level stays as it was, during the flicker and when
/// the raw level comes back.
pub proof fn lemma_flicker_keeps_level(state: FilterState, samples: Seq<Sample>)
    requires
        state.elapsed >= 0,
        state.raw_level == state.level,
        samples.len() >= 1,
        forall|j: int| 0 <= j < samples.len() ==> (#[trigger] samples[j]).raw != state.level,
        credited_time(samples.subrange(1, samples.len() as int)) < state.hold_threshold,
    ensures
        state.after(samples).level == state.level,
        forall|delta: int| #[trigger]
            state.after(samples).advanced(delta).observed(state.level).level == state.level,
{
    lemma_flicker_unreported(state, samples);
}

/// During a flicker the reported level stays as it was.
proof fn lemma_flicker_unreported(state: FilterState, samples: Seq<Sample>)
    requires
        state.elapsed >= 0,
        state.raw_level == state.level,
        samples.len() >= 1,
        forall|j: int| 0 <= j < samples.len() ==> (#[trigger] samples[j]).raw != state.level,
        credited_time(samples.subrange(1, samples.len() as int)) < state.hold_threshold,
    ensures
        state.after(samples).level == state.level,
    decreases samples.len(),
{
    let front = samples.drop_last();
    let tail = samples.subrange(1, samples.len() as int);
    assert(samples[0].raw != state.level);
    assert(state.after(samples) == state.after(front).advanced(samples.last().delta).observed(
        samples.last().raw,
    ));
    if samples.len() == 1 {
        assert(state.after(front) == state);
        assert(tail.len() == 0);
        assert(credited_time(tail) == 0);
    } else {
        assert(tail.drop_last() =~= front.subrange(1, front.len() as int));
        lemma_credited_time_grows(tail);
        assert forall|j: int| 0 <= j < front.len() implies (#[trigger] front[j]).raw
            != state.level by {
            assert(front[j] == samples[j]);
        }
        lemma_flicker_unreported(state, front);
        assert(samples.subrange(0, 0).len() == 0);
        assert(state.after(samples.subrange(0, 0)) == state);
        assert forall|j: int| 0 <= j < samples.len() implies (#[trigger] samples[j]).raw
            == samples[0].raw by {
            assert(samples[j].raw != state.level);
        }
        lemma_elapsed_counts_unbroken_time(state, samples, 0);
        lemma_after_basics(state, front);
    }
}

/// The observation time of a trace is at least that of the trace without
/// its last sample, and never negative.
pub proof fn lemma_credited_time_grows(samples: Seq<Sample>)
    ensures
        credited_time(samples) >= 0,
        samples.len() > 0 ==> credited_time(samples) >= credited_time(samples.drop_last()),
    decreases samples.len(),
{
    if samples.len() > 0 {
        lemma_credited_time_grows(samples.drop_last());
    }
}

} // verus!
