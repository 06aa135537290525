//! The sampling/mood state machine: elapsed-time gating over a wrapping
//! seconds-of-minute counter, conversion of a raw sensor reading into a
//! report byte and a two-state mood, and the controller that ties them
//! together.

use vstd::prelude::*;

verus! {

/// The two-state display selector. `Sad` is the power-on state; a due
/// sample event switches it according to the reading's threshold.
#[derive(Clone, Copy, PartialEq, Eq, Structural, Debug)]
pub enum Mood {
    Sad,
    Happy,
}

/// Seconds elapsed from `last` to `now` on a clock that wraps at 60,
/// assuming at most one wrap between the two observations.
pub open spec fn spec_elapsed(now: u8, last: u8) -> int {
    if now >= last {
        now - last
    } else {
        60 + now - last
    }
}

/// Elapsed seconds-of-minute between two clock observations, handling the
/// wrap of the counter at 60.
pub fn elapsed_seconds(now: u8, last: u8) -> (e: u8)
    requires
        now < 60,
        last < 60,
    ensures
        e == spec_elapsed(now, last),
        e < 60,
{
    if now >= last {
        now - last
    } else {
        (60 + now) - last
    }
}

/// Elapsed time on the wrapping clock is subtraction modulo 60: for any two
/// in-range observations, `spec_elapsed(now, last) == (now - last) mod 60`.
pub proof fn lemma_elapsed_is_mod60(now: u8, last: u8)
    requires
        now < 60,
        last < 60,
    ensures
        spec_elapsed(now, last) == (now - last) % 60,
{
    if now >= last {
        vstd::arithmetic::div_mod::lemma_small_mod((now - last) as nat, 60nat);
    } else {
        vstd::arithmetic::div_mod::lemma_mod_add_multiples_vanish(now - last, 60);
        vstd::arithmetic::div_mod::lemma_small_mod((60 + now - last) as nat, 60nat);
    }
}

/// The byte reported over the serial link for a raw reading: the reading
/// less a baseline of 800 (never below zero), scaled down by 10, and
/// clamped to the byte range.
pub open spec fn spec_report(reading: u16) -> u8 {
    if reading <= 800 {
        0u8
    } else {
        let scaled = (reading - 800) / 10;
        if scaled > 255 {
            255u8
        } else {
            scaled as u8
        }
    }
}

/// Derive the serial report byte from a raw sensor reading.
pub fn report_byte(reading: u16) -> (b: u8)
    ensures
        b == spec_report(reading),
{
    let offset: u16 = if reading <= 800 {
        0
    } else {
        reading - 800
    };
    let scaled: u16 = offset / 10;
    if scaled > 255 {
        255
    } else {
        scaled as u8
    }
}

/// The report byte is monotonic: above the baseline, a larger reading never
/// reports a smaller byte.
pub proof fn lemma_report_monotonic(lo: u16, hi: u16)
    requires
        800 <= lo <= hi,
    ensures
        spec_report(lo) <= spec_report(hi),
{
    if 800 < lo {
        vstd::arithmetic::div_mod::lemma_div_is_ordered(lo - 800, hi - 800, 10);
    }
}

/// At or below the baseline the report byte is zero.
pub proof fn lemma_report_zero_below_baseline(reading: u16)
    requires
        reading <= 800,
    ensures
        spec_report(reading) == 0,
{
}

/// The mood derived from a raw reading: sad strictly below the threshold of
/// 1100, happy at or above it.
pub open spec fn spec_mood(reading: u16) -> Mood {
    if reading < 1100 {
        Mood::Sad
    } else {
        Mood::Happy
    }
}

/// Derive the mood from a raw sensor reading.
pub fn mood_of(reading: u16) -> (m: Mood)
    ensures
        m == spec_mood(reading),
{
    if reading < 1100 {
        Mood::Sad
    } else {
        Mood::Happy
    }
}

/// The mood is a pure threshold function of the latest reading: it is `Sad`
/// exactly when the reading is below 1100.
pub proof fn lemma_mood_threshold(reading: u16)
    ensures
        spec_mood(reading) == Mood::Sad <==> reading < 1100,
{
}

/// The state machine that paces sensor acquisition by elapsed wall-clock
/// time. It keeps the current mood and the seconds-of-minute value at which
/// the sensor was last sampled; both persist across iterations of the outer
/// control loop.
#[derive(Clone, Copy, PartialEq, Eq, Structural, Debug)]
pub struct MoodController {
    /// The mood as of the last accepted sample; `Sad` until the first sample.
    pub mood: Mood,
    /// Seconds-of-minute at which the sensor was last sampled.
    pub last_sample_time: u8,
}

impl MoodController {
    /// Well-formed controllers hold a timestamp the wrapping clock can
    /// actually produce.
    pub open spec fn wf(self) -> bool {
        self.last_sample_time < 60
    }

    /// Start sad, with the clock value read at startup as the baseline the
    /// first sampling decision counts from.
    pub fn new(now: u8) -> (c: MoodController)
        requires
            now < 60,
        ensures
            c.mood == Mood::Sad,
            c.last_sample_time == now,
            c.wf(),
    {
        MoodController { mood: Mood::Sad, last_sample_time: now }
    }

    /// Whether a sample is due: more than 30 seconds have elapsed since the
    /// last one. The caller reads the sensor only when this holds.
    pub fn due(&self, now: u8) -> (b: bool)
        requires
            now < 60,
            self.wf(),
        ensures
            b == (spec_elapsed(now, self.last_sample_time) > 30),
    {
        elapsed_seconds(now, self.last_sample_time) > 30
    }

    /// One pass of the state machine. When a sample is due, the given raw
    /// reading (sampled by the caller) sets the mood and the sample
    /// timestamp, and the report byte to transmit is returned; otherwise
    /// nothing changes, nothing is reported, and the reading is ignored.
    pub fn tick(&mut self, now: u8, reading: u16) -> (report: Option<u8>)
        requires
            now < 60,
            old(self).wf(),
        ensures
            final(self).wf(),
            spec_elapsed(now, old(self).last_sample_time) > 30 ==> {
                &&& final(self).mood == spec_mood(reading)
                &&& final(self).last_sample_time == now
                &&& report == Some(spec_report(reading))
            },
            spec_elapsed(now, old(self).last_sample_time) <= 30 ==> {
                &&& *final(self) == *old(self)
                &&& report is None
            },
    {
        if self.due(now) {
            self.mood = mood_of(reading);
            self.last_sample_time = now;
            Some(report_byte(reading))
        } else {
            None
        }
    }
}

} // verus!
