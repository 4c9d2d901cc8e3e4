//! Wall-clock samples.

use vstd::prelude::*;

verus! {

/// Seconds in a day.
pub const SECONDS_PER_DAY: u64 = 86400;

/// The model of a clock sample in contracts: a time of day in hours,
/// minutes and seconds since local midnight.
pub struct TimeOfDay {
    pub hour: nat,
    pub minute: nat,
    pub second: nat,
}

impl TimeOfDay {
    /// The three components are in the ranges of a twenty-four hour clock.
    pub open spec fn is_valid(self) -> bool {
        self.hour < 24 && self.minute < 60 && self.second < 60
    }

    /// Seconds that have passed since midnight.
    pub open spec fn seconds_since_midnight(self) -> nat {
        self.hour * 3600 + self.minute * 60 + self.second
    }

    /// The time of day that lies `seconds` after midnight.
    pub open spec fn at_second_of_day(seconds: nat) -> TimeOfDay {
        TimeOfDay { hour: seconds / 3600, minute: (seconds / 60) % 60, second: seconds % 60 }
    }

    /// The time that a clock shows `seconds` after it showed `self`, if it
    /// runs evenly and is not set in between. Past midnight it starts over.
    pub open spec fn plus_seconds(self, seconds: nat) -> TimeOfDay {
        Self::at_second_of_day((self.seconds_since_midnight() + seconds) % SECONDS_PER_DAY as nat)
    }

    /// A valid time of day is the one that lies its own number of seconds
    /// after midnight.
    pub proof fn lemma_at_own_second_of_day(self)
        requires
            self.is_valid(),
        ensures
            self.seconds_since_midnight() < SECONDS_PER_DAY,
            Self::at_second_of_day(self.seconds_since_midnight()) == self,
    {
        let seconds = self.seconds_since_midnight();
        let minutes = self.hour * 60 + self.minute;
        assert(seconds == 60 * minutes + self.second);
        assert(seconds / 60 == minutes && seconds % 60 == self.second);
        assert(minutes / 60 == self.hour && minutes % 60 == self.minute);
        assert(seconds == 3600 * self.hour + (60 * self.minute + self.second));
        assert(seconds / 3600 == self.hour);
    }

    /// Every second of the day is a valid time of day, that many seconds
    /// after midnight.
    pub proof fn lemma_second_of_day_is_valid(seconds: nat)
        requires
            seconds < SECONDS_PER_DAY,
        ensures
            Self::at_second_of_day(seconds).is_valid(),
            Self::at_second_of_day(seconds).seconds_since_midnight() == seconds,
    {
        let minutes = seconds / 60;
        assert(seconds == 60 * minutes + seconds % 60);
        assert(minutes == 60 * (minutes / 60) + minutes % 60);
        assert(seconds / 3600 == minutes / 60);
    }

    /// Moving a valid time on gives a valid time; moving it on by nothing
    /// gives the same time; and moving it on twice is moving it on once by
    /// the sum.
    pub proof fn lemma_plus_seconds(self, first: nat, second: nat)
        requires
            self.is_valid(),
        ensures
            self.plus_seconds(first).is_valid(),
            self.plus_seconds(0) == self,
            self.plus_seconds(first).plus_seconds(second) == self.plus_seconds(first + second),
    {
        self.lemma_at_own_second_of_day();
        let start = self.seconds_since_midnight();
        let day = SECONDS_PER_DAY as nat;
        let reached = (start + first) % day;
        Self::lemma_second_of_day_is_valid(reached);
        assert(start % day == start);
        assert((reached + second) % day == (start + first + second) % day) by {
            let days = (start + first) / day;
            assert(start + first == day * days + reached);
            vstd::arithmetic::div_mod::lemma_mod_multiples_vanish(
                days as int,
                (reached + second) as int,
                day as int,
            );
        }
    }

    /// Moving a time on by whole minutes leaves its second as it is and
    /// moves its minute on by that many, starting over after fifty-nine.
    pub proof fn lemma_plus_whole_minutes(self, minutes: nat)
        requires
            self.is_valid(),
        ensures
            self.plus_seconds(60 * minutes).is_valid(),
            self.plus_seconds(60 * minutes).second == self.second,
            self.plus_seconds(60 * minutes).minute == (self.minute + minutes) % 60,
    {
        let day = SECONDS_PER_DAY as nat;
        let total = self.seconds_since_midnight() + 60 * minutes;
        let days = total / day;
        let reached = total % day;
        Self::lemma_second_of_day_is_valid(reached);
        assert(total == day * days + reached);
        // in whole minutes since midnight
        let total_minutes = self.hour * 60 + self.minute + minutes;
        assert(total == 60 * total_minutes + self.second);
        let reached_minutes = total_minutes - 1440 * days;
        assert(reached == 60 * reached_minutes + self.second);
        assert(reached / 60 == reached_minutes && reached % 60 == self.second);
        assert(reached_minutes == self.minute + minutes + 60 * (self.hour - 24 * days));
        vstd::arithmetic::div_mod::lemma_mod_multiples_vanish(
            self.hour - 24 * days,
            (self.minute + minutes) as int,
            60,
        );
    }
}

/// One reading of the wall clock. A sample is taken, looked at once and
/// dropped; nothing is kept from one reading to the next.
#[derive(Clone, Copy, Debug, PartialEq, Eq, Structural)]
pub struct ClockSample {
    hour: u32,
    minute: u32,
    second: u32,
}

impl View for ClockSample {
    type V = TimeOfDay;

    closed spec fn view(&self) -> TimeOfDay {
        TimeOfDay { hour: self.hour as nat, minute: self.minute as nat, second: self.second as nat }
    }
}

impl ClockSample {
    #[verifier::type_invariant]
    spec fn in_range(self) -> bool {
        self.hour < 24 && self.minute < 60 && self.second < 60
    }

    /// Makes the sample `hour:minute:second`, or nothing when a component is
    /// outside a twenty-four hour clock.
    pub fn new(hour: u32, minute: u32, second: u32) -> (sample: Option<ClockSample>)
        ensures
            sample.is_some() <==> hour < 24 && minute < 60 && second < 60,
            sample matches Some(s) ==> s@ == (TimeOfDay {
                hour: hour as nat,
                minute: minute as nat,
                second: second as nat,
            }),
    {
        if hour < 24 && minute < 60 && second < 60 {
            Some(ClockSample { hour, minute, second })
        } else {
            None
        }
    }

    /// The sample that an evenly running clock gives `seconds` later.
    pub fn plus_seconds(&self, seconds: u32) -> (later: ClockSample)
        ensures
            later@ == self@.plus_seconds(seconds as nat),
    {
        proof {
            use_type_invariant(self);
        }
        let since_midnight: u64 = self.hour as u64 * 3600 + self.minute as u64 * 60
            + self.second as u64;
        let second_of_day: u64 = (since_midnight + seconds as u64) % SECONDS_PER_DAY;
        ClockSample {
            hour: (second_of_day / 3600) as u32,
            minute: ((second_of_day / 60) % 60) as u32,
            second: (second_of_day % 60) as u32,
        }
    }

    /// The hour of the sample, from 0 to 23.
    pub fn hour(&self) -> (hour: u32)
        ensures
            hour == self@.hour,
            hour < 24,
    {
        proof {
            use_type_invariant(self);
        }
        self.hour
    }

    /// The minute of the sample, from 0 to 59.
    pub fn minute(&self) -> (minute: u32)
        ensures
            minute == self@.minute,
            minute < 60,
    {
        proof {
            use_type_invariant(self);
        }
        self.minute
    }

    /// The second of the sample, from 0 to 59.
    pub fn second(&self) -> (second: u32)
        ensures
            second == self@.second,
            second < 60,
    {
        proof {
            use_type_invariant(self);
        }
        self.second
    }
}

} // verus!
