//! The reminder scheduler: one check of the clock, and what follows from it.
//!
//! The scheduler is driven from outside. Its driver samples the clock, asks
//! [`check`] what to do, shows the reminder if there is one, sleeps for as
//! long as it was told, and starts again. While the driver evaluates a
//! sample the scheduler is checking; while the driver sleeps it is waiting.
//! Nothing is carried from one round to the next.

use crate::clock::ClockSample;
use crate::clock::TimeOfDay;
use crate::notification::hourly_reminder;
use crate::notification::hourly_reminder_text;
use crate::notification::NotificationRequest;
use crate::notification::NotificationText;
use vstd::prelude::*;

verus! {

/// Seconds that the scheduler rests between two checks.
pub const POLL_INTERVAL_SECONDS: u64 = 60;

/// The rule: a reminder is due when the sample shows minute zero and second
/// zero, whatever the hour.
pub open spec fn reminder_due(t: TimeOfDay) -> bool {
    t.minute == 0 && t.second == 0
}

/// The model of a directive in contracts.
pub struct DirectiveView {
    pub reminder: Option<NotificationText>,
    pub sleep_seconds: nat,
}

/// What the driver is to do after one check: show `reminder`, if there is
/// one, and then sleep for `sleep_seconds`.
#[derive(Debug, PartialEq, Eq)]
pub struct Directive {
    pub reminder: Option<NotificationRequest>,
    pub sleep_seconds: u64,
}

impl View for Directive {
    type V = DirectiveView;

    open spec fn view(&self) -> DirectiveView {
        DirectiveView {
            reminder: match self.reminder {
                Some(request) => Some(request@),
                None => None,
            },
            sleep_seconds: self.sleep_seconds as nat,
        }
    }
}

/// What the scheduler decides on a sample: the hourly reminder exactly when
/// one is due, and in either case a rest of one poll interval.
pub open spec fn decision(t: TimeOfDay) -> DirectiveView {
    DirectiveView {
        reminder: if reminder_due(t) {
            Some(hourly_reminder_text())
        } else {
            None
        },
        sleep_seconds: POLL_INTERVAL_SECONDS as nat,
    }
}

/// The time that the scheduler samples in round `round`, counted from zero,
/// when its first sample is `start` and every round takes exactly one poll
/// interval on an evenly running clock.
pub open spec fn time_of_round(start: TimeOfDay, round: nat) -> TimeOfDay {
    start.plus_seconds(round * POLL_INTERVAL_SECONDS as nat)
}

/// The rule looks at the minute and the second alone: two samples that
/// agree in both get the same decision, whatever their hours.
pub proof fn lemma_decision_ignores_hour(a: TimeOfDay, b: TimeOfDay)
    requires
        a.minute == b.minute,
        a.second == b.second,
    ensures
        reminder_due(a) == reminder_due(b),
        decision(a) == decision(b),
{
}

/// The first round samples the start, and every later round samples what
/// the clock shows one poll interval after the round before it.
pub proof fn lemma_round_follows_round(start: TimeOfDay, round: nat)
    requires
        start.is_valid(),
    ensures
        time_of_round(start, 0) == start,
        time_of_round(start, round + 1) == time_of_round(start, round).plus_seconds(
            decision(time_of_round(start, round)).sleep_seconds,
        ),
{
    start.lemma_plus_seconds(round * POLL_INTERVAL_SECONDS as nat, POLL_INTERVAL_SECONDS as nat);
    assert((round + 1) * POLL_INTERVAL_SECONDS as nat == round * POLL_INTERVAL_SECONDS as nat
        + POLL_INTERVAL_SECONDS as nat);
}

/// From round to round the clock moves on by whole minutes: every round
/// samples the second of the first sample, and the minute of the first
/// sample moved on by the number of rounds.
pub proof fn lemma_rounds_keep_the_second(start: TimeOfDay, round: nat)
    requires
        start.is_valid(),
    ensures
        time_of_round(start, round).is_valid(),
        time_of_round(start, round).second == start.second,
        time_of_round(start, round).minute == (start.minute + round) % 60,
{
    start.lemma_plus_whole_minutes(round);
}

/// A scheduler whose first sample is off the full minute never reminds: no
/// later round samples second zero.
pub proof fn lemma_start_off_the_minute_never_reminds(start: TimeOfDay, round: nat)
    requires
        start.is_valid(),
        start.second != 0,
    ensures
        !reminder_due(time_of_round(start, round)),
        decision(time_of_round(start, round)).reminder.is_none(),
{
    lemma_rounds_keep_the_second(start, round);
}

/// Minute zero comes round every sixty minutes and not in between.
proof fn lemma_minute_zero_every_sixty(reached: nat, past: nat)
    requires
        reached % 60 == 0,
        0 < past < 60,
    ensures
        (reached + 60) % 60 == 0,
        (reached + past) % 60 == past,
{
    let hours = reached / 60;
    assert(reached == 60 * hours);
    assert(reached + 60 == 60 * (hours + 1));
    assert(reached + past == 60 * hours + past);
}

/// A scheduler whose first sample is on a full minute reminds once an hour:
/// in the round that reaches minute zero and in every sixtieth round after
/// it, and in no other.
pub proof fn lemma_start_on_the_minute_reminds_hourly(start: TimeOfDay, round: nat)
    requires
        start.is_valid(),
        start.second == 0,
    ensures
        reminder_due(time_of_round(start, round)) <==> (start.minute + round) % 60 == 0,
        reminder_due(time_of_round(start, round)) ==> reminder_due(
            time_of_round(start, round + 60),
        ),
        forall|later: nat|
            reminder_due(time_of_round(start, round)) && round < later < round + 60
                ==> !reminder_due(#[trigger] time_of_round(start, later)),
{
    lemma_rounds_keep_the_second(start, round);
    if reminder_due(time_of_round(start, round)) {
        lemma_rounds_keep_the_second(start, round + 60);
        lemma_minute_zero_every_sixty(start.minute + round, 1);
        assert forall|later: nat| round < later < round + 60 implies !reminder_due(
            #[trigger] time_of_round(start, later),
        ) by {
            lemma_rounds_keep_the_second(start, later);
            lemma_minute_zero_every_sixty(start.minute + round, (later - round) as nat);
        }
    }
}

/// Tells whether the sample calls for a reminder.
pub fn is_reminder_due(sample: &ClockSample) -> (due: bool)
    ensures
        due == reminder_due(sample@),
{
    sample.minute() == 0 && sample.second() == 0
}

/// One round of the scheduler on a sample that the driver took.
pub fn check(sample: &ClockSample) -> (directive: Directive)
    ensures
        directive@ == decision(sample@),
{
    let reminder = if is_reminder_due(sample) {
        Some(hourly_reminder())
    } else {
        None
    };
    Directive { reminder, sleep_seconds: POLL_INTERVAL_SECONDS }
}

} // verus!
