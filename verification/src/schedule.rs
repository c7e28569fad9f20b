//! The daily schedule and the once-a-second scheduler decision.
//!
//! The schedule is two optional hours kept in a persistent key-value store
//! under two fixed keys. The store itself is the caller's; this module
//! holds what is read from it and decides what a scheduler poll does.

use crate::clock::{now, TimeOfDay};
use crate::light::{LightState, PinLevel};
use vstd::prelude::*;

verus! {

/// The scheduler polls the clock at this interval, in seconds. A boundary
/// fires only in a poll that lands on its first second.
pub const POLL_SECONDS: u64 = 1;

/// The two boundaries of the schedule, each with its key in the store.
#[derive(Clone, Copy, Debug, PartialEq, Eq, Structural, Hash)]
pub enum Tag {
    /// The hour at which the light goes on.
    ScheduleOn,
    /// The hour at which the light goes off.
    ScheduleOff,
}

impl Tag {
    /// The key under which the store keeps this boundary's hour.
    pub open spec fn key_text(self) -> Seq<char> {
        match self {
            Tag::ScheduleOn => "schedule_on"@,
            Tag::ScheduleOff => "schedule_off"@,
        }
    }

    /// The key under which the store keeps this boundary's hour.
    pub fn key(&self) -> (text: &'static str)
        ensures
            text@ == self.key_text(),
    {
        match self {
            Tag::ScheduleOn => "schedule_on",
            Tag::ScheduleOff => "schedule_off",
        }
    }
}

/// The two boundaries are kept under different keys.
pub proof fn lemma_keys_differ()
    ensures
        Tag::ScheduleOn.key_text() != Tag::ScheduleOff.key_text(),
{
    reveal_strlit("schedule_on");
    reveal_strlit("schedule_off");
    assert("schedule_on"@.len() == 11);
    assert("schedule_off"@.len() == 12);
}

/// A read or write of the store failed. This is not the same as a key that
/// is absent.
#[derive(Clone, Copy, Debug, PartialEq, Eq, Structural, Hash)]
pub struct StorageError {}

/// What the store holds: for each boundary an hour, or nothing. An hour
/// that is absent means that nothing ever happens at that boundary.
#[derive(Clone, Copy, Debug, PartialEq, Eq, Hash)]
pub struct Schedule {
    pub on_hour: Option<i8>,
    pub off_hour: Option<i8>,
}

/// What a failed or successful read of one hour means to the scheduler:
/// a read that failed counts as an hour that is absent.
pub open spec fn hour_read(read: Result<Option<i8>, StorageError>) -> Option<i8> {
    match read {
        Ok(hour) => hour,
        Err(_) => None,
    }
}

impl Schedule {
    /// The hour kept for a boundary.
    pub open spec fn hour(self, tag: Tag) -> Option<i8> {
        match tag {
            Tag::ScheduleOn => self.on_hour,
            Tag::ScheduleOff => self.off_hour,
        }
    }

    /// This schedule with the hour of one boundary overwritten.
    pub open spec fn with_hour(self, tag: Tag, hour: i8) -> Schedule {
        match tag {
            Tag::ScheduleOn => Schedule { on_hour: Some(hour), off_hour: self.off_hour },
            Tag::ScheduleOff => Schedule { on_hour: self.on_hour, off_hour: Some(hour) },
        }
    }

    /// The schedule that two reads of the store give the scheduler.
    pub open spec fn of_reads(
        on: Result<Option<i8>, StorageError>,
        off: Result<Option<i8>, StorageError>,
    ) -> Schedule {
        Schedule { on_hour: hour_read(on), off_hour: hour_read(off) }
    }

    /// The schedule of a store that was never written: no hour at either
    /// boundary.
    pub fn new() -> (schedule: Schedule)
        ensures
            schedule.on_hour.is_none(),
            schedule.off_hour.is_none(),
    {
        Schedule { on_hour: None, off_hour: None }
    }

    /// The hour kept for a boundary, if any.
    pub fn get(&self, tag: Tag) -> (hour: Option<i8>)
        ensures
            hour == self.hour(tag),
    {
        match tag {
            Tag::ScheduleOn => self.on_hour,
            Tag::ScheduleOff => self.off_hour,
        }
    }

    /// Overwrites the hour of one boundary; the other boundary keeps its
    /// hour.
    pub fn set(&mut self, tag: Tag, hour: i8)
        ensures
            *final(self) == old(self).with_hour(tag, hour),
    {
        match tag {
            Tag::ScheduleOn => {
                self.on_hour = Some(hour);
            },
            Tag::ScheduleOff => {
                self.off_hour = Some(hour);
            },
        }
    }

    /// The schedule that the scheduler works with after reading both hours
    /// from the store. A read that failed leaves its boundary without an
    /// hour for this poll.
    pub fn from_reads(
        on: Result<Option<i8>, StorageError>,
        off: Result<Option<i8>, StorageError>,
    ) -> (schedule: Schedule)
        ensures
            schedule == Schedule::of_reads(on, off),
    {
        let on_hour = match on {
            Ok(hour) => hour,
            Err(_) => None,
        };
        let off_hour = match off {
            Ok(hour) => hour,
            Err(_) => None,
        };
        Schedule { on_hour, off_hour }
    }
}

/// A boundary fires at `now` when it has an hour, `now` is in that hour,
/// and `now` is the first second of it.
pub open spec fn fires(hour: Option<i8>, now: TimeOfDay) -> bool {
    match hour {
        Some(h) => h as int == now.hour as int && now.on_the_hour(),
        None => false,
    }
}

/// The light after one scheduler poll at `now`: off if the off boundary
/// fires, else on if the on boundary fires, else as it was. Where both
/// boundaries fire at once, off wins.
pub open spec fn light_after_tick(light: LightState, schedule: Schedule, now: TimeOfDay)
    -> LightState {
    if fires(schedule.off_hour, now) {
        LightState::Off
    } else if fires(schedule.on_hour, now) {
        LightState::On
    } else {
        light
    }
}

/// The light after a run of polls, one at each of `times` in turn, with the
/// schedule unchanged throughout.
pub open spec fn light_after_ticks(light: LightState, schedule: Schedule, times: Seq<TimeOfDay>)
    -> LightState
    decreases times.len(),
{
    if times.len() == 0 {
        light
    } else {
        light_after_tick(
            light_after_ticks(light, schedule, times.drop_last()),
            schedule,
            times.last(),
        )
    }
}

/// Poll times of one day in the order in which they happen: each later in
/// the day than the one before.
pub open spec fn in_day_order(times: Seq<TimeOfDay>) -> bool {
    forall|i: int, j: int|
        0 <= i < j < times.len() ==> (#[trigger] times[i]).seconds_of_day() < (
        #[trigger] times[j]).seconds_of_day()
}

/// Whether a boundary fires at `now`.
pub fn boundary_fires(hour: Option<i8>, now: &TimeOfDay) -> (yes: bool)
    ensures
        yes == fires(hour, *now),
{
    match hour {
        Some(h) => h >= 0 && h as u32 == now.hour && now.is_on_the_hour(),
        None => false,
    }
}

/// One scheduler poll at a given time: applies the schedule to the light
/// and says what to drive on the output pin.
pub fn tick(light: &mut LightState, schedule: &Schedule, now: &TimeOfDay) -> (pin: PinLevel)
    ensures
        *final(light) == light_after_tick(*old(light), *schedule, *now),
        pin == final(light).pin(),
{
    if boundary_fires(schedule.on_hour, now) {
        light.set(LightState::On);
    }
    if boundary_fires(schedule.off_hour, now) {
        light.set(LightState::Off);
    }
    light.level()
}

/// One scheduler poll at the current time. The caller hands in what its two
/// reads of the store gave. Which time the clock shows is not known here:
/// the light is what `tick` makes of it at some time that a clock can show.
pub fn poll(
    light: &mut LightState,
    on: Result<Option<i8>, StorageError>,
    off: Result<Option<i8>, StorageError>,
) -> (pin: PinLevel)
    ensures
        exists|time: TimeOfDay| #[trigger]
            time.valid() && *final(light) == light_after_tick(
                *old(light),
                Schedule::of_reads(on, off),
                time,
            ),
        pin == final(light).pin(),
{
    let time = now();
    let schedule = Schedule::from_reads(on, off);
    let pin = tick(light, &schedule, &time);
    assert(time.valid() && *light == light_after_tick(
        *old(light),
        Schedule::of_reads(on, off),
        time,
    ));
    pin
}

/// An hour that was set is the hour that is read, and setting one boundary
/// leaves the other as it was.
pub proof fn lemma_set_then_get(schedule: Schedule, tag: Tag, other: Tag, hour: i8)
    requires
        other != tag,
    ensures
        schedule.with_hour(tag, hour).hour(tag) == Some(hour),
        schedule.with_hour(tag, hour).hour(other) == schedule.hour(other),
{
}

/// Setting the same hour twice is the same as setting it once, and of two
/// hours set for one boundary the later one stays.
pub proof fn lemma_set_overwrites(schedule: Schedule, tag: Tag, first: i8, second: i8)
    ensures
        schedule.with_hour(tag, first).with_hour(tag, first) == schedule.with_hour(tag, first),
        schedule.with_hour(tag, first).with_hour(tag, second) == schedule.with_hour(tag, second),
{
}

/// A boundary without an hour never fires.
pub proof fn lemma_unset_never_fires(now: TimeOfDay)
    ensures
        !fires(None, now),
{
}

/// A boundary with hour `h` fires at exactly one time of day, `h:00:00`,
/// and at none if `h` is negative.
pub proof fn lemma_fires_only_on_the_boundary(h: i8, now: TimeOfDay)
    ensures
        fires(Some(h), now) <==> h >= 0 && now == (TimeOfDay {
            hour: h as u32,
            minute: 0,
            second: 0,
        }),
{
}

/// An hour outside 0 to 23 never fires at a time that a clock can show.
pub proof fn lemma_out_of_range_never_fires(h: i8, now: TimeOfDay)
    requires
        now.valid(),
        h < 0 || h > 23,
    ensures
        !fires(Some(h), now),
{
}

/// Where both boundaries have the same hour `h`, the light is off after
/// the poll at `h:00:00`, whatever it was before.
pub proof fn lemma_off_wins_tie(light: LightState, schedule: Schedule, h: i8, now: TimeOfDay)
    requires
        0 <= h <= 23,
        schedule.on_hour == Some(h),
        schedule.off_hour == Some(h),
        now == (TimeOfDay { hour: h as u32, minute: 0, second: 0 }),
    ensures
        light_after_tick(light, schedule, now) == LightState::Off,
{
}

/// Among the polls of one day a boundary fires at most once.
pub proof fn lemma_fires_at_most_once(hour: Option<i8>, times: Seq<TimeOfDay>)
    requires
        in_day_order(times),
    ensures
        forall|i: int, j: int|
            0 <= i < times.len() && 0 <= j < times.len() && fires(hour, #[trigger] times[i])
                && fires(hour, #[trigger] times[j]) ==> i == j,
{
    assert forall|i: int, j: int|
        0 <= i < times.len() && 0 <= j < times.len() && fires(hour, #[trigger] times[i])
            && fires(hour, #[trigger] times[j]) implies i == j by {
        assert(times[i].seconds_of_day() == times[j].seconds_of_day());
        if i < j {
            assert(times[i].seconds_of_day() < times[j].seconds_of_day());
        }
        if j < i {
            assert(times[j].seconds_of_day() < times[i].seconds_of_day());
        }
    }
}

/// A scheduler that polls at every second of a day fires a boundary with
/// an hour from 0 to 23 exactly once that day: at the poll `h * 3600`
/// seconds after midnight and at no other.
pub proof fn lemma_fires_once_when_polled_every_second(h: i8, times: Seq<TimeOfDay>)
    requires
        0 <= h <= 23,
        times.len() == 86_400,
        forall|i: int|
            0 <= i < times.len() ==> (#[trigger] times[i]).valid() && times[i].seconds_of_day()
                == i,
    ensures
        fires(Some(h), times[h * 3600]),
        forall|i: int| 0 <= i < times.len() && fires(Some(h), #[trigger] times[i]) ==> i == h * 3600,
{
    let at = times[h * 3600];
    assert(at.valid() && at.seconds_of_day() == h * 3600);
    assert(at.hour == h && at.minute == 0 && at.second == 0);
    assert forall|i: int| 0 <= i < times.len() && fires(Some(h), #[trigger] times[i]) implies i
        == h * 3600 by {
        assert(times[i].seconds_of_day() == i);
    }
}

/// A run of polls none of which lands on the first second of hour `h` does
/// not fire a boundary with that hour, however far past it the run goes.
pub proof fn lemma_missed_boundary_is_skipped(h: i8, times: Seq<TimeOfDay>)
    requires
        forall|i: int|
            0 <= i < times.len() ==> #[trigger] times[i] != (TimeOfDay {
                hour: h as u32,
                minute: 0,
                second: 0,
            }),
    ensures
        forall|i: int| 0 <= i < times.len() ==> !fires(Some(h), #[trigger] times[i]),
{
}

/// A run of polls at none of which a boundary fires leaves the light as it
/// was.
pub proof fn lemma_no_boundary_no_change(
    light: LightState,
    schedule: Schedule,
    times: Seq<TimeOfDay>,
)
    requires
        forall|i: int|
            0 <= i < times.len() ==> !fires(schedule.on_hour, #[trigger] times[i]) && !fires(
                schedule.off_hour,
                times[i],
            ),
    ensures
        light_after_ticks(light, schedule, times) == light,
    decreases times.len(),
{
    if times.len() > 0 {
        let earlier = times.drop_last();
        assert forall|i: int| 0 <= i < earlier.len() implies !fires(
            schedule.on_hour,
            #[trigger] earlier[i],
        ) && !fires(schedule.off_hour, earlier[i]) by {
            assert(earlier[i] == times[i]);
        }
        lemma_no_boundary_no_change(light, schedule, earlier);
        assert(times.last() == times[times.len() - 1]);
    }
}

} // verus!
