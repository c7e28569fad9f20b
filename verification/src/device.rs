//! The device as a whole: what its requests and polls amount to when the
//! store does what it is asked, stated once and directly, and the proofs
//! that the step-by-step exchange of [`crate::control`] amounts to exactly
//! that.

use crate::clock::TimeOfDay;
use crate::control::{
    page_of, shown_hour, Action, Event, Exchange, FlashOutcome, Query, Reply, Request,
};
use crate::light::{lemma_toggle_parity, LightState};
use crate::schedule::{fires, light_after_tick, Schedule, Tag};
use vstd::prelude::*;

verus! {

/// The light and the schedule after a restart: the light is off, the
/// schedule is what the store kept.
pub open spec fn restarted(schedule: Schedule) -> (LightState, Schedule) {
    (LightState::Off, schedule)
}

/// The light and the schedule after a request has been served.
///
/// Showing the state changes nothing, and neither does a body that could
/// not be read. An update flips the light if it asks for that and
/// overwrites the hours that it carries. A firmware request ends in a
/// restart.
pub open spec fn served(request: Request, light: LightState, schedule: Schedule) -> (
    LightState,
    Schedule,
) {
    match request {
        Request::Show => (light, schedule),
        Request::Malformed => (light, schedule),
        Request::Apply(query) => (query.light_after(light), query.schedule_after(schedule)),
        Request::Firmware => restarted(schedule),
    }
}

/// The reply to a request that shows or updates the state: the page of the
/// state after the request, or the error for a body that could not be read.
pub open spec fn reply_to(request: Request, light: LightState, schedule: Schedule) -> Reply
    recommends
        !(request is Firmware),
{
    match request {
        Request::Malformed => Reply::BadRequest,
        _ => page_of(served(request, light, schedule).0, served(request, light, schedule).1),
    }
}

/// The light and the schedule after a run of requests, served in turn.
pub open spec fn served_all(requests: Seq<Request>, light: LightState, schedule: Schedule) -> (
    LightState,
    Schedule,
)
    decreases requests.len(),
{
    if requests.len() == 0 {
        (light, schedule)
    } else {
        let before = served_all(requests.drop_last(), light, schedule);
        served(requests.last(), before.0, before.1)
    }
}

/// An exchange run against a store that does what it is asked: each hour
/// that the exchange stores is in the schedule afterwards, and each hour
/// that it fetches comes from the schedule. The run ends with the first
/// action that is not for the store, or after `turns` answers of the store.
pub open spec fn run(
    exchange: Exchange,
    light: LightState,
    schedule: Schedule,
    event: Event,
    turns: nat,
) -> (Exchange, LightState, Schedule, Action)
    decreases turns,
{
    let stepped = exchange.next(light, event);
    if turns == 0 {
        (stepped.0, stepped.1, schedule, stepped.2)
    } else {
        match stepped.2 {
            Action::Store(tag, hour) => run(
                stepped.0,
                stepped.1,
                schedule.with_hour(tag, hour),
                Event::Stored,
                (turns - 1) as nat,
            ),
            Action::Fetch(tag) => run(
                stepped.0,
                stepped.1,
                schedule,
                Event::Fetched(schedule.hour(tag)),
                (turns - 1) as nat,
            ),
            _ => (stepped.0, stepped.1, schedule, stepped.2),
        }
    }
}

/// The hour that a query carries for a boundary.
pub open spec fn carried(query: Query, tag: Tag) -> Option<i8> {
    match tag {
        Tag::ScheduleOn => query.schedule_on,
        Tag::ScheduleOff => query.schedule_off,
    }
}

/// Whether a request overwrites the hour of a boundary.
pub open spec fn overwrites(request: Request, tag: Tag) -> bool {
    request matches Request::Apply(query) && carried(query, tag).is_some()
}

/// Whether a request is an update that asks for a toggle.
pub open spec fn toggles(request: Request) -> bool {
    request matches Request::Apply(query) && query.asks_toggle()
}

/// An exchange that is run against a store that does what it is asked
/// serves its request: within four answers of the store it replies, the
/// reply is the one owed to the request, the light and the schedule are
/// the ones after the request, and the exchange is idle again.
pub proof fn lemma_exchange_serves(request: Request, light: LightState, schedule: Schedule)
    requires
        !(request is Firmware),
    ensures
        run(Exchange::idle(), light, schedule, Event::Received(request), 4) == (
            Exchange::idle(),
            served(request, light, schedule).0,
            served(request, light, schedule).1,
            Action::Reply(reply_to(request, light, schedule)),
        ),
{
    reveal_with_fuel(run, 5);
    match request {
        Request::Apply(query) => {
            assert(query.schedule_after(schedule) == Schedule {
                on_hour: query.schedule_after(schedule).on_hour,
                off_hour: query.schedule_after(schedule).off_hour,
            });
        },
        _ => {},
    }
}

/// A body that could not be read is answered at once with the error: the
/// exchange asks nothing of the store, and the light and the schedule stay
/// as they were.
pub proof fn lemma_malformed_changes_nothing(light: LightState, schedule: Schedule)
    ensures
        Exchange::idle().next(light, Event::Received(Request::Malformed)) == (
            Exchange::idle(),
            light,
            Action::Reply(Reply::BadRequest),
        ),
        served(Request::Malformed, light, schedule) == (light, schedule),
        reply_to(Request::Malformed, light, schedule).status_code() == 400,
{
}

/// A step changes the light only where it replies with the page. An
/// exchange that is aborted, by a failure of the store or otherwise, leaves
/// the light as it was.
pub proof fn lemma_light_changes_only_with_reply(
    exchange: Exchange,
    light: LightState,
    event: Event,
)
    ensures
        exchange.next(light, event).1 != light ==> exchange.next(light, event).2 == Action::Reply(
            Reply::Page {
                light: light.toggled(),
                on: shown_hour(exchange.on_hour),
                off: shown_hour(event->Fetched_0),
            },
        ),
        exchange.next(light, event).2 is Abort ==> exchange.next(light, event).1 == light,
        event is StorageFailed ==> exchange.next(light, event).2 is Abort,
{
}

/// A firmware request ends in a restart whether the image was installed or
/// not, and the restart leaves the schedule as the store kept it and the
/// light off.
pub proof fn lemma_firmware_always_restarts(
    light: LightState,
    schedule: Schedule,
    outcome: FlashOutcome,
)
    ensures
        Exchange::idle().next(light, Event::Received(Request::Firmware)).2 == Action::Flash,
        Exchange::idle().next(light, Event::Received(Request::Firmware)).0.next(
            light,
            Event::Flashed(outcome),
        ).2 == Action::Restart(outcome),
        served(Request::Firmware, light, schedule) == (LightState::Off, schedule),
{
}

/// A run of `n` updates that each ask for a toggle leaves the light where
/// `n` toggles leave it.
pub proof fn lemma_toggle_requests(requests: Seq<Request>, light: LightState, schedule: Schedule)
    requires
        forall|i: int| 0 <= i < requests.len() ==> toggles(#[trigger] requests[i]),
    ensures
        served_all(requests, light, schedule).0 == light.after_toggles(requests.len()),
    decreases requests.len(),
{
    if requests.len() > 0 {
        let earlier = requests.drop_last();
        assert forall|i: int| 0 <= i < earlier.len() implies toggles(#[trigger] earlier[i]) by {
            assert(earlier[i] == requests[i]);
        }
        lemma_toggle_requests(earlier, light, schedule);
        assert(toggles(requests[requests.len() - 1]));
    }
}

/// After any run of toggle requests a light that started off is on if the
/// number of requests is odd and off if it is even.
pub proof fn lemma_toggle_requests_parity(requests: Seq<Request>, schedule: Schedule)
    requires
        forall|i: int| 0 <= i < requests.len() ==> toggles(#[trigger] requests[i]),
    ensures
        served_all(requests, LightState::Off, schedule).0 == if requests.len() % 2 == 1 {
            LightState::On
        } else {
            LightState::Off
        },
{
    lemma_toggle_requests(requests, LightState::Off, schedule);
    lemma_toggle_parity(requests.len());
}

/// Requests none of which overwrites the hour of a boundary leave that
/// hour as it was. A restart among them changes nothing of that.
pub proof fn lemma_hour_kept_until_overwritten(
    tag: Tag,
    requests: Seq<Request>,
    light: LightState,
    schedule: Schedule,
)
    requires
        forall|i: int| 0 <= i < requests.len() ==> !overwrites(#[trigger] requests[i], tag),
    ensures
        served_all(requests, light, schedule).1.hour(tag) == schedule.hour(tag),
    decreases requests.len(),
{
    if requests.len() > 0 {
        let earlier = requests.drop_last();
        assert forall|i: int| 0 <= i < earlier.len() implies !overwrites(
            #[trigger] earlier[i],
            tag,
        ) by {
            assert(earlier[i] == requests[i]);
        }
        lemma_hour_kept_until_overwritten(tag, earlier, light, schedule);
        assert(!overwrites(requests[requests.len() - 1], tag));
    }
}

/// An hour set by an update is the hour that every later query shows for
/// that boundary, until another update overwrites it.
pub proof fn lemma_set_hour_is_shown(
    tag: Tag,
    hour: i8,
    query: Query,
    later: Seq<Request>,
    light: LightState,
    schedule: Schedule,
)
    requires
        carried(query, tag) == Some(hour),
        forall|i: int| 0 <= i < later.len() ==> !overwrites(#[trigger] later[i], tag),
    ensures
        ({
            let set = served(Request::Apply(query), light, schedule);
            let then = served_all(later, set.0, set.1);
            &&& then.1.hour(tag) == Some(hour)
            &&& reply_to(Request::Show, then.0, then.1) matches Reply::Page { on, off, .. }
            &&& tag == Tag::ScheduleOn ==> on == hour
            &&& tag == Tag::ScheduleOff ==> off == hour
        }),
{
    let set = served(Request::Apply(query), light, schedule);
    lemma_hour_kept_until_overwritten(tag, later, set.0, set.1);
}

/// Two toggles and one poll that take turns at the light, one after the
/// other, in each of the three orders in which they can. With both toggles
/// before the poll, or both after it, the light ends as the poll alone
/// leaves it. With the poll between the toggles it ends as the poll alone
/// leaves it, flipped, if a boundary fires at the poll, and as it started
/// if none does.
pub proof fn lemma_two_toggles_and_a_poll(light: LightState, schedule: Schedule, now: TimeOfDay)
    ensures
        light_after_tick(light.toggled().toggled(), schedule, now) == light_after_tick(
            light,
            schedule,
            now,
        ),
        light_after_tick(light, schedule, now).toggled().toggled() == light_after_tick(
            light,
            schedule,
            now,
        ),
        light_after_tick(light.toggled(), schedule, now).toggled() == if fires(
            schedule.on_hour,
            now,
        ) || fires(schedule.off_hour, now) {
            light_after_tick(light, schedule, now).toggled()
        } else {
            light
        },
{
}

} // verus!
