//! The control service: what a request does to the light and to the
//! schedule, and what is sent back.
//!
//! The service never touches the store, the firmware or the socket itself.
//! An [`Exchange`] handles one request as a sequence of steps: each step
//! takes what the caller's last piece of outside work gave (an [`Event`])
//! and says what to do next (an [`Action`]). The light changes in the step
//! that produces the reply and in no other, so a request that is aborted
//! has not touched it.

use crate::clock::TimeOfDay;
use crate::light::LightState;
use crate::page::{html, page_text, render_page};
use crate::schedule::{Schedule, Tag};
use vstd::prelude::*;
use vstd::string::StringExecFns;

verus! {

/// The fields of an update request. Each may be absent.
#[derive(Clone, Copy, Debug, PartialEq, Eq, Hash)]
pub struct Query {
    /// 1 asks for the light to be flipped; anything else does not.
    pub toggle: Option<i8>,
    /// A new hour for the on boundary.
    pub schedule_on: Option<i8>,
    /// A new hour for the off boundary.
    pub schedule_off: Option<i8>,
}

/// A request to the device.
#[derive(Clone, Copy, Debug, PartialEq, Eq, Hash)]
pub enum Request {
    /// Show the current state.
    Show,
    /// Apply an update, then show the state after it.
    Apply(Query),
    /// An update whose body could not be read as a query.
    Malformed,
    /// Replace the firmware with the image in the request's body.
    Firmware,
}

/// How an attempt to install a firmware image ended.
#[derive(Clone, Copy, Debug, PartialEq, Eq, Structural, Hash)]
pub enum FlashOutcome {
    Installed,
    Failed,
}

/// Why an exchange was aborted.
#[derive(Clone, Copy, Debug, PartialEq, Eq, Structural, Hash)]
pub enum Fault {
    /// The store failed to read or write.
    Storage,
    /// The event does not answer what the exchange last asked for.
    OutOfTurn,
}

/// What is sent back for a request.
#[derive(Clone, Copy, Debug, PartialEq, Eq, Hash)]
pub enum Reply {
    /// The status page for this light and these two hours, with status 200.
    Page { light: LightState, on: i8, off: i8 },
    /// A plain-text error, with status 400.
    BadRequest,
}

/// What the caller's last piece of outside work gave.
#[derive(Clone, Copy, Debug, PartialEq, Eq, Hash)]
pub enum Event {
    /// A request arrived.
    Received(Request),
    /// The hour was written.
    Stored,
    /// The hour was read: the value under the key, or `None` if the key is
    /// absent.
    Fetched(Option<i8>),
    /// The read or write failed.
    StorageFailed,
    /// The attempt to install the firmware image ended.
    Flashed(FlashOutcome),
}

/// What the caller is to do next.
#[derive(Clone, Copy, Debug, PartialEq, Eq, Hash)]
pub enum Action {
    /// Write this hour under the key of this boundary, then report `Stored`
    /// or `StorageFailed`.
    Store(Tag, i8),
    /// Read the hour under the key of this boundary, then report `Fetched`
    /// or `StorageFailed`.
    Fetch(Tag),
    /// Hand the request's body to the firmware updater, then report
    /// `Flashed`.
    Flash,
    /// Restart the device. A report of the outcome may be sent, but the
    /// restart does not wait for it.
    Restart(FlashOutcome),
    /// Send this reply. The exchange is over.
    Reply(Reply),
    /// Give the request up with an error. The exchange is over.
    Abort(Fault),
}

/// Where an exchange stands.
#[derive(Clone, Copy, Debug, PartialEq, Eq, Structural, Hash)]
pub enum Stage {
    /// No request is being handled.
    Idle,
    /// The new on hour is being written.
    StoringOn,
    /// The new off hour is being written.
    StoringOff,
    /// The on hour is being read for the reply.
    FetchingOn,
    /// The off hour is being read for the reply.
    FetchingOff,
    /// The firmware image is being installed.
    Flashing,
}

/// The handling of one request, between two steps.
#[derive(Clone, Copy, Debug, PartialEq, Eq, Hash)]
pub struct Exchange {
    pub stage: Stage,
    /// The update that is being applied; empty for a request that only
    /// shows the state.
    pub query: Query,
    /// The on hour as read for the reply, once it has been read.
    pub on_hour: Option<i8>,
}

/// The text sent with status 400.
pub const PARSE_ERROR_TEXT: &'static str = "request parse error";

/// An hour as the page shows it: the hour itself, or -1 where there is
/// none.
pub open spec fn shown_hour(hour: Option<i8>) -> i8 {
    match hour {
        Some(h) => h,
        None => -1i8,
    }
}

/// The reply that shows a light and a schedule.
pub open spec fn page_of(light: LightState, schedule: Schedule) -> Reply {
    Reply::Page {
        light,
        on: shown_hour(schedule.on_hour),
        off: shown_hour(schedule.off_hour),
    }
}

impl Query {
    /// The query with no field.
    pub open spec fn empty() -> Query {
        Query { toggle: None, schedule_on: None, schedule_off: None }
    }

    /// Whether the query asks for the light to be flipped.
    pub open spec fn asks_toggle(self) -> bool {
        self.toggle == Some(1i8)
    }

    /// The light after the query: flipped once if a toggle is asked for,
    /// unchanged otherwise.
    pub open spec fn light_after(self, light: LightState) -> LightState {
        if self.asks_toggle() {
            light.toggled()
        } else {
            light
        }
    }

    /// The schedule after the query: each hour that the query carries
    /// overwrites the one in the schedule; the others stay.
    pub open spec fn schedule_after(self, schedule: Schedule) -> Schedule {
        Schedule {
            on_hour: if self.schedule_on.is_some() {
                self.schedule_on
            } else {
                schedule.on_hour
            },
            off_hour: if self.schedule_off.is_some() {
                self.schedule_off
            } else {
                schedule.off_hour
            },
        }
    }

    /// The query with no field.
    pub fn new() -> (query: Query)
        ensures
            query == Query::empty(),
    {
        Query { toggle: None, schedule_on: None, schedule_off: None }
    }

    /// Whether the query asks for the light to be flipped.
    pub fn wants_toggle(&self) -> (yes: bool)
        ensures
            yes == self.asks_toggle(),
    {
        match self.toggle {
            Some(value) => value == 1,
            None => false,
        }
    }
}

impl Reply {
    /// The HTTP status that goes with the reply.
    pub open spec fn status_code(self) -> u16 {
        match self {
            Reply::Page { .. } => 200u16,
            Reply::BadRequest => 400u16,
        }
    }

    /// The body of the reply as it reads at a given time of day.
    pub open spec fn text_at(self, time: TimeOfDay) -> Seq<char> {
        match self {
            Reply::Page { light, on, off } => page_text(light, time, on, off),
            Reply::BadRequest => PARSE_ERROR_TEXT@,
        }
    }

    /// The HTTP status that goes with the reply.
    pub fn status(&self) -> (code: u16)
        ensures
            code == self.status_code(),
    {
        match self {
            Reply::Page { .. } => 200,
            Reply::BadRequest => 400,
        }
    }

    /// The body of the reply as it reads at a given time of day.
    pub fn body_at(&self, time: &TimeOfDay) -> (text: String)
        ensures
            text@ == self.text_at(*time),
    {
        match self {
            Reply::Page { light, on, off } => render_page(*light, time, *on, *off),
            Reply::BadRequest => String::from_str(PARSE_ERROR_TEXT),
        }
    }

    /// The body of the reply at the current time. Which time the clock
    /// shows is not known here: the body is what `body_at` gives for some
    /// time that a clock can show.
    pub fn body(&self) -> (text: String)
        ensures
            exists|time: TimeOfDay| #[trigger] time.valid() && text@ == self.text_at(time),
    {
        match self {
            Reply::Page { light, on, off } => html(*light, *on, *off),
            Reply::BadRequest => {
                let text = String::from_str(PARSE_ERROR_TEXT);
                let ghost midnight = TimeOfDay { hour: 0, minute: 0, second: 0 };
                assert(midnight.valid() && text@ == self.text_at(midnight));
                text
            },
        }
    }
}

impl Exchange {
    /// The exchange with no request in hand.
    pub open spec fn idle() -> Exchange {
        Exchange { stage: Stage::Idle, query: Query::empty(), on_hour: None }
    }

    /// Starts reading the schedule for the reply.
    pub open spec fn fetching(query: Query) -> (Exchange, Action) {
        (
            Exchange { stage: Stage::FetchingOn, query, on_hour: None },
            Action::Fetch(Tag::ScheduleOn),
        )
    }

    /// Writes the new off hour if the query has one, else goes on to read
    /// the schedule.
    pub open spec fn storing_off(query: Query) -> (Exchange, Action) {
        match query.schedule_off {
            Some(hour) => (
                Exchange { stage: Stage::StoringOff, query, on_hour: None },
                Action::Store(Tag::ScheduleOff, hour),
            ),
            None => Exchange::fetching(query),
        }
    }

    /// Writes the new on hour if the query has one, else goes on to the off
    /// hour.
    pub open spec fn storing_on(query: Query) -> (Exchange, Action) {
        match query.schedule_on {
            Some(hour) => (
                Exchange { stage: Stage::StoringOn, query, on_hour: None },
                Action::Store(Tag::ScheduleOn, hour),
            ),
            None => Exchange::storing_off(query),
        }
    }

    /// What a request that arrives at an idle exchange starts.
    pub open spec fn begun(request: Request) -> (Exchange, Action) {
        match request {
            Request::Show => Exchange::fetching(Query::empty()),
            Request::Apply(query) => Exchange::storing_on(query),
            Request::Malformed => (Exchange::idle(), Action::Reply(Reply::BadRequest)),
            Request::Firmware => (
                Exchange { stage: Stage::Flashing, query: Query::empty(), on_hour: None },
                Action::Flash,
            ),
        }
    }

    /// One step: the exchange, the light and the action after `event`.
    ///
    /// Hours are written before anything is read, the on hour first. Both
    /// hours are then read back, and only when both have come is the toggle
    /// applied and the reply made, from the light as it then is and the
    /// hours as read. A failure of the store aborts the exchange. So does
    /// an event that does not answer the last action. An exchange that
    /// replies, restarts or aborts is idle again.
    pub open spec fn next(self, light: LightState, event: Event) -> (Exchange, LightState, Action) {
        match self.stage {
            Stage::Idle => match event {
                Event::Received(request) => (
                    Exchange::begun(request).0,
                    light,
                    Exchange::begun(request).1,
                ),
                _ => (Exchange::idle(), light, Action::Abort(Fault::OutOfTurn)),
            },
            Stage::StoringOn => match event {
                Event::Stored => (
                    Exchange::storing_off(self.query).0,
                    light,
                    Exchange::storing_off(self.query).1,
                ),
                Event::StorageFailed => (Exchange::idle(), light, Action::Abort(Fault::Storage)),
                _ => (Exchange::idle(), light, Action::Abort(Fault::OutOfTurn)),
            },
            Stage::StoringOff => match event {
                Event::Stored => (
                    Exchange::fetching(self.query).0,
                    light,
                    Exchange::fetching(self.query).1,
                ),
                Event::StorageFailed => (Exchange::idle(), light, Action::Abort(Fault::Storage)),
                _ => (Exchange::idle(), light, Action::Abort(Fault::OutOfTurn)),
            },
            Stage::FetchingOn => match event {
                Event::Fetched(hour) => (
                    Exchange { stage: Stage::FetchingOff, query: self.query, on_hour: hour },
                    light,
                    Action::Fetch(Tag::ScheduleOff),
                ),
                Event::StorageFailed => (Exchange::idle(), light, Action::Abort(Fault::Storage)),
                _ => (Exchange::idle(), light, Action::Abort(Fault::OutOfTurn)),
            },
            Stage::FetchingOff => match event {
                Event::Fetched(hour) => (
                    Exchange::idle(),
                    self.query.light_after(light),
                    Action::Reply(
                        Reply::Page {
                            light: self.query.light_after(light),
                            on: shown_hour(self.on_hour),
                            off: shown_hour(hour),
                        },
                    ),
                ),
                Event::StorageFailed => (Exchange::idle(), light, Action::Abort(Fault::Storage)),
                _ => (Exchange::idle(), light, Action::Abort(Fault::OutOfTurn)),
            },
            Stage::Flashing => match event {
                Event::Flashed(outcome) => (Exchange::idle(), light, Action::Restart(outcome)),
                _ => (Exchange::idle(), light, Action::Abort(Fault::OutOfTurn)),
            },
        }
    }

    /// An exchange with no request in hand.
    pub fn new() -> (exchange: Exchange)
        ensures
            exchange == Exchange::idle(),
    {
        Exchange { stage: Stage::Idle, query: Query::new(), on_hour: None }
    }

    /// Whether no request is in hand.
    pub fn is_idle(&self) -> (yes: bool)
        ensures
            yes == (self.stage == Stage::Idle),
    {
        match self.stage {
            Stage::Idle => true,
            _ => false,
        }
    }

    fn start_fetching(&mut self, query: Query) -> (action: Action)
        ensures
            (*final(self), action) == Exchange::fetching(query),
    {
        *self = Exchange { stage: Stage::FetchingOn, query, on_hour: None };
        Action::Fetch(Tag::ScheduleOn)
    }

    fn start_storing_off(&mut self, query: Query) -> (action: Action)
        ensures
            (*final(self), action) == Exchange::storing_off(query),
    {
        match query.schedule_off {
            Some(hour) => {
                *self = Exchange { stage: Stage::StoringOff, query, on_hour: None };
                Action::Store(Tag::ScheduleOff, hour)
            },
            None => self.start_fetching(query),
        }
    }

    fn start_storing_on(&mut self, query: Query) -> (action: Action)
        ensures
            (*final(self), action) == Exchange::storing_on(query),
    {
        match query.schedule_on {
            Some(hour) => {
                *self = Exchange { stage: Stage::StoringOn, query, on_hour: None };
                Action::Store(Tag::ScheduleOn, hour)
            },
            None => self.start_storing_off(query),
        }
    }

    fn begin(&mut self, request: Request) -> (action: Action)
        ensures
            (*final(self), action) == Exchange::begun(request),
    {
        match request {
            Request::Show => self.start_fetching(Query::new()),
            Request::Apply(query) => self.start_storing_on(query),
            Request::Malformed => {
                *self = Exchange::new();
                Action::Reply(Reply::BadRequest)
            },
            Request::Firmware => {
                *self = Exchange { stage: Stage::Flashing, query: Query::new(), on_hour: None };
                Action::Flash
            },
        }
    }

    fn finish(&mut self, light: &mut LightState, off_hour: Option<i8>) -> (action: Action)
        ensures
            *final(self) == Exchange::idle(),
            *final(light) == old(self).query.light_after(*old(light)),
            action == Action::Reply(
                Reply::Page {
                    light: *final(light),
                    on: shown_hour(old(self).on_hour),
                    off: shown_hour(off_hour),
                },
            ),
    {
        if self.query.wants_toggle() {
            light.toggle();
        }
        let on = match self.on_hour {
            Some(hour) => hour,
            None => -1,
        };
        let off = match off_hour {
            Some(hour) => hour,
            None => -1,
        };
        let shown = light.read();
        *self = Exchange::new();
        Action::Reply(Reply::Page { light: shown, on, off })
    }

    fn abort(&mut self, fault: Fault) -> (action: Action)
        ensures
            *final(self) == Exchange::idle(),
            action == Action::Abort(fault),
    {
        *self = Exchange::new();
        Action::Abort(fault)
    }

    /// Takes one step: hands in what the last action gave and returns the
    /// next action. The light is the shared one; it is changed only by the
    /// step that returns the reply to an update that asks for a toggle.
    pub fn step(&mut self, light: &mut LightState, event: Event) -> (action: Action)
        ensures
            (*final(self), *final(light), action) == old(self).next(*old(light), event),
    {
        match self.stage {
            Stage::Idle => match event {
                Event::Received(request) => self.begin(request),
                _ => self.abort(Fault::OutOfTurn),
            },
            Stage::StoringOn => match event {
                Event::Stored => {
                    let query = self.query;
                    self.start_storing_off(query)
                },
                Event::StorageFailed => self.abort(Fault::Storage),
                _ => self.abort(Fault::OutOfTurn),
            },
            Stage::StoringOff => match event {
                Event::Stored => {
                    let query = self.query;
                    self.start_fetching(query)
                },
                Event::StorageFailed => self.abort(Fault::Storage),
                _ => self.abort(Fault::OutOfTurn),
            },
            Stage::FetchingOn => match event {
                Event::Fetched(hour) => {
                    self.stage = Stage::FetchingOff;
                    self.on_hour = hour;
                    Action::Fetch(Tag::ScheduleOff)
                },
                Event::StorageFailed => self.abort(Fault::Storage),
                _ => self.abort(Fault::OutOfTurn),
            },
            Stage::FetchingOff => match event {
                Event::Fetched(hour) => self.finish(light, hour),
                Event::StorageFailed => self.abort(Fault::Storage),
                _ => self.abort(Fault::OutOfTurn),
            },
            Stage::Flashing => match event {
                Event::Flashed(outcome) => {
                    *self = Exchange::new();
                    Action::Restart(outcome)
                },
                _ => self.abort(Fault::OutOfTurn),
            },
        }
    }
}

} // verus!
