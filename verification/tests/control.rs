use paluda_man::clock::TimeOfDay;
use paluda_man::control::{
    Action, Event, Exchange, Fault, FlashOutcome, Query, Reply, Request, Stage,
};
use paluda_man::light::LightState;
use paluda_man::page::render_page;
use paluda_man::schedule::{tick, Schedule, Tag};

const TOGGLE: Query = Query { toggle: Some(1), schedule_on: None, schedule_off: None };

/// Runs one request against a store held in memory. The store fails at its
/// `fail_at`-th operation, counted from 0, if that is given.
fn serve(
    request: Request,
    light: &mut LightState,
    store: &mut Schedule,
    fail_at: Option<usize>,
) -> (Action, Vec<Action>) {
    let mut exchange = Exchange::new();
    let mut asked = Vec::new();
    let mut event = Event::Received(request);
    loop {
        let action = exchange.step(light, event);
        match action {
            Action::Store(tag, hour) => {
                if fail_at == Some(asked.len()) {
                    event = Event::StorageFailed;
                } else {
                    store.set(tag, hour);
                    event = Event::Stored;
                }
                asked.push(action);
            }
            Action::Fetch(tag) => {
                if fail_at == Some(asked.len()) {
                    event = Event::StorageFailed;
                } else {
                    event = Event::Fetched(store.get(tag));
                }
                asked.push(action);
            }
            Action::Flash => {
                event = Event::Flashed(FlashOutcome::Installed);
                asked.push(action);
            }
            _ => {
                assert!(exchange.is_idle());
                return (action, asked);
            }
        }
    }
}

fn page(light: LightState, on: i8, off: i8) -> Action {
    Action::Reply(Reply::Page { light, on, off })
}

#[test]
fn show_reads_both_hours_and_replies_with_the_page() {
    let mut light = LightState::On;
    let mut store = Schedule { on_hour: Some(6), off_hour: Some(22) };
    let (last, asked) = serve(Request::Show, &mut light, &mut store, None);
    assert_eq!(asked, vec![Action::Fetch(Tag::ScheduleOn), Action::Fetch(Tag::ScheduleOff)]);
    assert_eq!(last, page(LightState::On, 6, 22));
    assert_eq!(light, LightState::On);
    assert_eq!(store, Schedule { on_hour: Some(6), off_hour: Some(22) });
}

#[test]
fn show_with_empty_store_shows_minus_one() {
    let mut light = LightState::new();
    let mut store = Schedule::new();
    let (last, _) = serve(Request::Show, &mut light, &mut store, None);
    assert_eq!(last, page(LightState::Off, -1, -1));
}

#[test]
fn toggle_request_flips_the_light_once() {
    let mut light = LightState::Off;
    let mut store = Schedule::new();
    let (last, asked) = serve(Request::Apply(TOGGLE), &mut light, &mut store, None);
    assert_eq!(asked, vec![Action::Fetch(Tag::ScheduleOn), Action::Fetch(Tag::ScheduleOff)]);
    assert_eq!(last, page(LightState::On, -1, -1));
    assert_eq!(light, LightState::On);
    let (last, _) = serve(Request::Apply(TOGGLE), &mut light, &mut store, None);
    assert_eq!(last, page(LightState::Off, -1, -1));
    assert_eq!(light, LightState::Off);
}

#[test]
fn n_toggle_requests_follow_parity() {
    for n in 0..20usize {
        let mut light = LightState::new();
        let mut store = Schedule::new();
        for _ in 0..n {
            serve(Request::Apply(TOGGLE), &mut light, &mut store, None);
        }
        let expected = if n % 2 == 1 { LightState::On } else { LightState::Off };
        assert_eq!(light, expected, "after {} toggle requests", n);
    }
}

#[test]
fn toggle_field_other_than_one_does_nothing() {
    for value in [Some(0i8), Some(2), Some(-1), Some(127), None] {
        let mut light = LightState::Off;
        let mut store = Schedule::new();
        let query = Query { toggle: value, schedule_on: None, schedule_off: None };
        assert!(!query.wants_toggle());
        let (last, _) = serve(Request::Apply(query), &mut light, &mut store, None);
        assert_eq!(last, page(LightState::Off, -1, -1));
        assert_eq!(light, LightState::Off);
    }
    assert!(TOGGLE.wants_toggle());
}

#[test]
fn schedule_on_is_stored_and_shown_for_every_hour() {
    for h in 0..=23i8 {
        let mut light = LightState::new();
        let mut store = Schedule::new();
        let query = Query { toggle: None, schedule_on: Some(h), schedule_off: None };
        let (last, asked) = serve(Request::Apply(query), &mut light, &mut store, None);
        assert_eq!(
            asked,
            vec![
                Action::Store(Tag::ScheduleOn, h),
                Action::Fetch(Tag::ScheduleOn),
                Action::Fetch(Tag::ScheduleOff)
            ]
        );
        assert_eq!(last, page(LightState::Off, h, -1));
        // Later queries, toggles and updates of the other hour keep it.
        let (last, _) = serve(Request::Show, &mut light, &mut store, None);
        assert_eq!(last, page(LightState::Off, h, -1));
        serve(Request::Apply(TOGGLE), &mut light, &mut store, None);
        serve(Request::Malformed, &mut light, &mut store, None);
        let other = Query { toggle: None, schedule_on: None, schedule_off: Some(22) };
        serve(Request::Apply(other), &mut light, &mut store, None);
        let (last, _) = serve(Request::Show, &mut light, &mut store, None);
        assert_eq!(last, page(LightState::On, h, 22));
        // Until it is overwritten.
        let again = Query { toggle: None, schedule_on: Some(23 - h), schedule_off: None };
        let (last, _) = serve(Request::Apply(again), &mut light, &mut store, None);
        assert_eq!(last, page(LightState::On, 23 - h, 22));
    }
}

#[test]
fn update_with_every_field() {
    let mut light = LightState::Off;
    let mut store = Schedule { on_hour: Some(1), off_hour: Some(2) };
    let query = Query { toggle: Some(1), schedule_on: Some(6), schedule_off: Some(22) };
    let (last, asked) = serve(Request::Apply(query), &mut light, &mut store, None);
    assert_eq!(
        asked,
        vec![
            Action::Store(Tag::ScheduleOn, 6),
            Action::Store(Tag::ScheduleOff, 22),
            Action::Fetch(Tag::ScheduleOn),
            Action::Fetch(Tag::ScheduleOff)
        ]
    );
    assert_eq!(last, page(LightState::On, 6, 22));
    assert_eq!(light, LightState::On);
    assert_eq!(store, Schedule { on_hour: Some(6), off_hour: Some(22) });
}

#[test]
fn hours_out_of_range_are_stored_as_given() {
    let mut light = LightState::Off;
    let mut store = Schedule::new();
    let query = Query { toggle: None, schedule_on: Some(99), schedule_off: Some(-5) };
    let (last, _) = serve(Request::Apply(query), &mut light, &mut store, None);
    assert_eq!(last, page(LightState::Off, 99, -5));
    assert_eq!(store, Schedule { on_hour: Some(99), off_hour: Some(-5) });
}

#[test]
fn empty_update_only_shows() {
    let mut light = LightState::On;
    let mut store = Schedule { on_hour: Some(6), off_hour: None };
    let (last, asked) = serve(Request::Apply(Query::new()), &mut light, &mut store, None);
    assert_eq!(asked, vec![Action::Fetch(Tag::ScheduleOn), Action::Fetch(Tag::ScheduleOff)]);
    assert_eq!(last, page(LightState::On, 6, -1));
}

#[test]
fn malformed_body_is_refused_and_changes_nothing() {
    for start in [LightState::Off, LightState::On] {
        let mut light = start;
        let mut store = Schedule { on_hour: Some(6), off_hour: Some(22) };
        let (last, asked) = serve(Request::Malformed, &mut light, &mut store, None);
        assert_eq!(last, Action::Reply(Reply::BadRequest));
        assert!(asked.is_empty());
        assert_eq!(light, start);
        assert_eq!(store, Schedule { on_hour: Some(6), off_hour: Some(22) });
    }
}

#[test]
fn reply_status_and_body() {
    let time = TimeOfDay { hour: 10, minute: 0, second: 0 };
    let shown = Reply::Page { light: LightState::On, on: 6, off: 22 };
    assert_eq!(shown.status(), 200);
    assert_eq!(shown.body_at(&time), render_page(LightState::On, &time, 6, 22));
    assert_eq!(Reply::BadRequest.status(), 400);
    assert_eq!(Reply::BadRequest.body_at(&time), "request parse error");
    assert_eq!(Reply::BadRequest.body(), "request parse error");
    let body = shown.body();
    assert!(body.contains("<p>current: ON</p>"));
    assert!(body.contains("schedule_on: 6, "));
    assert!(body.contains("schedule_off: 22, "));
}

#[test]
fn storage_failure_aborts_and_leaves_the_light() {
    let query = Query { toggle: Some(1), schedule_on: Some(6), schedule_off: Some(22) };
    for fail_at in 0..4usize {
        let mut light = LightState::Off;
        let mut store = Schedule::new();
        let (last, asked) = serve(Request::Apply(query), &mut light, &mut store, Some(fail_at));
        assert_eq!(last, Action::Abort(Fault::Storage));
        assert_eq!(asked.len(), fail_at + 1);
        assert_eq!(light, LightState::Off);
    }
    for fail_at in 0..2usize {
        let mut light = LightState::On;
        let mut store = Schedule::new();
        let (last, _) = serve(Request::Show, &mut light, &mut store, Some(fail_at));
        assert_eq!(last, Action::Abort(Fault::Storage));
        assert_eq!(light, LightState::On);
    }
}

#[test]
fn hours_written_before_a_failure_stay_written() {
    let query = Query { toggle: Some(1), schedule_on: Some(6), schedule_off: Some(22) };
    let mut light = LightState::Off;
    let mut store = Schedule::new();
    let (last, _) = serve(Request::Apply(query), &mut light, &mut store, Some(1));
    assert_eq!(last, Action::Abort(Fault::Storage));
    assert_eq!(store, Schedule { on_hour: Some(6), off_hour: None });
}

#[test]
fn event_out_of_turn_aborts() {
    let mut light = LightState::On;
    let mut exchange = Exchange::new();
    assert_eq!(exchange.step(&mut light, Event::Stored), Action::Abort(Fault::OutOfTurn));
    assert_eq!(exchange.step(&mut light, Event::Fetched(Some(1))), Action::Abort(Fault::OutOfTurn));
    assert_eq!(exchange.step(&mut light, Event::StorageFailed), Action::Abort(Fault::OutOfTurn));
    assert_eq!(
        exchange.step(&mut light, Event::Flashed(FlashOutcome::Failed)),
        Action::Abort(Fault::OutOfTurn)
    );

    assert_eq!(exchange.step(&mut light, Event::Received(Request::Show)), Action::Fetch(Tag::ScheduleOn));
    assert!(!exchange.is_idle());
    assert_eq!(exchange.step(&mut light, Event::Stored), Action::Abort(Fault::OutOfTurn));
    assert!(exchange.is_idle());

    let query = Query { toggle: Some(1), schedule_on: Some(6), schedule_off: None };
    assert_eq!(
        exchange.step(&mut light, Event::Received(Request::Apply(query))),
        Action::Store(Tag::ScheduleOn, 6)
    );
    assert_eq!(
        exchange.step(&mut light, Event::Received(Request::Show)),
        Action::Abort(Fault::OutOfTurn)
    );
    assert_eq!(exchange, Exchange::new());
    assert_eq!(light, LightState::On);
}

#[test]
fn exchange_stages_of_a_full_update() {
    let mut light = LightState::Off;
    let mut exchange = Exchange::new();
    assert_eq!(exchange.stage, Stage::Idle);
    let query = Query { toggle: Some(1), schedule_on: Some(6), schedule_off: Some(22) };
    exchange.step(&mut light, Event::Received(Request::Apply(query)));
    assert_eq!(exchange.stage, Stage::StoringOn);
    exchange.step(&mut light, Event::Stored);
    assert_eq!(exchange.stage, Stage::StoringOff);
    exchange.step(&mut light, Event::Stored);
    assert_eq!(exchange.stage, Stage::FetchingOn);
    exchange.step(&mut light, Event::Fetched(Some(6)));
    assert_eq!(exchange.stage, Stage::FetchingOff);
    assert_eq!(light, LightState::Off);
    let last = exchange.step(&mut light, Event::Fetched(Some(22)));
    assert_eq!(exchange.stage, Stage::Idle);
    assert_eq!(last, page(LightState::On, 6, 22));
}

#[test]
fn firmware_request_restarts_whatever_the_outcome() {
    for outcome in [FlashOutcome::Installed, FlashOutcome::Failed] {
        let mut light = LightState::On;
        let mut exchange = Exchange::new();
        assert_eq!(exchange.step(&mut light, Event::Received(Request::Firmware)), Action::Flash);
        assert_eq!(exchange.stage, Stage::Flashing);
        assert_eq!(exchange.step(&mut light, Event::Flashed(outcome)), Action::Restart(outcome));
        assert!(exchange.is_idle());
    }
    let mut light = LightState::On;
    let mut exchange = Exchange::new();
    exchange.step(&mut light, Event::Received(Request::Firmware));
    assert_eq!(exchange.step(&mut light, Event::StorageFailed), Action::Abort(Fault::OutOfTurn));
}

#[test]
fn restart_resets_the_light_and_keeps_the_schedule() {
    let mut light = LightState::new();
    let mut store = Schedule::new();
    let query = Query { toggle: Some(1), schedule_on: Some(6), schedule_off: Some(22) };
    serve(Request::Apply(query), &mut light, &mut store, None);
    assert_eq!(light, LightState::On);
    let (last, _) = serve(Request::Firmware, &mut light, &mut store, None);
    assert_eq!(last, Action::Restart(FlashOutcome::Installed));
    // The device comes up again: the light starts over, the store is as it was.
    let mut light = LightState::new();
    let (last, _) = serve(Request::Show, &mut light, &mut store, None);
    assert_eq!(last, page(LightState::Off, 6, 22));
}

#[test]
fn schedule_six_to_twenty_two_with_a_toggle_at_ten() {
    let mut light = LightState::new();
    let mut store = Schedule::new();
    let query = Query { toggle: None, schedule_on: Some(6), schedule_off: Some(22) };
    serve(Request::Apply(query), &mut light, &mut store, None);
    let mut changes = Vec::new();
    for second in 0..2 * 86_400u32 {
        let of_day = second % 86_400;
        let before = light;
        if second == 10 * 3600 {
            let (last, _) = serve(Request::Apply(TOGGLE), &mut light, &mut store, None);
            assert_eq!(last, page(LightState::Off, 6, 22));
        }
        let time = TimeOfDay { hour: of_day / 3600, minute: of_day / 60 % 60, second: of_day % 60 };
        tick(&mut light, &store, &time);
        if light != before {
            changes.push((second, light));
        }
    }
    assert_eq!(
        changes,
        vec![
            (6 * 3600, LightState::On),
            (10 * 3600, LightState::Off),
            (86_400 + 6 * 3600, LightState::On),
            (86_400 + 22 * 3600, LightState::Off),
        ]
    );
}
