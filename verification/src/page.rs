//! The status page: one HTML document that shows the light, the time and
//! the two hours of the schedule, with the forms that change them.

use crate::clock::{now, TimeOfDay};
use crate::light::LightState;
use crate::text::{decimal, push_decimal, push_natural};
use vstd::prelude::*;
use vstd::string::StringExecFns;

verus! {

/// The page up to the state of the light.
pub const PAGE_HEAD: &'static str =
    "<!doctype html>\n<html>\n  <head>\n    <meta charset=\"utf-8\">\n    <title>paluda-man</title>\n  </head>\n  <body>\n    <p>current: ";

/// The page between the state of the light and the time.
pub const PAGE_AFTER_LIGHT: &'static str =
    "</p>\n    <form method=\"post\">\n        <button type=\"submit\" name=\"toggle\" value=\"1\">Toggle</button>\n    </form>\n    <p>\n        UTC: ";

/// The page between the time and the on hour.
pub const PAGE_AFTER_TIME: &'static str =
    "\n    </p>\n    <form method=\"post\">\n        schedule_on: ";

/// The page between the on hour and the off hour.
pub const PAGE_AFTER_ON: &'static str =
    ", <input type=\"number\" name=\"schedule_on\" />\n        <button type=\"submit\">Update</button>\n    </form>\n    <form method=\"post\">\n        schedule_off: ";

/// The page after the off hour.
pub const PAGE_TAIL: &'static str =
    ", <input type=\"number\" name=\"schedule_off\" />\n        <button type=\"submit\">Update</button>\n    </form>\n  </body>\n</html>\n";

/// The time as the page prints it: hour, minute and second in decimal,
/// without padding, with a colon between them.
pub open spec fn clock_text(time: TimeOfDay) -> Seq<char> {
    decimal(time.hour as int) + ":"@ + decimal(time.minute as int) + ":"@ + decimal(
        time.second as int,
    )
}

/// The text of the status page for a light, a time and the two hours of
/// the schedule as they are shown.
pub open spec fn page_text(light: LightState, time: TimeOfDay, on: i8, off: i8) -> Seq<char> {
    PAGE_HEAD@ + light.word() + PAGE_AFTER_LIGHT@ + clock_text(time) + PAGE_AFTER_TIME@ + decimal(
        on as int,
    ) + PAGE_AFTER_ON@ + decimal(off as int) + PAGE_TAIL@
}

/// Appends the time as the page prints it.
pub fn push_clock(out: &mut String, time: &TimeOfDay)
    ensures
        final(out)@ == old(out)@ + clock_text(*time),
{
    push_natural(out, time.hour as u64);
    out.append(":");
    push_natural(out, time.minute as u64);
    out.append(":");
    push_natural(out, time.second as u64);
    assert(final(out)@ =~= old(out)@ + clock_text(*time));
}

/// The status page for a light, a time and the two hours as they are shown.
pub fn render_page(light: LightState, time: &TimeOfDay, on: i8, off: i8) -> (page: String)
    ensures
        page@ == page_text(light, *time, on, off),
{
    let mut page = String::new();
    page.append(PAGE_HEAD);
    page.append(light.label());
    page.append(PAGE_AFTER_LIGHT);
    push_clock(&mut page, time);
    page.append(PAGE_AFTER_TIME);
    push_decimal(&mut page, on as i64);
    page.append(PAGE_AFTER_ON);
    push_decimal(&mut page, off as i64);
    page.append(PAGE_TAIL);
    assert(page@ =~= page_text(light, *time, on, off));
    page
}

/// The status page at the current time. Which time the clock shows is not
/// known here: the page is what `render_page` gives for some time that a
/// clock can show.
pub fn html(light: LightState, on: i8, off: i8) -> (page: String)
    ensures
        exists|time: TimeOfDay| #[trigger] time.valid() && page@ == page_text(light, time, on, off),
{
    let time = now();
    let page = render_page(light, &time, on, off);
    assert(time.valid() && page@ == page_text(light, time, on, off));
    page
}

} // verus!
