use paluda_man::clock::TimeOfDay;
use paluda_man::light::LightState;
use paluda_man::page::{html, push_clock, render_page};

fn expected_page(light: &str, time: &str, on: i8, off: i8) -> String {
    format!(
        "<!doctype html>
<html>
  <head>
    <meta charset=\"utf-8\">
    <title>paluda-man</title>
  </head>
  <body>
    <p>current: {}</p>
    <form method=\"post\">
        <button type=\"submit\" name=\"toggle\" value=\"1\">Toggle</button>
    </form>
    <p>
        UTC: {}
    </p>
    <form method=\"post\">
        schedule_on: {}, <input type=\"number\" name=\"schedule_on\" />
        <button type=\"submit\">Update</button>
    </form>
    <form method=\"post\">
        schedule_off: {}, <input type=\"number\" name=\"schedule_off\" />
        <button type=\"submit\">Update</button>
    </form>
  </body>
</html>
",
        light, time, on, off
    )
}

fn shown_time(page: &str) -> (u32, u32, u32) {
    let start = page.find("UTC: ").unwrap() + 5;
    let end = start + page[start..].find('\n').unwrap();
    let parts: Vec<u32> = page[start..end].split(':').map(|p| p.parse().unwrap()).collect();
    assert_eq!(parts.len(), 3);
    (parts[0], parts[1], parts[2])
}

#[test]
fn page_with_schedule() {
    let time = TimeOfDay { hour: 6, minute: 0, second: 0 };
    assert_eq!(
        render_page(LightState::On, &time, 6, 22),
        expected_page("ON", "6:0:0", 6, 22)
    );
}

#[test]
fn page_without_schedule() {
    let time = TimeOfDay { hour: 23, minute: 59, second: 59 };
    assert_eq!(
        render_page(LightState::Off, &time, -1, -1),
        expected_page("OFF", "23:59:59", -1, -1)
    );
}

#[test]
fn page_shows_whatever_hour_is_stored() {
    let time = TimeOfDay { hour: 0, minute: 7, second: 30 };
    assert_eq!(
        render_page(LightState::Off, &time, 127, -128),
        expected_page("OFF", "0:7:30", 127, -128)
    );
}

#[test]
fn clock_is_not_padded() {
    let mut out = String::new();
    push_clock(&mut out, &TimeOfDay { hour: 1, minute: 2, second: 3 });
    assert_eq!(out, "1:2:3");
    let mut out = String::from("at ");
    push_clock(&mut out, &TimeOfDay { hour: 12, minute: 0, second: 45 });
    assert_eq!(out, "at 12:0:45");
}

#[test]
fn html_is_the_page_at_a_time_of_day() {
    let page = html(LightState::On, 6, 22);
    let (hour, minute, second) = shown_time(&page);
    assert!(hour < 24 && minute < 60 && second < 60);
    let time = TimeOfDay { hour, minute, second };
    assert_eq!(page, render_page(LightState::On, &time, 6, 22));
    assert_eq!(page, expected_page("ON", &format!("{}:{}:{}", hour, minute, second), 6, 22));
}
