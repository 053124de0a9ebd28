use status_console::calendar::{
    lookahead_window, pick_among, pick_event, quick_join_from_captures, quick_join_url, rank,
    resolve_all, Attendee, CalendarEntry, EntryAttendee, Event, Response,
};
use status_console::state::CalendarEvent;

const NOW: i64 = 1_641_835_800;

fn me(response: Response) -> Attendee {
    Attendee { is_self: true, response }
}

fn other(response: Response) -> Attendee {
    Attendee { is_self: false, response }
}

fn event(title: &str, start: i64, minutes: i64, attendees: Vec<Attendee>) -> Event {
    Event {
        title: title.to_string(),
        time: String::new(),
        start: Some(start),
        end: Some(start + minutes * 60),
        cancelled: false,
        attendees,
        join_label: None,
    }
}

fn entry(summary: &str, start: &str, end: &str, response: Option<&str>) -> CalendarEntry {
    CalendarEntry {
        summary: Some(summary.to_string()),
        start: Some(start.to_string()),
        end: Some(end.to_string()),
        status: Some("confirmed".to_string()),
        attendees: vec![EntryAttendee {
            is_self: true,
            response_status: response.map(|r| r.to_string()),
        }],
        entry_point_labels: Vec::new(),
    }
}

#[test]
fn three_quarters_is_the_boundary_and_is_still_shown() {
    let e = event("long", 1000, 0, vec![]);
    let e = Event { end: Some(1400), ..e };
    assert!(!e.is_excluded(900));
    assert!(!e.is_excluded(1000));
    assert!(!e.is_excluded(1299));
    assert!(!e.is_excluded(1300));
    assert!(e.is_excluded(1301));
    assert!(e.is_excluded(1400));
    assert!(e.is_excluded(5000));
}

#[test]
fn the_cutoff_is_exact_where_the_length_is_no_multiple_of_four() {
    let e = Event { end: Some(1010), ..event("short", 1000, 0, vec![]) };
    assert!(!e.is_excluded(1007));
    assert!(e.is_excluded(1008));
}

#[test]
fn events_without_instants_or_cancelled_are_excluded() {
    let base = event("x", NOW + 600, 30, vec![]);
    assert!(!base.is_excluded(NOW));
    assert!(Event { start: None, ..base.clone() }.is_excluded(NOW));
    assert!(Event { end: None, ..base.clone() }.is_excluded(NOW));
    assert!(Event { cancelled: true, ..base.clone() }.is_excluded(NOW));
}

#[test]
fn far_apart_instants_do_not_overflow() {
    let e = Event {
        start: Some(i64::MIN),
        end: Some(i64::MAX),
        ..event("forever", 0, 0, vec![])
    };
    assert!(!e.is_excluded(0));
    assert!(e.is_excluded(i64::MAX));
    assert_eq!(e.score(), -((i64::MAX as i128 - i64::MIN as i128) / 60));
}

#[test]
fn a_declined_event_is_excluded_whatever_the_competition() {
    let declined = event("declined", NOW + 60, 5, vec![other(Response::Accepted), me(Response::Declined)]);
    assert!(declined.is_declined());
    assert!(declined.is_excluded(NOW));
    let late = event("late", NOW + 86_000, 480, vec![me(Response::Tentative)]);
    assert_eq!(rank(&vec![declined.clone(), late.clone()], NOW), Some(1));
    assert_eq!(rank(&vec![late, declined.clone()], NOW), Some(0));
    assert_eq!(rank(&vec![declined], NOW), None);
}

#[test]
fn another_attendee_declining_excludes_nothing() {
    let e = event("team", NOW + 60, 30, vec![other(Response::Declined), me(Response::Accepted)]);
    assert!(!e.is_declined());
    assert!(!e.is_excluded(NOW));
}

#[test]
fn scores_are_in_thirtieths() {
    assert_eq!(event("a", NOW, 30, vec![]).score(), -30);
    assert_eq!(event("a", NOW, 30, vec![me(Response::Accepted)]).score(), 120);
    assert_eq!(event("a", NOW, 30, vec![me(Response::Tentative)]).score(), -330);
    assert_eq!(event("a", NOW, 30, vec![me(Response::NeedsAction)]).score(), -330);
    assert_eq!(event("a", NOW, 30, vec![me(Response::Other)]).score(), -30);
    assert_eq!(event("a", NOW, 30, vec![other(Response::Accepted)]).score(), -30);
    assert_eq!(event("a", NOW, 15, vec![me(Response::Accepted)]).score(), 135);
    let odd = Event { end: Some(NOW + 119), ..event("a", NOW, 0, vec![]) };
    assert_eq!(odd.score(), -1);
    let backwards = Event { end: Some(NOW - 119), ..event("a", NOW, 0, vec![]) };
    assert_eq!(backwards.score(), 1);
}

#[test]
fn the_earlier_of_two_events_is_chosen() {
    let early = event("early", NOW + 300, 240, vec![me(Response::Tentative)]);
    let late = event("late", NOW + 301, 5, vec![me(Response::Accepted)]);
    assert_eq!(rank(&vec![early.clone(), late.clone()], NOW), Some(0));
    assert_eq!(rank(&vec![late, early], NOW), Some(1));
}

#[test]
fn of_two_events_that_start_together_the_higher_score_is_chosen() {
    let good = event("good", NOW + 300, 30, vec![me(Response::Accepted)]);
    let poor = event("poor", NOW + 300, 30, vec![me(Response::Tentative)]);
    assert_eq!(rank(&vec![good.clone(), poor.clone()], NOW), Some(0));
    assert_eq!(rank(&vec![poor, good], NOW), Some(1));
}

#[test]
fn a_full_tie_goes_to_the_event_listed_last() {
    let a = event("a", NOW + 300, 30, vec![me(Response::Accepted)]);
    let b = event("b", NOW + 300, 30, vec![me(Response::Accepted)]);
    assert_eq!(rank(&vec![a.clone(), b.clone(), a.clone()], NOW), Some(2));
    assert_eq!(rank(&vec![a, b], NOW), Some(1));
}

#[test]
fn accepted_short_meeting_beats_tentative_twin_and_later_meeting() {
    let a = event("A", NOW + 300, 30, vec![me(Response::Accepted)]);
    let b = event("B", NOW + 300, 30, vec![me(Response::Tentative)]);
    let c = event("C", NOW + 7200, 15, vec![me(Response::Accepted)]);
    assert_eq!(rank(&vec![a.clone(), b.clone(), c.clone()], NOW), Some(0));
    assert_eq!(rank(&vec![b.clone(), a.clone(), c.clone()], NOW), Some(1));
    assert_eq!(rank(&vec![c.clone(), b.clone(), a.clone()], NOW), Some(2));
    let shown = pick_among(&vec![c, b, a], NOW).unwrap();
    assert_eq!(shown.title, "A");
    assert_eq!(shown.start, NOW + 300);
    assert_eq!(shown.zoom_url, None);
}

#[test]
fn nothing_is_chosen_from_nothing() {
    assert_eq!(rank(&Vec::new(), NOW), None);
    assert_eq!(pick_among(&Vec::new(), NOW), None);
    assert_eq!(pick_event(&Vec::new(), NOW), None);
    let over = event("over", NOW - 3600, 30, vec![]);
    assert_eq!(rank(&vec![over], NOW), None);
}

#[test]
fn response_statuses_are_read_by_name() {
    let read = |s: &str| Response::from_status(&Some(s.to_string()));
    assert_eq!(read("accepted"), Response::Accepted);
    assert_eq!(read("declined"), Response::Declined);
    assert_eq!(read("tentative"), Response::Tentative);
    assert_eq!(read("needsAction"), Response::NeedsAction);
    assert_eq!(read("needsaction"), Response::Other);
    assert_eq!(read(""), Response::Other);
    assert_eq!(Response::from_status(&None), Response::Other);
}

#[test]
fn a_web_join_address_becomes_a_direct_launch_address() {
    assert_eq!(
        quick_join_url("https://zoom.us/j/99917074685?pwd=RWprdkxOOEpUUU84ejRVZ09td1NPUT09"),
        Some(
            "zoomus://zoom.us/join?action=join&confno=99917074685&pwd=RWprdkxOOEpUUU84ejRVZ09td1NPUT09"
                .to_string()
        )
    );
    assert_eq!(
        quick_join_url("https://example.zoom.us/j/1?pwd="),
        Some("zoomus://zoom.us/join?action=join&confno=1&pwd=".to_string())
    );
}

#[test]
fn a_label_without_a_web_join_address_gives_no_quick_join() {
    assert_eq!(quick_join_url(""), None);
    assert_eq!(quick_join_url("meet.google.com/abc-defg-hij"), None);
    assert_eq!(quick_join_url("https://zoom.us/j/99917074685"), None);
    assert_eq!(quick_join_url("https://zoom.us/s/99917074685?pwd=abc"), None);
}

#[test]
fn a_direct_launch_address_gives_no_quick_join_again() {
    let first = quick_join_url("https://zoom.us/j/99917074685?pwd=abcDEF123").unwrap();
    assert_eq!(first, "zoomus://zoom.us/join?action=join&confno=99917074685&pwd=abcDEF123");
    assert_eq!(quick_join_url(&first), None);
}

#[test]
fn a_password_that_holds_a_web_join_address_is_extracted_again() {
    let first = quick_join_url("/j//j/1?pwd=a?pwd=b").unwrap();
    assert_eq!(first, "zoomus://zoom.us/join?action=join&confno=/j/1&pwd=a?pwd=b");
    assert_eq!(
        quick_join_url(&first),
        Some("zoomus://zoom.us/join?action=join&confno=1&pwd=a&pwd=b".to_string())
    );
}

#[test]
fn quick_join_is_built_from_groups_one_and_two() {
    let groups = |g: Vec<Option<&str>>| Some(g.into_iter().map(|t| t.map(String::from)).collect());
    assert_eq!(
        quick_join_from_captures(&groups(vec![Some("/j/1?pwd=2"), Some("1"), Some("2")])),
        Some("zoomus://zoom.us/join?action=join&confno=1&pwd=2".to_string())
    );
    assert_eq!(quick_join_from_captures(&groups(vec![Some("x"), Some("1"), None])), None);
    assert_eq!(quick_join_from_captures(&groups(vec![Some("x"), Some("1")])), None);
    assert_eq!(quick_join_from_captures(&None), None);
}

#[test]
fn an_entry_is_read_with_its_instants_and_clock_texts() {
    let mut e = entry(
        "Standup",
        "2022-01-10T09:30:00-08:00",
        "2022-01-10T10:00:00-08:00",
        Some("accepted"),
    );
    e.entry_point_labels = vec![Some("zoom.us/j/5?pwd=p".to_string()), Some("other".to_string())];
    let read = e.resolve();
    assert_eq!(
        read,
        Event {
            title: "Standup".to_string(),
            time: " 9:30am - 10:00am".to_string(),
            start: Some(1_641_835_800),
            end: Some(1_641_837_600),
            cancelled: false,
            attendees: vec![Attendee { is_self: true, response: Response::Accepted }],
            join_label: Some("zoom.us/j/5?pwd=p".to_string()),
        }
    );
    let shown = read.surface();
    assert_eq!(
        shown,
        CalendarEvent {
            title: "Standup".to_string(),
            time: " 9:30am - 10:00am".to_string(),
            start: 1_641_835_800,
            zoom_url: Some("zoomus://zoom.us/join?action=join&confno=5&pwd=p".to_string()),
        }
    );
}

#[test]
fn an_entry_that_cannot_be_read_is_excluded_not_fatal() {
    let all_day = CalendarEntry {
        summary: None,
        start: None,
        end: None,
        status: None,
        attendees: Vec::new(),
        entry_point_labels: vec![None],
    };
    let read = all_day.resolve();
    assert_eq!(read.title, "");
    assert_eq!(read.time, "");
    assert_eq!(read.start, None);
    assert_eq!(read.end, None);
    assert_eq!(read.join_label, None);
    assert!(read.is_excluded(NOW));

    let garbled = entry("Garbled", "tomorrow at nine", "2022-01-10T10:00:00-08:00", None);
    let read = garbled.resolve();
    assert_eq!(read.start, None);
    assert_eq!(read.end, Some(1_641_837_600));
    assert_eq!(read.time, "");
    assert!(read.is_excluded(NOW));

    let mut cancelled = entry("Off", "2022-01-10T09:30:00-08:00", "2022-01-10T10:00:00-08:00", None);
    cancelled.status = Some("cancelled".to_string());
    assert!(cancelled.resolve().cancelled);
}

#[test]
fn one_cycle_of_the_calendar_feed() {
    let entries = vec![
        entry("Later", "2022-01-10T11:00:00-08:00", "2022-01-10T11:15:00-08:00", Some("accepted")),
        entry("Broken", "", "", Some("accepted")),
        entry("Maybe", "2022-01-10T09:35:00-08:00", "2022-01-10T10:05:00-08:00", Some("tentative")),
        entry("Declined", "2022-01-10T09:31:00-08:00", "2022-01-10T09:36:00-08:00", Some("declined")),
        entry("Yes", "2022-01-10T17:35:00Z", "2022-01-10T18:05:00+00:00", Some("accepted")),
    ];
    assert_eq!(resolve_all(&entries).len(), 5);
    let shown = pick_event(&entries, NOW).unwrap();
    assert_eq!(shown.title, "Yes");
    assert_eq!(shown.start, NOW + 300);
    assert_eq!(shown.time, " 5:35pm -  6:05pm");
    assert_eq!(shown.zoom_url, None);
    assert_eq!(pick_event(&entries, NOW + 86_400), None);
}

#[test]
fn the_lookahead_window_runs_from_two_hours_back_to_one_day_ahead() {
    assert_eq!(lookahead_window(NOW), (NOW - 7_200, NOW + 86_400));
    assert_eq!(lookahead_window(0), (-7_200, 86_400));
}
