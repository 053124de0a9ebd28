//! Choosing the one calendar event to show.
//!
//! An event is left out when it has no concrete start or end instant, when
//! it is cancelled, when the console's user declined it, or when more than
//! three quarters of it have passed. Among the others the earliest start
//! wins; among equal starts the higher score wins, and where that ties too,
//! the event that the feed lists last. Scores are kept in thirtieths of a
//! point, which makes them whole numbers: an event loses one thirtieth per
//! whole minute of its length, gains five points where the user accepted
//! and loses ten where the answer is tentative or still owed.

use vstd::prelude::*;
use vstd::string::StringExecFns;
use crate::pattern::{captures, captures_view, group, group_of, regex_captures, regex_compiles};
use crate::state::{CalendarEvent, CalendarEventView};
use crate::text::optional_text;
use crate::timestamps::{read_instant, rfc3339_shown, rfc3339_timestamp};

verus! {

/// How an attendee answered the invitation.
#[derive(Clone, Copy, Debug, PartialEq, Eq, Structural)]
pub enum Response {
    Accepted,
    Declined,
    Tentative,
    NeedsAction,
    /// No answer on record, or one that the console does not know.
    Other,
}

/// One attendee of an event.
#[derive(Clone, Copy, Debug, PartialEq, Eq, Structural)]
pub struct Attendee {
    /// Whether this entry stands for the console's user.
    pub is_self: bool,
    pub response: Response,
}

/// A calendar event with its instants read: what the choice works on.
#[derive(Clone, Debug, PartialEq, Eq)]
pub struct Event {
    pub title: String,
    /// Display text of the time span.
    pub time: String,
    /// Start instant in seconds since the epoch; `None` for an event
    /// without a concrete start, such as an all-day event.
    pub start: Option<i64>,
    /// End instant in seconds since the epoch.
    pub end: Option<i64>,
    pub cancelled: bool,
    pub attendees: Vec<Attendee>,
    /// Label of the event's first conferencing entry point.
    pub join_label: Option<String>,
}

/// An [`Event`] with its texts and lists as sequences.
pub struct EventView {
    pub title: Seq<char>,
    pub time: Seq<char>,
    pub start: Option<i64>,
    pub end: Option<i64>,
    pub cancelled: bool,
    pub attendees: Seq<Attendee>,
    pub join_label: Option<Seq<char>>,
}

impl View for Event {
    type V = EventView;

    open spec fn view(&self) -> EventView {
        EventView {
            title: self.title@,
            time: self.time@,
            start: self.start,
            end: self.end,
            cancelled: self.cancelled,
            attendees: self.attendees@,
            join_label: crate::text::optional_text(self.join_label),
        }
    }
}

/// The views of a list of events.
pub open spec fn event_views(events: Seq<Event>) -> Seq<EventView> {
    events.map_values(|e: Event| e@)
}

/// Points in thirtieths for an accepted invitation.
pub const ACCEPTED_BONUS: i128 = 150;

/// Points in thirtieths lost for a tentative or unanswered invitation.
pub const UNDECIDED_PENALTY: i128 = 300;

/// Whether more than three quarters of the span from `start` to `end` have
/// passed at `now`: `(now - start) / (end - start) > 3/4`, cleared of the
/// division. For a span of no length this is `now > start`.
pub open spec fn past_cutoff(start: int, end: int, now: int) -> bool {
    4 * (now - start) > 3 * (end - start)
}

/// Whether the console's user declined the event.
pub open spec fn declined(attendees: Seq<Attendee>) -> bool {
    exists|i: int|
        0 <= i < attendees.len() && (#[trigger] attendees[i]).is_self && attendees[i].response
            == Response::Declined
}

/// Whether the event is left out of the choice at `now`.
pub open spec fn excluded(e: EventView, now: int) -> bool {
    ||| e.start is None
    ||| e.end is None
    ||| e.cancelled
    ||| declined(e.attendees)
    ||| past_cutoff(e.start->0 as int, e.end->0 as int, now)
}

/// The length of the span from `start` to `end` in whole minutes, rounded
/// toward zero.
pub open spec fn whole_minutes(start: int, end: int) -> int {
    if end >= start {
        (end - start) / 60
    } else {
        -((start - end) / 60)
    }
}

/// What one attendee's answer adds to the score, in thirtieths.
pub open spec fn adjustment(a: Attendee) -> int {
    if !a.is_self {
        0
    } else {
        match a.response {
            Response::Accepted => 150,
            Response::Tentative | Response::NeedsAction => -300,
            _ => 0,
        }
    }
}

/// The sum of the attendees' adjustments.
pub open spec fn adjustments(attendees: Seq<Attendee>) -> int
    decreases attendees.len(),
{
    if attendees.len() == 0 {
        0
    } else {
        adjustments(attendees.drop_last()) + adjustment(attendees.last())
    }
}

/// The score of an event with concrete instants, in thirtieths of a point.
pub open spec fn score(e: EventView) -> int {
    adjustments(e.attendees) - whole_minutes(e.start->0 as int, e.end->0 as int)
}

/// Whether `a` is strictly preferred to `b`: it starts earlier, or at the
/// same instant with a higher score.
pub open spec fn preferred(a: EventView, b: EventView) -> bool {
    a.start->0 < b.start->0 || (a.start->0 == b.start->0 && score(a) > score(b))
}

/// Whether `events[i]` is the choice among the first `n` events: it is not
/// excluded, no other candidate is preferred to it, and it is preferred to
/// every candidate listed after it.
pub open spec fn is_pick_among(events: Seq<EventView>, now: int, n: int, i: int) -> bool {
    &&& 0 <= i < n <= events.len()
    &&& !excluded(events[i], now)
    &&& forall|j: int|
        0 <= j < n && !excluded(#[trigger] events[j], now) ==> !preferred(events[j], events[i]) && (
        j > i ==> preferred(events[i], events[j]))
}

/// Whether `events[i]` is the choice among all of `events`.
pub open spec fn is_pick(events: Seq<EventView>, now: int, i: int) -> bool {
    is_pick_among(events, now, events.len() as int, i)
}

/// Whether every one of the first `n` events is excluded.
pub open spec fn none_eligible(events: Seq<EventView>, now: int, n: int) -> bool {
    forall|j: int| 0 <= j < n ==> excluded(#[trigger] events[j], now)
}

impl Response {
    /// The answer that a response status of the calendar feed stands for.
    pub open spec fn of_status(status: Option<Seq<char>>) -> Response {
        match status {
            Some(s) => if s == "accepted"@ {
                Response::Accepted
            } else if s == "declined"@ {
                Response::Declined
            } else if s == "tentative"@ {
                Response::Tentative
            } else if s == "needsAction"@ {
                Response::NeedsAction
            } else {
                Response::Other
            },
            None => Response::Other,
        }
    }

    /// Reads a response status of the calendar feed.
    pub fn from_status(status: &Option<String>) -> (response: Response)
        ensures
            response == Response::of_status(crate::text::optional_text(*status)),
    {
        match status {
            Some(s) => {
                if crate::text::same_text(s.as_str(), "accepted") {
                    Response::Accepted
                } else if crate::text::same_text(s.as_str(), "declined") {
                    Response::Declined
                } else if crate::text::same_text(s.as_str(), "tentative") {
                    Response::Tentative
                } else if crate::text::same_text(s.as_str(), "needsAction") {
                    Response::NeedsAction
                } else {
                    Response::Other
                }
            },
            None => Response::Other,
        }
    }
}

impl Attendee {
    /// What this attendee's answer adds to the score, in thirtieths.
    pub fn adjustment(&self) -> (points: i128)
        ensures
            points == adjustment(*self),
            -300 <= points <= 150,
    {
        if !self.is_self {
            0
        } else {
            match self.response {
                Response::Accepted => ACCEPTED_BONUS,
                Response::Tentative | Response::NeedsAction => -UNDECIDED_PENALTY,
                _ => 0,
            }
        }
    }
}

impl Event {
    /// Whether the console's user declined this event.
    pub fn is_declined(&self) -> (yes: bool)
        ensures
            yes == declined(self@.attendees),
    {
        let mut i: usize = 0;
        while i < self.attendees.len()
            invariant
                i <= self.attendees@.len(),
                forall|j: int|
                    0 <= j < i ==> !((#[trigger] self.attendees@[j]).is_self
                        && self.attendees@[j].response == Response::Declined),
            decreases self.attendees@.len() - i,
        {
            let a = self.attendees[i];
            if a.is_self && a.response == Response::Declined {
                return true;
            }
            i += 1;
        }
        false
    }

    /// Whether this event is left out of the choice at `now`.
    pub fn is_excluded(&self, now: i64) -> (yes: bool)
        ensures
            yes == excluded(self@, now as int),
    {
        match (self.start, self.end) {
            (Some(start), Some(end)) => {
                if self.cancelled || self.is_declined() {
                    true
                } else {
                    let elapsed: i128 = now as i128 - start as i128;
                    let length: i128 = end as i128 - start as i128;
                    4 * elapsed > 3 * length
                }
            },
            _ => true,
        }
    }

    /// The score of this event in thirtieths of a point.
    pub fn score(&self) -> (points: i128)
        requires
            self.start is Some,
            self.end is Some,
        ensures
            points == score(self@),
    {
        let start: i128 = self.start.unwrap() as i128;
        let end: i128 = self.end.unwrap() as i128;
        let minutes: i128 = if end >= start {
            (end - start) / 60
        } else {
            -((start - end) / 60)
        };
        let mut sum: i128 = 0;
        let mut i: usize = 0;
        while i < self.attendees.len()
            invariant
                i <= self.attendees@.len(),
                sum == adjustments(self.attendees@.take(i as int)),
                -300 * i <= sum <= 150 * i,
            decreases self.attendees@.len() - i,
        {
            proof {
                assert(self.attendees@.take(i + 1).drop_last() =~= self.attendees@.take(i as int));
            }
            sum = sum + self.attendees[i].adjustment();
            i += 1;
        }
        proof {
            assert(self.attendees@.take(i as int) =~= self.attendees@);
        }
        sum - minutes
    }
}

/// Chooses among `events` at `now`: the index of the event to show, or
/// `None` when every event is excluded.
pub fn rank(events: &Vec<Event>, now: i64) -> (choice: Option<usize>)
    ensures
        match choice {
            Some(i) => is_pick(event_views(events@), now as int, i as int),
            None => none_eligible(event_views(events@), now as int, events@.len() as int),
        },
{
    let ghost views = event_views(events@);
    let mut best: Option<usize> = None;
    let mut best_start: i64 = 0;
    let mut best_score: i128 = 0;
    let mut k: usize = 0;
    while k < events.len()
        invariant
            k <= events@.len(),
            views == event_views(events@),
            views.len() == events@.len(),
            match best {
                Some(i) => is_pick_among(views, now as int, k as int, i as int) && views[i as int].start
                    == Some(best_start) && best_score == score(views[i as int]),
                None => none_eligible(views, now as int, k as int),
            },
        decreases events@.len() - k,
    {
        let event = &events[k];
        assert(views[k as int] == event@);
        if !event.is_excluded(now) {
            let start = event.start.unwrap();
            let points = event.score();
            let keep = match best {
                Some(_) => best_start < start || (best_start == start && best_score > points),
                None => false,
            };
            if !keep {
                best = Some(k);
                best_start = start;
                best_score = points;
            }
        }
        k += 1;
    }
    best
}

/// Three quarters is the boundary, and the boundary itself is still shown:
/// an event of positive length that is neither cancelled nor declined is
/// excluded exactly when the elapsed share of its length exceeds three
/// quarters.
pub proof fn lemma_cutoff_at_three_quarters(e: EventView, now: int)
    requires
        e.start is Some,
        e.end is Some,
        e.start->0 < e.end->0,
        !e.cancelled,
        !declined(e.attendees),
    ensures
        excluded(e, now) <==> 4 * (now - e.start->0) > 3 * (e.end->0 - e.start->0),
        4 * (now - e.start->0) == 3 * (e.end->0 - e.start->0) ==> !excluded(e, now),
        now <= e.start->0 ==> !excluded(e, now),
        now >= e.end->0 ==> excluded(e, now),
{
}

/// A declined event is excluded at every instant and is never the choice,
/// whatever else is on the list.
pub proof fn lemma_declined_is_never_picked(events: Seq<EventView>, now: int, i: int)
    requires
        0 <= i < events.len(),
        declined(events[i].attendees),
    ensures
        excluded(events[i], now),
        !is_pick(events, now, i),
{
}

/// The choice starts no later than any other candidate, and among the
/// candidates that start with it none has a higher score.
pub proof fn lemma_pick_is_earliest_then_best(events: Seq<EventView>, now: int, i: int, j: int)
    requires
        is_pick(events, now, i),
        0 <= j < events.len(),
        !excluded(events[j], now),
    ensures
        events[i].start->0 <= events[j].start->0,
        events[i].start->0 == events[j].start->0 ==> score(events[i]) >= score(events[j]),
{
    assert(!preferred(events[j], events[i]));
}

/// Of two candidates the earlier one is chosen, and of two that start
/// together the one with the higher score, in whichever order the feed
/// lists them.
pub proof fn lemma_choice_of_two(a: EventView, b: EventView, now: int)
    requires
        !excluded(a, now),
        !excluded(b, now),
        preferred(a, b),
    ensures
        is_pick(seq![a, b], now, 0),
        is_pick(seq![b, a], now, 1),
        !is_pick(seq![a, b], now, 1),
        !is_pick(seq![b, a], now, 0),
{
    let ab = seq![a, b];
    let ba = seq![b, a];
    assert(ab[0] == a && ab[1] == b);
    assert(ba[0] == b && ba[1] == a);
}

/// At most one event is the choice.
pub proof fn lemma_pick_unique(events: Seq<EventView>, now: int, i: int, j: int)
    requires
        is_pick(events, now, i),
        is_pick(events, now, j),
    ensures
        i == j,
{
    if i < j {
        assert(preferred(events[i], events[j]));
    } else if j < i {
        assert(preferred(events[j], events[i]));
    }
}

/// The web-join address of a conference: a meeting id behind `/j/`, and a
/// password behind `?pwd=` that runs to the end of the text.
pub const WEB_JOIN_PATTERN: &'static str = "/j/(.*?)\\?pwd=(.*?)$";

/// What a direct-launch address starts with, up to the meeting id.
pub const DIRECT_JOIN_HEAD: &'static str = "zoomus://zoom.us/join?action=join&confno=";

/// What stands between the meeting id and the password in a direct-launch
/// address.
pub const DIRECT_JOIN_PASSWORD: &'static str = "&pwd=";

/// The direct-launch address for a meeting id and its password.
pub open spec fn direct_join(id: Seq<char>, password: Seq<char>) -> Seq<char> {
    DIRECT_JOIN_HEAD@ + id + DIRECT_JOIN_PASSWORD@ + password
}

/// The direct-launch address that a match of the web-join pattern gives:
/// group 1 is the meeting id and group 2 the password. No match, or a match
/// that lacks one of the two, gives none.
pub open spec fn quick_join_of(found: Option<Seq<Option<Seq<char>>>>) -> Option<Seq<char>> {
    match (group_of(found, 1), group_of(found, 2)) {
        (Some(id), Some(password)) => Some(direct_join(id, password)),
        _ => None,
    }
}

/// The direct-launch address derived from a conferencing label, if the
/// label holds a web-join address.
pub open spec fn quick_join(label: Seq<char>) -> Option<Seq<char>> {
    if regex_compiles(WEB_JOIN_PATTERN@) {
        quick_join_of(regex_captures(WEB_JOIN_PATTERN@, label))
    } else {
        None
    }
}

/// Builds the direct-launch address from a match of the web-join pattern.
pub fn quick_join_from_captures(found: &Option<Vec<Option<String>>>) -> (url: Option<String>)
    ensures
        optional_text(url) == quick_join_of(captures_view(*found)),
{
    match (group(found, 1), group(found, 2)) {
        (Some(id), Some(password)) => {
            let mut url = String::from_str(DIRECT_JOIN_HEAD);
            url.append(id.as_str());
            url.append(DIRECT_JOIN_PASSWORD);
            url.append(password.as_str());
            Some(url)
        },
        _ => None,
    }
}

/// Derives the direct-launch address from a conferencing label. A label
/// that holds no web-join address gives `None`: that is no error.
pub fn quick_join_url(label: &str) -> (url: Option<String>)
    ensures
        optional_text(url) == quick_join(label@),
{
    match captures(WEB_JOIN_PATTERN, label) {
        Ok(found) => quick_join_from_captures(&found),
        Err(_) => None,
    }
}

/// What the console shows of an event.
pub open spec fn surfaced(e: EventView) -> CalendarEventView {
    CalendarEventView {
        title: e.title,
        time: e.time,
        start: e.start->0,
        zoom_url: match e.join_label {
            Some(label) => quick_join(label),
            None => None,
        },
    }
}

impl Event {
    /// What the console shows of this event: its title, time span and start,
    /// and the direct-launch address derived from its conferencing label.
    pub fn surface(&self) -> (shown: CalendarEvent)
        requires
            self.start is Some,
        ensures
            shown@ == surfaced(self@),
    {
        CalendarEvent {
            title: self.title.clone(),
            time: self.time.clone(),
            start: self.start.unwrap(),
            zoom_url: match &self.join_label {
                Some(label) => quick_join_url(label.as_str()),
                None => None,
            },
        }
    }
}

/// One attendee as the calendar feed lists it.
#[derive(Clone, Debug, PartialEq, Eq)]
pub struct EntryAttendee {
    pub is_self: bool,
    pub response_status: Option<String>,
}

/// One event as the calendar feed delivers it: instants as RFC 3339 texts,
/// everything optional.
#[derive(Clone, Debug, PartialEq, Eq)]
pub struct CalendarEntry {
    pub summary: Option<String>,
    pub start: Option<String>,
    pub end: Option<String>,
    pub status: Option<String>,
    pub attendees: Vec<EntryAttendee>,
    /// Labels of the conferencing entry points, in feed order.
    pub entry_point_labels: Vec<Option<String>>,
}

/// The status text of a cancelled event.
pub const CANCELLED: &'static str = "cancelled";

/// The strftime layout of the clock texts in a time span.
pub const CLOCK_LAYOUT: &'static str = "%l:%M%P";

/// What separates the two clock texts of a time span.
pub const SPAN_SEPARATOR: &'static str = " - ";

/// The instant that an optional RFC 3339 text names.
pub open spec fn instant_of(text: Option<String>) -> Option<i64> {
    match text {
        Some(t) => rfc3339_timestamp(t@),
        None => None,
    }
}

/// The clock text of the instant that an optional RFC 3339 text names.
pub open spec fn clock_of(text: Option<String>) -> Option<Seq<char>> {
    match text {
        Some(t) => if rfc3339_timestamp(t@) is Some {
            rfc3339_shown(t@, CLOCK_LAYOUT@)
        } else {
            None
        },
        None => None,
    }
}

/// The display text of a time span: both clock texts around the separator,
/// or nothing when one of them is missing.
pub open spec fn span_text(from: Option<Seq<char>>, to: Option<Seq<char>>) -> Seq<char> {
    match (from, to) {
        (Some(a), Some(b)) => a + SPAN_SEPARATOR@ + b,
        _ => Seq::empty(),
    }
}

/// The attendee that a feed attendee stands for.
pub open spec fn attendee_of(a: EntryAttendee) -> Attendee {
    Attendee { is_self: a.is_self, response: Response::of_status(optional_text(a.response_status)) }
}

/// The event that a feed entry stands for.
pub open spec fn resolved(entry: CalendarEntry) -> EventView {
    EventView {
        title: match entry.summary {
            Some(t) => t@,
            None => Seq::empty(),
        },
        time: span_text(clock_of(entry.start), clock_of(entry.end)),
        start: instant_of(entry.start),
        end: instant_of(entry.end),
        cancelled: optional_text(entry.status) == Some(CANCELLED@),
        attendees: entry.attendees@.map_values(|a: EntryAttendee| attendee_of(a)),
        join_label: if entry.entry_point_labels@.len() > 0 {
            optional_text(entry.entry_point_labels@[0])
        } else {
            None
        },
    }
}

/// The events that a list of feed entries stands for.
pub open spec fn resolved_all(entries: Seq<CalendarEntry>) -> Seq<EventView> {
    entries.map_values(|e: CalendarEntry| resolved(e))
}

fn read_optional_instant(text: &Option<String>) -> (read: (Option<i64>, Option<String>))
    ensures
        read.0 == instant_of(*text),
        optional_text(read.1) == clock_of(*text),
{
    match text {
        Some(t) => match read_instant(t.as_str(), CLOCK_LAYOUT) {
            Ok((seconds, shown)) => (Some(seconds), shown),
            Err(_) => (None, None),
        },
        None => (None, None),
    }
}

impl EntryAttendee {
    /// Reads the attendee's answer.
    pub fn resolve(&self) -> (attendee: Attendee)
        ensures
            attendee == attendee_of(*self),
    {
        Attendee { is_self: self.is_self, response: Response::from_status(&self.response_status) }
    }
}

impl CalendarEntry {
    /// Reads the entry: its instants and their clock texts, whether it is
    /// cancelled, how its attendees answered, and the label of its first
    /// conferencing entry point. An instant that is missing or cannot be
    /// read is left out, which excludes the event from the choice.
    pub fn resolve(&self) -> (event: Event)
        ensures
            event@ == resolved(*self),
    {
        let (start, start_clock) = read_optional_instant(&self.start);
        let (end, end_clock) = read_optional_instant(&self.end);
        let time = match (start_clock, end_clock) {
            (Some(a), Some(b)) => {
                let mut span = a;
                span.append(SPAN_SEPARATOR);
                span.append(b.as_str());
                span
            },
            _ => String::new(),
        };
        let cancelled = match &self.status {
            Some(status) => crate::text::same_text(status.as_str(), CANCELLED),
            None => false,
        };
        let mut attendees: Vec<Attendee> = Vec::new();
        let mut i: usize = 0;
        while i < self.attendees.len()
            invariant
                i <= self.attendees@.len(),
                attendees@ == self.attendees@.take(i as int).map_values(
                    |a: EntryAttendee| attendee_of(a),
                ),
            decreases self.attendees@.len() - i,
        {
            attendees.push(self.attendees[i].resolve());
            i += 1;
        }
        proof {
            assert(self.attendees@.take(i as int) =~= self.attendees@);
        }
        let join_label = if self.entry_point_labels.len() > 0 {
            self.entry_point_labels[0].clone()
        } else {
            None
        };
        Event {
            title: match &self.summary {
                Some(t) => t.clone(),
                None => String::new(),
            },
            time,
            start,
            end,
            cancelled,
            attendees,
            join_label,
        }
    }
}

/// Reads every entry of the feed.
pub fn resolve_all(entries: &Vec<CalendarEntry>) -> (events: Vec<Event>)
    ensures
        event_views(events@) == resolved_all(entries@),
{
    let mut events: Vec<Event> = Vec::new();
    let mut i: usize = 0;
    while i < entries.len()
        invariant
            i <= entries@.len(),
            event_views(events@) == resolved_all(entries@.take(i as int)),
        decreases entries@.len() - i,
    {
        let ghost before = event_views(events@);
        events.push(entries[i].resolve());
        i += 1;
        assert(event_views(events@) =~= before.push(resolved(entries@[i - 1])));
        assert(resolved_all(entries@.take(i as int)) =~= before.push(resolved(entries@[i - 1])));
    }
    proof {
        assert(entries@.take(i as int) =~= entries@);
    }
    events
}

/// Whether `shown` is what the console shows for the choice among
/// `events` at `now`.
pub open spec fn shows_pick(shown: Option<CalendarEventView>, events: Seq<EventView>, now: int) -> bool {
    match shown {
        Some(view) => exists|i: int| is_pick(events, now, i) && view == surfaced(events[i]),
        None => none_eligible(events, now, events.len() as int),
    }
}

/// Chooses the event to show among events that are already read.
pub fn pick_among(events: &Vec<Event>, now: i64) -> (shown: Option<CalendarEvent>)
    ensures
        shows_pick(
            match shown {
                Some(e) => Some(e@),
                None => None,
            },
            event_views(events@),
            now as int,
        ),
{
    match rank(events, now) {
        Some(i) => {
            let shown = events[i].surface();
            assert(event_views(events@)[i as int] == events@[i as int]@);
            Some(shown)
        },
        None => None,
    }
}

/// One cycle of the calendar feed: reads the entries, chooses among them at
/// `now` and returns what the console shows, or `None` when no entry
/// qualifies. An entry that cannot be read never stops the others.
pub fn pick_event(entries: &Vec<CalendarEntry>, now: i64) -> (shown: Option<CalendarEvent>)
    ensures
        shows_pick(
            match shown {
                Some(e) => Some(e@),
                None => None,
            },
            resolved_all(entries@),
            now as int,
        ),
{
    let events = resolve_all(entries);
    pick_among(&events, now)
}

/// Seconds that the lookahead window reaches back from now.
pub const WINDOW_BACK: i64 = 7200;

/// Seconds that the lookahead window reaches ahead of now.
pub const WINDOW_AHEAD: i64 = 86400;

/// The window of the calendar query at `now`: from two hours back to one
/// day ahead.
pub fn lookahead_window(now: i64) -> (window: (i64, i64))
    requires
        i64::MIN + WINDOW_BACK <= now <= i64::MAX - WINDOW_AHEAD,
    ensures
        window.0 == now - WINDOW_BACK,
        window.1 == now + WINDOW_AHEAD,
{
    (now - WINDOW_BACK, now + WINDOW_AHEAD)
}

} // verus!
