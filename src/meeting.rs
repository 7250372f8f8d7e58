//! Picks the next meeting out of an ordered event list and words the report.
use vstd::prelude::*;

verus! {

/// The instant, in seconds since the Unix epoch, that chrono reads from an
/// RFC 3339 date-time text; `None` where it does not read one.
pub uninterp spec fn rfc3339_instant(text: Seq<char>) -> Option<i64>;

/// The text that humantime gives for a duration of this many whole seconds.
pub uninterp spec fn humantime_text(secs: nat) -> Seq<char>;

/// Relies on chrono::DateTime::parse_from_rfc3339 and DateTime::timestamp.
#[verifier::external_body]
fn parse_rfc3339(text: &str) -> (r: Option<i64>)
    ensures
        r == rfc3339_instant(text@),
{
    chrono::DateTime::parse_from_rfc3339(text).ok().map(|t| t.timestamp())
}

/// Relies on humantime::format_duration, shown with `Display`.
#[verifier::external_body]
fn format_seconds(secs: u64) -> (r: String)
    ensures
        r@ == humantime_text(secs as nat),
{
    format!("{}", humantime::format_duration(std::time::Duration::from_secs(secs)))
}

/// An event as the calendar lists it; `start` is in seconds since the Unix epoch.
pub struct Event {
    pub summary: Option<String>,
    pub start: Option<i64>,
    pub location: Option<String>,
    pub join_link: Option<String>,
}

/// The event chosen as the next meeting, with the time between it and now.
pub struct Meeting {
    pub summary: String,
    pub start: i64,
    pub location: Option<String>,
    pub join_link: Option<String>,
    pub already_started: bool,
    /// Seconds until the start, or since it when the meeting has started.
    pub duration_secs: u64,
}

/// Which parts of the report to print.
pub struct OutputConfig {
    /// Print only the time until (or since) the start.
    pub time_only: bool,
    /// Add the meeting's join link where it has one.
    pub join_link: bool,
}

pub open spec fn qualifies(e: Event) -> bool {
    e.summary is Some && e.start is Some
}

/// `i` is the first event that has both a summary and a start.
pub open spec fn is_first_qualifying(events: Seq<Event>, i: int) -> bool {
    &&& 0 <= i < events.len()
    &&& qualifies(events[i])
    &&& forall|j: int| 0 <= j < i ==> !qualifies(#[trigger] events[j])
}

pub open spec fn none_qualifies(events: Seq<Event>) -> bool {
    forall|j: int| 0 <= j < events.len() ==> !qualifies(#[trigger] events[j])
}

pub open spec fn abs_diff(start: int, now: int) -> nat {
    if start < now {
        (now - start) as nat
    } else {
        (start - now) as nat
    }
}

pub open spec fn opt_view(o: Option<String>) -> Option<Seq<char>> {
    match o {
        Some(s) => Some(s@),
        None => None,
    }
}

/// `m` is the meeting made of a qualifying event `e` at time `now`.
pub open spec fn meeting_of(m: Meeting, e: Event, now: i64) -> bool {
    &&& e.summary matches Some(s) && m.summary@ == s@
    &&& e.start == Some(m.start)
    &&& opt_view(m.location) == opt_view(e.location)
    &&& opt_view(m.join_link) == opt_view(e.join_link)
    &&& m.already_started == (m.start < now)
    &&& m.duration_secs as nat == abs_diff(m.start as int, now as int)
}

pub open spec fn no_meetings_text() -> Seq<char> {
    "Congrats! Keep working, you have no upcoming meetings"@
}

pub open spec fn details_header() -> Seq<char> {
    "Next Meeting Details:"@
}

pub open spec fn location_clause(location: Option<Seq<char>>) -> Seq<char> {
    match location {
        Some(l) => " in location "@ + l,
        None => Seq::empty(),
    }
}

/// "Starts in {d}" or "Already started {d} ago", then the location clause.
pub open spec fn timing_text(started: bool, d: Seq<char>, location: Option<Seq<char>>) -> Seq<
    char,
> {
    (if started {
        "Already started "@ + d + " ago"@
    } else {
        "Starts in "@ + d
    }) + location_clause(location)
}

pub open spec fn join_lines(link: Option<Seq<char>>, wanted: bool) -> Seq<Seq<char>> {
    match link {
        Some(l) => if wanted {
            seq!["Join link: "@ + l]
        } else {
            Seq::empty()
        },
        None => Seq::empty(),
    }
}

/// The report lines for a meeting, given the text of its duration.
pub open spec fn report(
    summary: Seq<char>,
    started: bool,
    d: Seq<char>,
    location: Option<Seq<char>>,
    link: Option<Seq<char>>,
    time_only: bool,
    with_link: bool,
) -> Seq<Seq<char>> {
    if time_only {
        seq![timing_text(started, d, None)] + join_lines(link, with_link)
    } else {
        seq![details_header(), summary, timing_text(started, d, location)] + join_lines(
            link,
            with_link,
        )
    }
}

pub open spec fn meeting_report(m: Meeting, d: Seq<char>, config: OutputConfig) -> Seq<Seq<char>> {
    report(
        m.summary@,
        m.already_started,
        d,
        opt_view(m.location),
        opt_view(m.join_link),
        config.time_only,
        config.join_link,
    )
}

/// The report for a qualifying event at time `now`.
pub open spec fn event_report(e: Event, now: i64, config: OutputConfig) -> Seq<Seq<char>> {
    let start = e.start.unwrap();
    report(
        e.summary.unwrap()@,
        start < now,
        humantime_text(abs_diff(start as int, now as int)),
        opt_view(e.location),
        opt_view(e.join_link),
        config.time_only,
        config.join_link,
    )
}

/// The two events are the same but for their locations.
pub open spec fn same_but_location(a: Event, b: Event) -> bool {
    &&& opt_view(a.summary) == opt_view(b.summary)
    &&& a.start == b.start
    &&& opt_view(a.join_link) == opt_view(b.join_link)
}

pub open spec fn lines_view(v: Vec<String>) -> Seq<Seq<char>> {
    v@.map_values(|s: String| s@)
}

/// The start instant of an event, from the date-time text the calendar
/// gave; an event without one (an all-day event) has no start instant.
pub fn start_instant(date_time: &Option<String>) -> (r: Option<i64>)
    ensures
        r == match date_time {
            Some(t) => rfc3339_instant(t@),
            None => None,
        },
{
    match date_time {
        Some(t) => parse_rfc3339(t.as_str()),
        None => None,
    }
}

/// The position of the first event with both a summary and a start, if any.
pub fn select_next(events: &Vec<Event>) -> (r: Option<usize>)
    ensures
        r matches Some(i) ==> is_first_qualifying(events@, i as int),
        r is None <==> none_qualifies(events@),
{
    let mut i: usize = 0;
    while i < events.len()
        invariant
            0 <= i <= events@.len(),
            forall|j: int| 0 <= j < i ==> !qualifies(#[trigger] events@[j]),
        decreases events@.len() - i,
    {
        let e = &events[i];
        if e.summary.is_some() && e.start.is_some() {
            return Some(i);
        }
        i = i + 1;
    }
    None
}

/// Whether the start is already past, and the whole seconds between it and now.
pub fn time_until(start: i64, now: i64) -> (r: (bool, u64))
    ensures
        r.0 == (start < now),
        r.1 as nat == abs_diff(start as int, now as int),
{
    let d: i128 = start as i128 - now as i128;
    if d < 0 {
        (true, (0i128 - d) as u64)
    } else {
        (false, d as u64)
    }
}

fn copy_text(o: &Option<String>) -> (r: Option<String>)
    ensures
        opt_view(r) == opt_view(*o),
{
    match o {
        Some(s) => Some(s.clone()),
        None => None,
    }
}

/// The meeting that a qualifying event makes at time `now`.
pub fn make_meeting(e: &Event, now: i64) -> (m: Meeting)
    requires
        qualifies(*e),
    ensures
        meeting_of(m, *e, now),
{
    let summary = match &e.summary {
        Some(s) => s.clone(),
        None => String::new(),
    };
    let start = match e.start {
        Some(t) => t,
        None => 0,
    };
    let (already_started, duration_secs) = time_until(start, now);
    Meeting {
        summary,
        start,
        location: copy_text(&e.location),
        join_link: copy_text(&e.join_link),
        already_started,
        duration_secs,
    }
}

/// The timing line: "Starts in {d}" or "Already started {d} ago", followed by
/// " in location {X}" where a location is given.
pub fn timing_line(started: bool, duration_text: &str, location: &Option<String>) -> (r: String)
    ensures
        r@ == timing_text(started, duration_text@, opt_view(*location)),
{
    let mut line = if started {
        let mut s = String::from_str("Already started ");
        s.append(duration_text);
        s.append(" ago");
        s
    } else {
        let mut s = String::from_str("Starts in ");
        s.append(duration_text);
        s
    };
    match location {
        Some(l) => {
            line.append(" in location ");
            line.append(l.as_str());
        },
        None => {},
    }
    line
}

/// The lines that report a meeting, given the text of its duration.
pub fn report_lines(m: &Meeting, duration_text: &str, config: &OutputConfig) -> (r: Vec<String>)
    ensures
        lines_view(r) == meeting_report(*m, duration_text@, *config),
{
    let mut lines: Vec<String> = Vec::new();
    if config.time_only {
        lines.push(timing_line(m.already_started, duration_text, &None));
    } else {
        lines.push(String::from_str("Next Meeting Details:"));
        lines.push(m.summary.clone());
        lines.push(timing_line(m.already_started, duration_text, &m.location));
    }
    if config.join_link {
        match &m.join_link {
            Some(l) => {
                let mut s = String::from_str("Join link: ");
                s.append(l.as_str());
                lines.push(s);
            },
            None => {},
        }
    }
    proof {
        assert(lines_view(lines) =~= meeting_report(*m, duration_text@, *config));
    }
    lines
}

/// The report for the next meeting among events listed in ascending order
/// of start, at time `now`.
pub fn summarize(events: &Vec<Event>, now: i64, config: &OutputConfig) -> (r: Vec<String>)
    ensures
        none_qualifies(events@) ==> lines_view(r) == seq![no_meetings_text()],
        !none_qualifies(events@) ==> exists|i: int|
            is_first_qualifying(events@, i) && lines_view(r) == event_report(
                events@[i],
                now,
                *config,
            ),
{
    match select_next(events) {
        None => {
            let mut lines: Vec<String> = Vec::new();
            lines.push(String::from_str("Congrats! Keep working, you have no upcoming meetings"));
            proof {
                assert(lines_view(lines) =~= seq![no_meetings_text()]);
            }
            lines
        },
        Some(i) => {
            let m = make_meeting(&events[i], now);
            let text = format_seconds(m.duration_secs);
            let lines = report_lines(&m, text.as_str(), config);
            proof {
                assert(is_first_qualifying(events@, i as int));
                assert(lines_view(lines) == event_report(events@[i as int], now, *config));
            }
            lines
        },
    }
}

/// Two event lists that are the same but that the second gives no
/// locations select the same meeting, and their reports differ only in the
/// " in location {X}" clause that ends the timing line of the first.
pub proof fn lemma_location_only_adds_clause(
    with_place: Seq<Event>,
    without_place: Seq<Event>,
    now: i64,
    config: OutputConfig,
)
    requires
        with_place.len() == without_place.len(),
        forall|k: int|
            0 <= k < with_place.len() ==> same_but_location(
                #[trigger] with_place[k],
                without_place[k],
            ) && without_place[k].location is None,
    ensures
        none_qualifies(with_place) == none_qualifies(without_place),
        forall|i: int| #[trigger]
            is_first_qualifying(with_place, i) ==> is_first_qualifying(without_place, i) && ({
                let a = event_report(with_place[i], now, config);
                let b = event_report(without_place[i], now, config);
                &&& a.len() == b.len()
                &&& forall|k: int|
                    0 <= k < a.len() ==> a[k] == b[k] || a[k] == b[k] + location_clause(
                        opt_view(with_place[i].location),
                    )
            }),
{
    assert forall|k: int| 0 <= k < with_place.len() implies qualifies(with_place[k]) == qualifies(
        without_place[k],
    ) by {
        assert(same_but_location(with_place[k], without_place[k]));
    }
    assert forall|i: int| #[trigger]
        is_first_qualifying(with_place, i) implies is_first_qualifying(without_place, i) && ({
            let a = event_report(with_place[i], now, config);
            let b = event_report(without_place[i], now, config);
            &&& a.len() == b.len()
            &&& forall|k: int|
                0 <= k < a.len() ==> a[k] == b[k] || a[k] == b[k] + location_clause(
                    opt_view(with_place[i].location),
                )
        }) by {
        let e1 = with_place[i];
        let e2 = without_place[i];
        assert(same_but_location(e1, e2));
        assert forall|j: int| 0 <= j < i implies !qualifies(#[trigger] without_place[j]) by {
            assert(!qualifies(with_place[j]));
        }
        let a = event_report(e1, now, config);
        let b = event_report(e2, now, config);
        assert(e1.summary.unwrap()@ == e2.summary.unwrap()@);
        assert(location_clause(None) =~= Seq::<char>::empty());
        let s = e2.start.unwrap();
        let d = humantime_text(abs_diff(s as int, now as int));
        assert(timing_text(s < now, d, None) + Seq::<char>::empty() =~= timing_text(s < now, d, None));
        assert(forall|k: int|
            0 <= k < a.len() ==> a[k] == b[k] || a[k] == b[k] + location_clause(opt_view(e1.location)));
    }
}

} // verus!
