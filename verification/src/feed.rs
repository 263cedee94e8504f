//! Calendar-feed records: pick an event's start and end, and keep exactly
//! the events whose span overlaps a time window.

use vstd::prelude::*;

verus! {

/// One property of a calendar event: a name and an optional value.
pub struct Property {
    pub name: String,
    pub value: Option<String>,
}

/// One calendar event: its properties, in feed order.
pub struct Event {
    pub properties: Vec<Property>,
}

/// The value of the last property called `name` that carries one; an earlier
/// value stands until a later property of the same name replaces it.
pub open spec fn last_value_of(props: Seq<Property>, name: Seq<char>) -> Option<Seq<char>>
    decreases props.len(),
{
    if props.len() == 0 {
        None
    } else {
        match props.last().value {
            Some(v) => if props.last().name@ == name {
                Some(v@)
            } else {
                last_value_of(props.drop_last(), name)
            },
            None => last_value_of(props.drop_last(), name),
        }
    }
}

/// The view of an optional string.
pub open spec fn opt_view(o: Option<String>) -> Option<Seq<char>> {
    match o {
        Some(s) => Some(s@),
        None => None,
    }
}

/// The timestamp, in seconds, that the iCalendar local-time layout
/// (`%Y%m%dT%H%M%S`) gives for a text, named but not written out; nothing
/// when the text does not fit the layout.
pub uninterp spec fn ical_datetime_of(s: Seq<char>) -> Option<i64>;

/// Relies on `chrono::NaiveDateTime::parse_from_str` with the iCalendar
/// local-time layout, and on `and_utc().timestamp()`: a function of the text
/// alone.
#[verifier::external_body]
pub fn parse_ical_datetime(s: &str) -> (r: Option<i64>)
    ensures
        r == ical_datetime_of(s@),
{
    chrono::NaiveDateTime::parse_from_str(s, "%Y%m%dT%H%M%S").ok().map(
        |dt| dt.and_utc().timestamp(),
    )
}

/// Pull an event's start and end texts: the last `DTSTART` and the last
/// `DTEND` value, and only when the event carries both.
pub fn process(event: &Event) -> (r: Option<(String, String)>)
    ensures
        match r {
            Some(se) => last_value_of(event.properties@, "DTSTART"@) == Some(se.0@)
                && last_value_of(event.properties@, "DTEND"@) == Some(se.1@),
            None => last_value_of(event.properties@, "DTSTART"@) is None || last_value_of(
                event.properties@,
                "DTEND"@,
            ) is None,
        },
{
    let dtstart: String = "DTSTART".to_owned();
    let dtend: String = "DTEND".to_owned();
    let mut startstr: Option<String> = None;
    let mut endstr: Option<String> = None;
    let mut i: usize = 0;
    while i < event.properties.len()
        invariant
            i <= event.properties@.len(),
            dtstart@ == "DTSTART"@,
            dtend@ == "DTEND"@,
            opt_view(startstr) == last_value_of(event.properties@.take(i as int), "DTSTART"@),
            opt_view(endstr) == last_value_of(event.properties@.take(i as int), "DTEND"@),
        decreases event.properties@.len() - i,
    {
        let p = &event.properties[i];
        proof {
            reveal_strlit("DTSTART");
            reveal_strlit("DTEND");
            assert("DTSTART"@.len() == 7);
            assert("DTEND"@.len() == 5);
            assert("DTSTART"@ != "DTEND"@);
            assert(event.properties@.take(i + 1).drop_last() =~= event.properties@.take(i as int));
            assert(event.properties@.take(i + 1).last() == event.properties@[i as int]);
        }
        match &p.value {
            Some(v) => {
                if p.name == dtstart {
                    startstr = Some(v.clone());
                } else if p.name == dtend {
                    endstr = Some(v.clone());
                }
            },
            None => {},
        }
        i += 1;
    }
    proof {
        assert(event.properties@.take(i as int) =~= event.properties@);
    }
    match (startstr, endstr) {
        (Some(s), Some(e)) => Some((s, e)),
        _ => None,
    }
}

/// The record a kept event stores: each property's name beside its value, an
/// absent value standing as the empty string, in property order.
pub fn event_record(event: &Event) -> (r: Vec<(String, String)>)
    ensures
        r@.len() == event.properties@.len(),
        forall|i: int|
            0 <= i < r@.len() ==> r@[i].0@ == event.properties@[i].name@ && r@[i].1@ == (match event
                .properties@[i].value {
                Some(v) => v@,
                None => Seq::<char>::empty(),
            }),
{
    let mut out: Vec<(String, String)> = Vec::new();
    let mut i: usize = 0;
    while i < event.properties.len()
        invariant
            i <= event.properties@.len(),
            out@.len() == i,
            forall|j: int|
                0 <= j < i ==> out@[j].0@ == event.properties@[j].name@ && out@[j].1@ == (
                match event.properties@[j].value {
                    Some(v) => v@,
                    None => Seq::<char>::empty(),
                }),
        decreases event.properties@.len() - i,
    {
        let p = &event.properties[i];
        let value = match &p.value {
            Some(v) => v.clone(),
            None => String::new(),
        };
        out.push((p.name.clone(), value));
        i += 1;
    }
    out
}

/// Whether a span from `start` to `end` overlaps the window that runs from
/// `now` to `until`: it must end after `now` and start before `until`.
pub fn in_window(start: i64, end: i64, now: i64, until: i64) -> (r: bool)
    ensures
        r == (now < end && until > start),
{
    now < end && until > start
}

/// Whether an event is kept for the window from `now` to `until`: both its
/// start and end texts are present and parse, and the span overlaps the
/// window.
pub open spec fn event_kept(e: Event, now: i64, until: i64) -> bool {
    match (last_value_of(e.properties@, "DTSTART"@), last_value_of(e.properties@, "DTEND"@)) {
        (Some(s), Some(en)) => match (ical_datetime_of(s), ical_datetime_of(en)) {
            (Some(st), Some(et)) => now < et && until > st,
            _ => false,
        },
        _ => false,
    }
}

/// The subsequence of events kept for the window, in feed order.
pub open spec fn kept_events(events: Seq<Event>, now: i64, until: i64) -> Seq<Event>
    decreases events.len(),
{
    if events.len() == 0 {
        Seq::empty()
    } else {
        let rest = kept_events(events.drop_first(), now, until);
        if event_kept(events.first(), now, until) {
            seq![events.first()] + rest
        } else {
            rest
        }
    }
}

/// Keep exactly the events whose span overlaps the window from `now` to
/// `until`, in their feed order.
pub fn select_events(events: Vec<Event>, now: i64, until: i64) -> (r: Vec<Event>)
    ensures
        r@ == kept_events(events@, now, until),
{
    let mut rest = events;
    let mut out: Vec<Event> = Vec::new();
    proof {
        assert(Seq::<Event>::empty() + kept_events(events@, now, until) =~= kept_events(
            events@,
            now,
            until,
        ));
    }
    while rest.len() > 0
        invariant
            kept_events(events@, now, until) == out@ + kept_events(rest@, now, until),
        decreases rest@.len(),
    {
        let ghost prev = rest@;
        let e = rest.remove(0);
        proof {
            assert(prev[0] == e);
            assert(prev.drop_first() =~= rest@);
        }
        let keep = match process(&e) {
            Some((s, en)) => {
                match (parse_ical_datetime(s.as_str()), parse_ical_datetime(en.as_str())) {
                    (Some(st), Some(et)) => in_window(st, et, now, until),
                    _ => false,
                }
            },
            None => false,
        };
        proof {
            assert(keep == event_kept(e, now, until));
            if event_kept(e, now, until) {
                assert(kept_events(prev, now, until) =~= seq![e] + kept_events(
                    rest@,
                    now,
                    until,
                ));
            } else {
                assert(kept_events(prev, now, until) =~= kept_events(rest@, now, until));
            }
        }
        if keep {
            let ghost out_before = out@;
            out.push(e);
            proof {
                assert(out@ + kept_events(rest@, now, until) =~= out_before + (seq![e]
                    + kept_events(rest@, now, until)));
            }
        }
    }
    proof {
        assert(kept_events(rest@, now, until) == Seq::<Event>::empty());
        assert(out@ + kept_events(rest@, now, until) =~= out@);
    }
    out
}

} // verus!
