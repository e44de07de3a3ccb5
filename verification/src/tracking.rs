//! Shipment-tracking updates.
//!
//! A polled tracking service answers with the full event history of a
//! parcel.  The stored last-seen state is diffed against the fresh
//! answer by event id; only genuinely new events are reported, as one
//! message listing them line by line.  The polling, the stored state
//! and the message sending live with the driver.

use vstd::prelude::*;
use crate::text::contains_string;

verus! {

/// One event in a parcel's history.
pub struct TrackingEvent {
    /// The service's id for the event; the diff key.
    pub id: String,
    /// When the event happened, as the service renders it.
    pub date_time: String,
    /// Which service handled the parcel.
    pub service_name: String,
    /// What happened.
    pub attribute: String,
    /// Where it happened; may be empty.
    pub place_name: String,
}

/// Mathematical model of a tracking event.
pub ghost struct TrackingEventModel {
    pub id: Seq<char>,
    pub date_time: Seq<char>,
    pub service_name: Seq<char>,
    pub attribute: Seq<char>,
    pub place_name: Seq<char>,
}

impl View for TrackingEvent {
    type V = TrackingEventModel;

    open spec fn view(&self) -> TrackingEventModel {
        TrackingEventModel {
            id: self.id@,
            date_time: self.date_time@,
            service_name: self.service_name@,
            attribute: self.attribute@,
            place_name: self.place_name@,
        }
    }
}

impl TrackingEvent {
    /// An owned copy of the event, equal to the original.
    pub fn duplicate(&self) -> (r: Self)
        ensures
            r@ == self@,
    {
        TrackingEvent {
            id: self.id.clone(),
            date_time: self.date_time.clone(),
            service_name: self.service_name.clone(),
            attribute: self.attribute.clone(),
            place_name: self.place_name.clone(),
        }
    }
}

/// The models of a list of events.
pub open spec fn event_models(v: Seq<TrackingEvent>) -> Seq<TrackingEventModel> {
    v.map_values(|e: TrackingEvent| e@)
}

/// The events of `current` whose id occurs nowhere in `last_ids`, in
/// order.
pub open spec fn new_events_spec(
    last_ids: Seq<Seq<char>>,
    current: Seq<TrackingEventModel>,
) -> Seq<TrackingEventModel>
    decreases current.len(),
{
    if current.len() == 0 {
        Seq::<TrackingEventModel>::empty()
    } else if last_ids.contains(current.last().id) {
        new_events_spec(last_ids, current.drop_last())
    } else {
        new_events_spec(last_ids, current.drop_last()).push(current.last())
    }
}

/// Diffs the fresh history against the last-seen event ids: everything
/// whose id was not seen before, in the order the service reports it.
pub fn new_events(last_ids: &Vec<String>, current: &Vec<TrackingEvent>) -> (r: Vec<TrackingEvent>)
    ensures
        event_models(r@) == new_events_spec(last_ids.deep_view(), event_models(current@)),
{
    let mut out: Vec<TrackingEvent> = Vec::new();
    let n = current.len();
    let mut i: usize = 0;
    while i < n
        invariant
            i <= n,
            n == current@.len(),
            event_models(out@) == new_events_spec(
                last_ids.deep_view(),
                event_models(current@.take(i as int)),
            ),
        decreases n - i,
    {
        let ghost prefix = event_models(current@.take(i as int));
        let ghost extended = event_models(current@.take(i + 1));
        proof {
            assert(extended.drop_last() =~= prefix);
            assert(extended.last() == current@[i as int]@);
        }
        let event = &current[i];
        if !contains_string(last_ids, &event.id) {
            out.push(event.duplicate());
            proof {
                assert(event_models(out@) =~= new_events_spec(last_ids.deep_view(), extended));
            }
        }
        i = i + 1;
    }
    proof {
        assert(current@.take(n as int) =~= current@);
    }
    out
}

/// The ids of a list of events, in order.
pub fn event_ids(events: &Vec<TrackingEvent>) -> (r: Vec<String>)
    ensures
        r.deep_view().len() == events@.len(),
        forall|i: int| 0 <= i < events@.len() ==> r.deep_view()[i] == events@[i]@.id,
{
    let mut out: Vec<String> = Vec::new();
    let n = events.len();
    let mut i: usize = 0;
    while i < n
        invariant
            i <= n,
            n == events@.len(),
            out.deep_view().len() == i,
            forall|t: int| 0 <= t < i ==> out.deep_view()[t] == events@[t]@.id,
        decreases n - i,
    {
        let ghost out_before = out.deep_view();
        out.push(events[i].id.clone());
        proof {
            assert forall|t: int| 0 <= t < i + 1 implies out.deep_view()[t] == events@[t]@.id by {
                if t < i {
                    assert(out.deep_view()[t] == out_before[t]);
                }
            }
        }
        i = i + 1;
    }
    out
}

/// One report line for an event: bullet, timestamp, service, what
/// happened, and — when the service names one — the place.
pub open spec fn event_line_spec(e: TrackingEventModel) -> Seq<char> {
    let base = "• "@ + e.date_time + " "@ + e.service_name + " - "@ + e.attribute;
    if e.place_name.len() == 0 {
        base
    } else {
        base + " ("@ + e.place_name + ")"@
    }
}

/// Renders one report line.
pub fn event_line(e: &TrackingEvent) -> (r: String)
    ensures
        r@ == event_line_spec(e@),
{
    let mut out = "• ".to_owned();
    out.append(e.date_time.as_str());
    out.append(" ");
    out.append(e.service_name.as_str());
    out.append(" - ");
    out.append(e.attribute.as_str());
    if !e.place_name.as_str().is_empty() {
        out.append(" (");
        out.append(e.place_name.as_str());
        out.append(")");
    }
    out
}

/// The report body: one line per event, joined by the transport's
/// soft line break.
pub open spec fn event_report_spec(s: Seq<TrackingEventModel>) -> Seq<char>
    decreases s.len(),
{
    if s.len() == 0 {
        Seq::<char>::empty()
    } else if s.len() == 1 {
        event_line_spec(s[0])
    } else {
        event_report_spec(s.drop_last()) + "  \n"@ + event_line_spec(s.last())
    }
}

/// Renders the report body for a list of events.
pub fn event_report(events: &Vec<TrackingEvent>) -> (r: String)
    ensures
        r@ == event_report_spec(event_models(events@)),
{
    let mut out = String::new();
    let n = events.len();
    let mut i: usize = 0;
    while i < n
        invariant
            i <= n,
            n == events@.len(),
            out@ == event_report_spec(event_models(events@.take(i as int))),
        decreases n - i,
    {
        let ghost prefix = event_models(events@.take(i as int));
        let ghost extended = event_models(events@.take(i + 1));
        proof {
            assert(extended.drop_last() =~= prefix);
            assert(extended.last() == events@[i as int]@);
        }
        if i > 0 {
            out.append("  \n");
        }
        let line = event_line(&events[i]);
        out.append(line.as_str());
        i = i + 1;
    }
    proof {
        assert(events@.take(n as int) =~= events@);
    }
    out
}

/// The full update message for a parcel: a bold header naming the
/// tracking number, then the report body.
pub open spec fn update_message_spec(
    track_number: Seq<char>,
    events: Seq<TrackingEventModel>,
) -> Seq<char> {
    "**🔄 Новые обновления для трек номера "@ + track_number + ":**  \n"@ + event_report_spec(
        events,
    )
}

/// The decision at the heart of one poll: diff the fresh history
/// against the last-seen ids, stay silent when nothing is new, and
/// otherwise render the one update message to send.
pub fn tracking_update(
    last_ids: &Vec<String>,
    current: &Vec<TrackingEvent>,
    track_number: &str,
) -> (r: Option<String>)
    ensures
        new_events_spec(last_ids.deep_view(), event_models(current@)).len() == 0 <==> r is None,
        r matches Some(m) ==> m@ == update_message_spec(
            track_number@,
            new_events_spec(last_ids.deep_view(), event_models(current@)),
        ),
{
    let fresh = new_events(last_ids, current);
    if fresh.len() == 0 {
        proof {
            assert(event_models(fresh@) =~= Seq::<TrackingEventModel>::empty());
        }
        None
    } else {
        let mut out = "**🔄 Новые обновления для трек номера ".to_owned();
        out.append(track_number);
        out.append(":**  \n");
        let body = event_report(&fresh);
        out.append(body.as_str());
        Some(out)
    }
}

} // verus!
