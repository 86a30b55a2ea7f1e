//! The rule classifier: which processing route an event takes.
use vstd::prelude::*;
use crate::processor::event::{mention_text, Confidence, Event, EventType};
use crate::text::contains;

verus! {

/// How an event is processed.
#[derive(PartialEq, Eq, Structural, Clone, Copy, Debug)]
pub enum ProcessingRoute {
    /// At once: the model extracts it immediately.
    Instant,
    /// Collected and processed in batches.
    Aggregate,
    /// Long-horizon pattern analysis.
    Pattern,
    /// Archived without processing.
    Archive,
}

/// The route of an event: archived when its source is of low confidence;
/// otherwise instant for task updates, approvals, manual notes, meetings,
/// calendar events, mail and messages that mention someone (`@`); pattern
/// analysis for OKR updates; aggregation for the rest.
pub open spec fn route_of(confidence: Confidence, t: EventType, mentions: bool) -> ProcessingRoute {
    if confidence == Confidence::Low {
        ProcessingRoute::Archive
    } else {
        match t {
            EventType::TaskUpdate | EventType::Approval | EventType::ManualNote => ProcessingRoute::Instant,
            EventType::Message => if mentions {
                ProcessingRoute::Instant
            } else {
                ProcessingRoute::Aggregate
            },
            EventType::DocumentChange | EventType::Browsing | EventType::AppActivity => ProcessingRoute::Aggregate,
            EventType::OkrUpdate => ProcessingRoute::Pattern,
            EventType::Meeting | EventType::CalendarEvent | EventType::Email => ProcessingRoute::Instant,
        }
    }
}

/// The rule classifier.
pub struct Classifier;

impl Classifier {
    /// The route of `event` (see `route_of`).
    pub fn classify(event: &Event) -> (r: ProcessingRoute)
        ensures
            r == route_of(event.source_confidence, event.event_type, contains(mention_text(event.content), seq!['@'])),
            event.source_confidence == Confidence::Low ==> r == ProcessingRoute::Archive,
            event.source_confidence != Confidence::Low && (event.event_type == EventType::Meeting
                || event.event_type == EventType::CalendarEvent || event.event_type == EventType::Email
                || event.event_type == EventType::TaskUpdate || event.event_type == EventType::Approval
                || event.event_type == EventType::ManualNote) ==> r == ProcessingRoute::Instant,
            event.source_confidence != Confidence::Low && event.event_type == EventType::OkrUpdate ==> r == ProcessingRoute::Pattern,
            event.source_confidence != Confidence::Low && (event.event_type == EventType::DocumentChange
                || event.event_type == EventType::Browsing || event.event_type == EventType::AppActivity) ==> r
                == ProcessingRoute::Aggregate,
            event.source_confidence != Confidence::Low && event.event_type == EventType::Message ==> (r
                == ProcessingRoute::Instant <==> contains(mention_text(event.content), seq!['@'])),
            event.source_confidence != Confidence::Low && event.event_type == EventType::Message ==> (r
                == ProcessingRoute::Instant || r == ProcessingRoute::Aggregate),
    {
        if event.source_confidence == Confidence::Low {
            return ProcessingRoute::Archive;
        }
        match event.event_type {
            EventType::TaskUpdate | EventType::Approval | EventType::ManualNote => ProcessingRoute::Instant,
            EventType::Message => {
                if Self::has_mention(event) {
                    ProcessingRoute::Instant
                } else {
                    ProcessingRoute::Aggregate
                }
            },
            EventType::DocumentChange | EventType::Browsing | EventType::AppActivity => ProcessingRoute::Aggregate,
            EventType::OkrUpdate => ProcessingRoute::Pattern,
            EventType::Meeting | EventType::CalendarEvent | EventType::Email => ProcessingRoute::Instant,
        }
    }

    /// Whether the event's text mentions someone (holds `@`).
    fn has_mention(event: &Event) -> (r: bool)
        ensures
            r == contains(mention_text(event.content), seq!['@']),
    {
        let t = event.mention_text();
        let v = crate::text::chars_of(t.as_str());
        let mut at: Vec<char> = Vec::new();
        at.push('@');
        assert(at@ =~= seq!['@']);
        crate::text::contains_chars(v.as_slice(), at.as_slice())
    }
}

/// The routing rules: a low-confidence source is archived whatever it is;
/// otherwise meetings, calendar events and mail are handled at once, exactly
/// as task updates, approvals and manual notes are, whether or not they
/// mention anyone; OKR updates go to pattern analysis; document changes,
/// browsing and app activity are aggregated; a message is handled at once
/// exactly when it mentions someone, else aggregated with the activity.
pub proof fn law_routes(c: Confidence, t: EventType, m: bool, m2: bool)
    ensures
        route_of(Confidence::Low, t, m) == ProcessingRoute::Archive,
        c != Confidence::Low ==> route_of(c, EventType::Meeting, m) == ProcessingRoute::Instant,
        c != Confidence::Low ==> route_of(c, EventType::CalendarEvent, m) == ProcessingRoute::Instant,
        c != Confidence::Low ==> route_of(c, EventType::Email, m) == ProcessingRoute::Instant,
        route_of(c, EventType::CalendarEvent, m) == route_of(c, EventType::Meeting, m2),
        route_of(c, EventType::Email, m) == route_of(c, EventType::TaskUpdate, m2),
        route_of(c, EventType::Approval, m) == route_of(c, EventType::ManualNote, m2),
        route_of(c, EventType::Meeting, m) == route_of(c, EventType::Approval, m2),
        c != Confidence::Low ==> route_of(c, EventType::OkrUpdate, m) == ProcessingRoute::Pattern,
        c != Confidence::Low ==> route_of(c, EventType::DocumentChange, m) == ProcessingRoute::Aggregate,
        route_of(c, EventType::Browsing, m) == route_of(c, EventType::DocumentChange, m2),
        route_of(c, EventType::AppActivity, m) == route_of(c, EventType::DocumentChange, m2),
        c != Confidence::Low ==> (route_of(c, EventType::Message, m) == ProcessingRoute::Instant <==> m),
        route_of(c, EventType::Message, true) == route_of(c, EventType::Meeting, m),
        route_of(c, EventType::Message, false) == route_of(c, EventType::Browsing, m),
        route_of(c, t, m) == ProcessingRoute::Archive <==> c == Confidence::Low,
{
}

} // verus!
