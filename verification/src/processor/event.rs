//! Observed events, as the processing layer reads them: where they came from,
//! how far their source is trusted, what kind they are, and their content.
use vstd::prelude::*;

verus! {

/// How far an event's source is trusted.
#[derive(PartialEq, Eq, Structural, Clone, Copy, Debug)]
pub enum Confidence {
    High,
    Medium,
    Low,
}

/// The kind of an observed event.
#[derive(PartialEq, Eq, Structural, Clone, Copy, Debug)]
pub enum EventType {
    Message,
    Email,
    Meeting,
    CalendarEvent,
    DocumentChange,
    TaskUpdate,
    Approval,
    OkrUpdate,
    Browsing,
    AppActivity,
    ManualNote,
}

/// An event's JSON content, as far as the processing layer reads it.
#[derive(Debug, Clone)]
pub enum EventContent {
    /// A JSON string.
    Text(String),
    /// A JSON object: its `text`, `title` and `subject` members when they are
    /// strings, and the object's JSON text.
    Object { text: Option<String>, title: Option<String>, subject: Option<String>, json: String },
    /// Any other JSON value, by its JSON text.
    Other(String),
}

/// An observed event.
#[derive(Debug, Clone)]
pub struct Event {
    pub id: String,
    pub source_confidence: Confidence,
    pub event_type: EventType,
    pub content: EventContent,
}

/// The text of an event's content that mentions may be looked for in: a
/// string itself, an object's `text` member (empty when absent), or any other
/// value's JSON text.
pub open spec fn mention_text(c: EventContent) -> Seq<char> {
    match c {
        EventContent::Text(s) => s@,
        EventContent::Object { text, .. } => match text {
            Some(t) => t@,
            None => Seq::empty(),
        },
        EventContent::Other(j) => j@,
    }
}

/// The first of an object's `text`, `title` and `subject` members that is a
/// string.
pub open spec fn first_text_member(text: Option<String>, title: Option<String>, subject: Option<String>) -> Option<Seq<char>> {
    match text {
        Some(t) => Some(t@),
        None => match title {
            Some(t) => Some(t@),
            None => match subject {
                Some(t) => Some(t@),
                None => None,
            },
        },
    }
}

/// The readable text of an event's content: a string itself; an object's
/// first string member among `text`, `title`, `subject` (empty when none);
/// any other value's JSON text.
pub open spec fn content_text(c: EventContent) -> Seq<char> {
    match c {
        EventContent::Text(s) => s@,
        EventContent::Object { text, title, subject, .. } => match first_text_member(text, title, subject) {
            Some(t) => t,
            None => Seq::empty(),
        },
        EventContent::Other(j) => j@,
    }
}

/// The title of an event: a string itself; an object's first string member
/// among `text`, `title`, `subject`, else `Untitled`; any other value gives
/// `Untitled`.
pub open spec fn content_title(c: EventContent) -> Seq<char> {
    match c {
        EventContent::Text(s) => s@,
        EventContent::Object { text, title, subject, .. } => match first_text_member(text, title, subject) {
            Some(t) => t,
            None => "Untitled"@,
        },
        EventContent::Other(_) => "Untitled"@,
    }
}

fn first_member(text: &Option<String>, title: &Option<String>, subject: &Option<String>) -> (r: Option<String>)
    ensures
        crate::processor::task::model::opt_view(r) == first_text_member(*text, *title, *subject),
{
    match text {
        Some(t) => Some(t.clone()),
        None => match title {
            Some(t) => Some(t.clone()),
            None => match subject {
                Some(t) => Some(t.clone()),
                None => None,
            },
        },
    }
}

impl Event {
    /// The text mentions are looked for in (see `mention_text`).
    pub fn mention_text(&self) -> (r: String)
        ensures
            r@ == mention_text(self.content),
    {
        match &self.content {
            EventContent::Text(s) => s.clone(),
            EventContent::Object { text, .. } => match text {
                Some(t) => t.clone(),
                None => String::new(),
            },
            EventContent::Other(j) => j.clone(),
        }
    }

    /// The readable text of the content (see `content_text`).
    pub fn text(&self) -> (r: String)
        ensures
            r@ == content_text(self.content),
    {
        match &self.content {
            EventContent::Text(s) => s.clone(),
            EventContent::Object { text, title, subject, .. } => match first_member(text, title, subject) {
                Some(t) => t,
                None => String::new(),
            },
            EventContent::Other(j) => j.clone(),
        }
    }

    /// The event's title (see `content_title`).
    pub fn title(&self) -> (r: String)
        ensures
            r@ == content_title(self.content),
    {
        match &self.content {
            EventContent::Text(s) => s.clone(),
            EventContent::Object { text, title, subject, .. } => match first_member(text, title, subject) {
                Some(t) => t,
                None => String::from_str("Untitled"),
            },
            EventContent::Other(_) => String::from_str("Untitled"),
        }
    }

    /// The content's JSON text.
    pub fn json_text(&self) -> (r: String)
        ensures
            r@ == match self.content {
                EventContent::Text(s) => s@,
                EventContent::Object { json, .. } => json@,
                EventContent::Other(j) => j@,
            },
    {
        match &self.content {
            EventContent::Text(s) => s.clone(),
            EventContent::Object { json, .. } => json.clone(),
            EventContent::Other(j) => j.clone(),
        }
    }
}

} // verus!
