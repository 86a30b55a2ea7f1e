//! Errors of the processing layer.
use vstd::prelude::*;

verus! {

/// An error of the processing layer, carrying its message.
#[derive(Debug)]
pub enum WbError {
    /// A rule of the processing logic refused the request.
    Ai(String),
    /// The requested item does not exist.
    NotFound(String),
}

impl WbError {
    /// The message the error carries.
    pub open spec fn message(self) -> Seq<char> {
        match self {
            WbError::Ai(m) => m@,
            WbError::NotFound(m) => m@,
        }
    }

    /// The error's message.
    pub fn to_string(&self) -> (r: String)
        ensures
            r@ == self.message(),
    {
        match self {
            WbError::Ai(m) => m.clone(),
            WbError::NotFound(m) => m.clone(),
        }
    }

    /// A `NotFound` error whose message is `prefix` followed by `id`.
    pub fn not_found(prefix: &str, id: &str) -> (e: WbError)
        ensures
            e is NotFound && e.message() == prefix@ + id@,
    {
        let mut m = String::from_str(prefix);
        crate::text::append_str(&mut m, id);
        WbError::NotFound(m)
    }

    /// An `Ai` error carrying `m`.
    pub fn ai(m: String) -> (e: WbError)
        ensures
            e is Ai && e.message() == m@,
    {
        WbError::Ai(m)
    }
}

} // verus!
