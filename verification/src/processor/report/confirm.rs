//! The report confirmation flow: Draft → PendingConfirm → Confirmed, with a
//! way back from PendingConfirm to Draft.
use vstd::prelude::*;

verus! {

/// Where a report stands.
#[derive(PartialEq, Eq, Structural, Clone, Copy, Debug)]
pub enum ReportStatus {
    /// Generated, not yet submitted (the state a report starts in).
    Draft,
    /// Submitted, awaiting confirmation.
    PendingConfirm,
    /// Confirmed by a user.
    Confirmed,
}

/// The status `submit` moves a report in status `s` to, if it may.
pub open spec fn after_submit(s: ReportStatus) -> Option<ReportStatus> {
    match s {
        ReportStatus::Confirmed => None,
        _ => Some(ReportStatus::PendingConfirm),
    }
}

/// The status `confirm` moves a report in status `s` to, if it may.
pub open spec fn after_confirm(s: ReportStatus) -> Option<ReportStatus> {
    match s {
        ReportStatus::PendingConfirm => Some(ReportStatus::Confirmed),
        _ => None,
    }
}

/// The status `revert_to_draft` moves a report in status `s` to, if it may.
pub open spec fn after_revert(s: ReportStatus) -> Option<ReportStatus> {
    match s {
        ReportStatus::PendingConfirm => Some(ReportStatus::Draft),
        _ => None,
    }
}

/// A report's confirmation state: the status, and who confirmed it when
/// (milliseconds since the Unix epoch).
#[derive(Debug)]
pub struct ConfirmFlow {
    status: ReportStatus,
    confirmed_at: Option<i64>,
    confirmed_by: Option<String>,
}

impl ConfirmFlow {
    /// A confirmation is recorded only on a confirmed report.
    #[verifier::type_invariant]
    spec fn recorded_only_when_confirmed(self) -> bool {
        (self.confirmed_at is Some || self.confirmed_by is Some) ==> self.status == ReportStatus::Confirmed
    }

    /// The status.
    pub closed spec fn state(self) -> ReportStatus {
        self.status
    }

    /// Whether a confirmation time is recorded.
    pub closed spec fn has_confirmed_at(self) -> bool {
        self.confirmed_at is Some
    }

    /// Who confirmed, if anyone.
    pub closed spec fn confirmer(self) -> Option<Seq<char>> {
        crate::processor::task::model::opt_view(self.confirmed_by)
    }

    /// A flow in Draft.
    pub fn new() -> (r: Self)
        ensures
            r.state() == ReportStatus::Draft,
            !r.has_confirmed_at(),
            r.confirmer() is None,
    {
        ConfirmFlow { status: ReportStatus::Draft, confirmed_at: None, confirmed_by: None }
    }

    /// A flow in `status`, with no confirmation recorded.
    pub fn with_status(status: ReportStatus) -> (r: Self)
        ensures
            r.state() == status,
            !r.has_confirmed_at(),
            r.confirmer() is None,
    {
        ConfirmFlow { status, confirmed_at: None, confirmed_by: None }
    }

    pub fn status(&self) -> (r: ReportStatus)
        ensures
            r == self.state(),
    {
        self.status
    }

    /// When the report was confirmed, in milliseconds since the Unix epoch.
    pub fn confirmed_at(&self) -> (r: Option<i64>)
        ensures
            r is Some == self.has_confirmed_at(),
            r is Some ==> self.state() == ReportStatus::Confirmed,
    {
        proof { use_type_invariant(self); }
        self.confirmed_at
    }

    /// Who confirmed the report.
    pub fn confirmed_by(&self) -> (r: Option<&str>)
        ensures
            crate::processor::task::discovery::opt_str_view(r) == self.confirmer(),
            r is Some ==> self.state() == ReportStatus::Confirmed,
    {
        proof { use_type_invariant(self); }
        match &self.confirmed_by {
            Some(s) => Some(s.as_str()),
            None => None,
        }
    }

    /// Submits the report: from Draft or PendingConfirm it becomes
    /// PendingConfirm; a confirmed report is refused and left as it is.
    pub fn submit(&mut self) -> (r: bool)
        ensures
            r == after_submit(old(self).state()) is Some,
            r ==> final(self).state() == after_submit(old(self).state())->0,
            final(self).has_confirmed_at() == old(self).has_confirmed_at(),
            final(self).confirmer() == old(self).confirmer(),
            !r ==> final(self).state() == old(self).state(),
            final(self).confirmer() is Some || final(self).has_confirmed_at() ==> final(self).state() == ReportStatus::Confirmed,
    {
        proof { use_type_invariant(&*self); }
        match self.status {
            ReportStatus::Draft | ReportStatus::PendingConfirm => {
                self.status = ReportStatus::PendingConfirm;
                true
            },
            ReportStatus::Confirmed => false,
        }
    }

    /// Confirms the report on behalf of `by`: only a PendingConfirm report
    /// can be confirmed; it then records who and when.
    pub fn confirm(&mut self, by: &str) -> (r: bool)
        ensures
            r == after_confirm(old(self).state()) is Some,
            r ==> final(self).state() == after_confirm(old(self).state())->0 && final(self).has_confirmed_at()
                && final(self).confirmer() == Some(by@),
            !r ==> final(self).state() == old(self).state() && final(self).has_confirmed_at()
                == old(self).has_confirmed_at() && final(self).confirmer() == old(self).confirmer(),
            final(self).confirmer() is Some || final(self).has_confirmed_at() ==> final(self).state() == ReportStatus::Confirmed,
    {
        proof { use_type_invariant(&*self); }
        match self.status {
            ReportStatus::PendingConfirm => {
                self.status = ReportStatus::Confirmed;
                self.confirmed_at = Some(crate::clock::now_millis());
                self.confirmed_by = Some(String::from_str(by));
                true
            },
            _ => false,
        }
    }

    /// Sends a PendingConfirm report back to Draft, clearing any
    /// confirmation; refused in any other state.
    pub fn revert_to_draft(&mut self) -> (r: bool)
        ensures
            r == after_revert(old(self).state()) is Some,
            r ==> final(self).state() == after_revert(old(self).state())->0 && !final(self).has_confirmed_at()
                && final(self).confirmer() is None,
            !r ==> final(self).state() == old(self).state() && final(self).has_confirmed_at()
                == old(self).has_confirmed_at() && final(self).confirmer() == old(self).confirmer(),
            final(self).confirmer() is Some || final(self).has_confirmed_at() ==> final(self).state() == ReportStatus::Confirmed,
    {
        proof { use_type_invariant(&*self); }
        match self.status {
            ReportStatus::PendingConfirm => {
                self.status = ReportStatus::Draft;
                self.confirmed_at = None;
                self.confirmed_by = None;
                true
            },
            _ => false,
        }
    }

    pub fn is_confirmed(&self) -> (r: bool)
        ensures
            r == (self.state() == ReportStatus::Confirmed),
    {
        self.status == ReportStatus::Confirmed
    }

    pub fn is_draft(&self) -> (r: bool)
        ensures
            r == (self.state() == ReportStatus::Draft),
    {
        self.status == ReportStatus::Draft
    }
}

impl Clone for ConfirmFlow {
    fn clone(&self) -> (r: Self)
        ensures
            r.state() == self.state(),
            r.has_confirmed_at() == self.has_confirmed_at(),
            r.confirmer() == self.confirmer(),
    {
        proof { use_type_invariant(self); }
        let confirmed_by = match &self.confirmed_by {
            Some(s) => Some(s.clone()),
            None => None,
        };
        ConfirmFlow { status: self.status, confirmed_at: self.confirmed_at, confirmed_by }
    }
}

impl Default for ConfirmFlow {
    fn default() -> (r: Self)
        ensures
            r.state() == ReportStatus::Draft,
            !r.has_confirmed_at(),
            r.confirmer() is None,
    {
        ConfirmFlow::new()
    }
}

/// Once confirmed, a report stays confirmed: `submit`, `confirm` and
/// `revert_to_draft` all refuse a confirmed report.
pub proof fn law_confirmed_is_final()
    ensures
        after_submit(ReportStatus::Confirmed) is None,
        after_confirm(ReportStatus::Confirmed) is None,
        after_revert(ReportStatus::Confirmed) is None,
{
}

/// The only way to Confirmed is from PendingConfirm, and every path from
/// Draft to Confirmed passes through a submit: no single step takes a draft
/// to Confirmed.
pub proof fn law_confirm_needs_submit(s: ReportStatus)
    ensures
        after_confirm(s) is Some <==> s == ReportStatus::PendingConfirm,
        after_confirm(ReportStatus::Draft) is None,
        after_submit(ReportStatus::Draft) == Some(ReportStatus::PendingConfirm),
{
}

/// Reverting a submitted draft and submitting it again gives back the
/// submitted state.
pub proof fn law_revert_then_submit(s: ReportStatus)
    requires
        after_revert(s) is Some,
    ensures
        after_submit(after_revert(s)->0) == Some(s),
{
}

} // verus!
