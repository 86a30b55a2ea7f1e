//! Syncing confirmed reports to Feishu documents.  Only mock mode is
//! implemented: it answers with the address the document would have.
use vstd::prelude::*;
use crate::processor::report::confirm::ReportStatus;
use crate::processor::report::Report;

verus! {

/// The outcome of a sync.
#[derive(Debug, Clone, PartialEq, Eq)]
pub struct SyncResult {
    pub success: bool,
    pub feishu_doc_url: Option<String>,
    pub error: Option<String>,
}

/// Why a sync failed.
#[derive(Debug, Clone, PartialEq, Eq)]
pub enum SyncError {
    /// Only confirmed reports may be synced.
    ReportNotConfirmed,
    /// The report has no content.
    EmptyContent,
    /// The Feishu API answered with an error.
    ApiError(String),
}

/// The message of a sync error.
pub open spec fn sync_error_message(e: SyncError) -> Seq<char> {
    match e {
        SyncError::ReportNotConfirmed => "report is not confirmed, cannot sync"@,
        SyncError::EmptyContent => "report content is empty"@,
        SyncError::ApiError(m) => "feishu api error: "@ + m@,
    }
}

impl SyncError {
    /// The error's message.
    pub fn to_string(&self) -> (r: String)
        ensures
            r@ == sync_error_message(*self),
    {
        match self {
            SyncError::ReportNotConfirmed => String::from_str("report is not confirmed, cannot sync"),
            SyncError::EmptyContent => String::from_str("report content is empty"),
            SyncError::ApiError(m) => {
                let mut s = String::from_str("feishu api error: ");
                crate::text::append_str(&mut s, m.as_str());
                s
            },
        }
    }
}

/// The document text sent to Feishu: the title as a heading, the period,
/// then the content.
pub open spec fn feishu_markdown(r: Report) -> Seq<char> {
    "# "@ + r.title@ + "\n\n"@ + "**Period**: "@ + r.period_start.text() + " ~ "@ + r.period_end.text() + "\n\n"@
        + r.content@
}

/// The report syncer.
pub struct FeishuReportSync {
    /// Whether calls are simulated rather than sent.
    pub mock_mode: bool,
}

impl FeishuReportSync {
    /// A syncer in mock mode.
    pub fn new() -> (r: Self)
        ensures
            r.mock_mode,
    {
        FeishuReportSync { mock_mode: true }
    }

    /// A syncer in the given mode.
    pub fn with_mock_mode(mock: bool) -> (r: Self)
        ensures
            r.mock_mode == mock,
    {
        FeishuReportSync { mock_mode: mock }
    }

    /// Whether `report` may be synced: only a confirmed one may.
    pub fn can_sync(&self, report: &Report) -> (r: bool)
        ensures
            r == (report.status == ReportStatus::Confirmed),
    {
        report.status == ReportStatus::Confirmed
    }

    /// The document text for `report` (see `feishu_markdown`).
    pub fn build_markdown(&self, report: &Report) -> (r: String)
        ensures
            r@ == feishu_markdown(*report),
    {
        let mut md = String::from_str("# ");
        crate::text::append_str(&mut md, report.title.as_str());
        crate::text::append_str(&mut md, "\n\n");
        crate::text::append_str(&mut md, "**Period**: ");
        crate::text::append_str(&mut md, report.period_start.to_text().as_str());
        crate::text::append_str(&mut md, " ~ ");
        crate::text::append_str(&mut md, report.period_end.to_text().as_str());
        crate::text::append_str(&mut md, "\n\n");
        crate::text::append_str(&mut md, report.content.as_str());
        md
    }

    /// Syncs `report`: refused unless it is confirmed; otherwise, in either
    /// mode (no live API is wired), a success with the mock document address
    /// `https://mock-feishu.cn/docs/<id>`.
    pub fn sync_to_feishu(&self, report: &Report) -> (r: Result<SyncResult, SyncError>)
        ensures
            r is Err == (report.status != ReportStatus::Confirmed),
            r matches Err(e) ==> e == SyncError::ReportNotConfirmed,
            r matches Ok(s) ==> s.success && s.error is None && s.feishu_doc_url is Some
                && s.feishu_doc_url->0@ == "https://mock-feishu.cn/docs/"@ + report.id@,
    {
        if !self.can_sync(report) {
            return Err(SyncError::ReportNotConfirmed);
        }
        self.mock_sync(report)
    }

    fn mock_sync(&self, report: &Report) -> (r: Result<SyncResult, SyncError>)
        ensures
            r matches Ok(s) && s.success && s.error is None && s.feishu_doc_url is Some
                && s.feishu_doc_url->0@ == "https://mock-feishu.cn/docs/"@ + report.id@,
    {
        let markdown = self.build_markdown(report);
        proof {
            reveal_strlit("# ");
            assert(markdown@.len() > 0) by {
                assert(markdown@[0] == '#');
            }
        }
        if markdown.unicode_len() == 0 {
            return Err(SyncError::EmptyContent);
        }
        let mut url = String::from_str("https://mock-feishu.cn/docs/");
        crate::text::append_str(&mut url, report.id.as_str());
        Ok(SyncResult { success: true, feishu_doc_url: Some(url), error: None })
    }
}

impl Default for FeishuReportSync {
    fn default() -> (r: Self)
        ensures
            r.mock_mode,
    {
        FeishuReportSync::new()
    }
}

} // verus!
