//! Reports: generation from work records, templates, confirmation, export
//! and sync to Feishu.
pub mod annual;
pub mod confirm;
pub mod daily;
pub mod date;
pub mod records;
pub mod semi_annual;
pub mod export;
pub mod markdown;
pub mod monthly;
pub mod quarterly;
pub mod summary;
pub mod sync_feishu;
pub mod template;
pub mod weekly;

use vstd::prelude::*;
use crate::processor::record::WorkRecord;
use crate::processor::report::confirm::ReportStatus;
use crate::processor::report::date::Date;

verus! {

/// The kind of report.
#[derive(PartialEq, Eq, Structural, Clone, Copy, Debug)]
pub enum ReportType {
    Daily,
    Weekly,
    Monthly,
    Quarterly,
    SemiAnnual,
    Annual,
}

/// A report's type name, as `Debug` prints it.
pub open spec fn report_type_name(t: ReportType) -> Seq<char> {
    match t {
        ReportType::Daily => "Daily"@,
        ReportType::Weekly => "Weekly"@,
        ReportType::Monthly => "Monthly"@,
        ReportType::Quarterly => "Quarterly"@,
        ReportType::SemiAnnual => "SemiAnnual"@,
        ReportType::Annual => "Annual"@,
    }
}

pub fn report_type_str(t: ReportType) -> (r: &'static str)
    ensures
        r@ == report_type_name(t),
{
    match t {
        ReportType::Daily => "Daily",
        ReportType::Weekly => "Weekly",
        ReportType::Monthly => "Monthly",
        ReportType::Quarterly => "Quarterly",
        ReportType::SemiAnnual => "SemiAnnual",
        ReportType::Annual => "Annual",
    }
}

/// A report status's name, as `Debug` prints it.
pub open spec fn report_status_name(s: ReportStatus) -> Seq<char> {
    match s {
        ReportStatus::Draft => "Draft"@,
        ReportStatus::PendingConfirm => "PendingConfirm"@,
        ReportStatus::Confirmed => "Confirmed"@,
    }
}

pub fn report_status_str(s: ReportStatus) -> (r: &'static str)
    ensures
        r@ == report_status_name(s),
{
    match s {
        ReportStatus::Draft => "Draft",
        ReportStatus::PendingConfirm => "PendingConfirm",
        ReportStatus::Confirmed => "Confirmed",
    }
}

/// A generated report.
#[derive(Debug, Clone)]
pub struct Report {
    pub id: String,
    pub report_type: ReportType,
    pub title: String,
    /// The body, in Markdown.
    pub content: String,
    pub status: ReportStatus,
    /// When it was generated, in milliseconds since the Unix epoch.
    pub generated_at_ms: i64,
    pub period_start: Date,
    pub period_end: Date,
}

impl Report {
    /// A new draft report with a fresh id, generated now.
    pub fn new(report_type: ReportType, title: String, content: String, period_start: Date, period_end: Date) -> (r: Self)
        ensures
            r.id@.len() == 36,
            r.report_type == report_type,
            r.title@ == title@,
            r.content@ == content@,
            r.status == ReportStatus::Draft,
            r.period_start == period_start,
            r.period_end == period_end,
    {
        Report {
            id: crate::clock::new_uuid(),
            report_type,
            title,
            content,
            status: ReportStatus::Draft,
            generated_at_ms: crate::clock::now_millis(),
            period_start,
            period_end,
        }
    }
}

/// The entry point of report generation.
pub struct ReportGenerator;

impl ReportGenerator {
    pub fn new() -> (r: Self) {
        ReportGenerator
    }

    /// The daily report of `date` (see `daily::generate_daily`).
    pub fn generate_daily(date: Date, records: &[WorkRecord]) -> (r: Report)
        ensures
            daily::is_daily_report(r, date, records@),
    {
        daily::generate_daily(date, records)
    }

    /// The weekly report of the week starting on `week_start` (see
    /// `weekly::generate_week`).
    pub fn generate_week(week_start: Date, records: &[WorkRecord]) -> (r: Option<Report>)
        ensures
            r is Some <==> crate::processor::report::date::days_after(week_start.y(), week_start.m(), week_start.d(), 6) is Some,
            r matches Some(rep) ==> weekly::is_weekly_report(rep, week_start, records@),
    {
        weekly::generate_week(week_start, records)
    }

    /// The monthly report (see `monthly::generate_month`).
    pub fn generate_month(year: i32, month: u32, records: &[WorkRecord]) -> (r: Report)
        requires
            -262143 <= year <= 262142,
            1 <= month <= 12,
            month == 12 ==> year < 262142,
        ensures
            monthly::is_monthly_report(r, year, month, records@),
    {
        monthly::generate_month(year, month, records)
    }

    /// The quarterly report (see `quarterly::generate_quarter`).
    pub fn generate_quarter(year: i32, quarter: u32, records: &[WorkRecord]) -> (r: Report)
        requires
            -262143 <= year <= 262142,
            1 <= quarter <= 4,
            quarter == 4 ==> year < 262142,
        ensures
            quarterly::is_quarterly_report(r, year, quarter, records@),
    {
        quarterly::generate_quarter(year, quarter, records)
    }

    /// The semi-annual report (see `semi_annual::generate_semi_annual`).
    pub fn generate_semi_annual(year: i32, half: u32, records: &[WorkRecord]) -> (r: Report)
        requires
            -262143 <= year <= 262142,
        ensures
            semi_annual::is_semi_annual_report(r, year, half, records@),
    {
        semi_annual::generate_semi_annual(year, half, records)
    }

    /// The annual report (see `annual::generate_annual`).
    pub fn generate_annual(year: i32, records: &[WorkRecord]) -> (r: Report)
        requires
            -262143 <= year <= 262142,
        ensures
            annual::is_annual_report(r, year, records@),
    {
        annual::generate_annual(year, records)
    }
}

impl Default for ReportGenerator {
    fn default() -> (r: Self) {
        ReportGenerator
    }
}

} // verus!
