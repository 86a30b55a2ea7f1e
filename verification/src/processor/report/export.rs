//! Report export, as Markdown with a metadata header or as a PDF
//! placeholder text.
use vstd::prelude::*;
use crate::processor::report::{report_status_name, report_status_str, report_type_name, report_type_str, Report};
use crate::processor::report::date::utc_text;

verus! {

/// An export format.
#[derive(PartialEq, Eq, Structural, Clone, Copy, Debug)]
pub enum ExportFormat {
    Markdown,
    Pdf,
}

/// Why an export failed.
#[derive(PartialEq, Eq, Structural, Clone, Copy, Debug)]
pub enum ExportError {
    /// The report has no content.
    EmptyContent,
}

impl ExportError {
    /// The error's message.
    pub fn to_string(&self) -> (r: String)
        ensures
            r@ == "报告内容为空，无法导出"@,
    {
        String::from_str("报告内容为空，无法导出")
    }
}

/// The Markdown export: a metadata header between `---` lines, then the
/// content.
pub open spec fn markdown_export(r: Report) -> Seq<char> {
    "---\n"@ + "id: "@ + r.id@ + "\n"@ + "type: "@ + report_type_name(r.report_type) + "\n"@ + "title: \""@
        + r.title@ + "\"\n"@ + "period: "@ + r.period_start.text() + " ~ "@ + r.period_end.text() + "\n"@
        + "generated_at: "@ + utc_text(r.generated_at_ms as int, "%Y-%m-%dT%H:%M:%SZ"@) + "\n"@ + "status: "@
        + report_status_name(r.status) + "\n"@ + "---\n\n"@ + r.content@
}

/// The PDF placeholder text: a heading, the title, period and generation
/// time, then the content.
pub open spec fn pdf_text(r: Report) -> Seq<char> {
    "PDF PLACEHOLDER\n"@ + "================\n\n"@ + "Title: "@ + r.title@ + "\n"@ + "Period: "@
        + r.period_start.text() + " ~ "@ + r.period_end.text() + "\n"@ + "Generated: "@
        + utc_text(r.generated_at_ms as int, "%Y-%m-%d %H:%M:%S"@) + "\n"@ + "\n---\n\n"@ + r.content@
}

/// The report exporter.
pub struct ReportExporter;

impl ReportExporter {
    pub fn new() -> (r: Self) {
        ReportExporter
    }

    /// The report as Markdown with a metadata header; refused when the
    /// report has no content.
    pub fn export_markdown(&self, report: &Report) -> (r: Result<String, ExportError>)
        ensures
            r is Err == (report.content@.len() == 0),
            r matches Ok(s) ==> s@ == markdown_export(*report),
            r matches Err(e) ==> e == ExportError::EmptyContent,
    {
        if report.content.unicode_len() == 0 {
            return Err(ExportError::EmptyContent);
        }
        let mut md = String::from_str("---\n");
        crate::text::append_str(&mut md, "id: ");
        crate::text::append_str(&mut md, report.id.as_str());
        crate::text::append_str(&mut md, "\n");
        crate::text::append_str(&mut md, "type: ");
        crate::text::append_str(&mut md, report_type_str(report.report_type));
        crate::text::append_str(&mut md, "\n");
        crate::text::append_str(&mut md, "title: \"");
        crate::text::append_str(&mut md, report.title.as_str());
        crate::text::append_str(&mut md, "\"\n");
        crate::text::append_str(&mut md, "period: ");
        crate::text::append_str(&mut md, report.period_start.to_text().as_str());
        crate::text::append_str(&mut md, " ~ ");
        crate::text::append_str(&mut md, report.period_end.to_text().as_str());
        crate::text::append_str(&mut md, "\n");
        crate::text::append_str(&mut md, "generated_at: ");
        crate::text::append_str(&mut md, crate::processor::report::date::format_utc(report.generated_at_ms, "%Y-%m-%dT%H:%M:%SZ").as_str());
        crate::text::append_str(&mut md, "\n");
        crate::text::append_str(&mut md, "status: ");
        crate::text::append_str(&mut md, report_status_str(report.status));
        crate::text::append_str(&mut md, "\n");
        crate::text::append_str(&mut md, "---\n\n");
        crate::text::append_str(&mut md, report.content.as_str());
        Ok(md)
    }

    /// The PDF placeholder as UTF-8 bytes; refused when the report has no
    /// content.
    pub fn export_pdf(&self, report: &Report) -> (r: Result<Vec<u8>, ExportError>)
        ensures
            r is Err == (report.content@.len() == 0),
            r matches Ok(b) ==> b@ == vstd::utf8::encode_utf8(pdf_text(*report)),
            r matches Err(e) ==> e == ExportError::EmptyContent,
    {
        if report.content.unicode_len() == 0 {
            return Err(ExportError::EmptyContent);
        }
        let mut t = String::from_str("PDF PLACEHOLDER\n");
        crate::text::append_str(&mut t, "================\n\n");
        crate::text::append_str(&mut t, "Title: ");
        crate::text::append_str(&mut t, report.title.as_str());
        crate::text::append_str(&mut t, "\n");
        crate::text::append_str(&mut t, "Period: ");
        crate::text::append_str(&mut t, report.period_start.to_text().as_str());
        crate::text::append_str(&mut t, " ~ ");
        crate::text::append_str(&mut t, report.period_end.to_text().as_str());
        crate::text::append_str(&mut t, "\n");
        crate::text::append_str(&mut t, "Generated: ");
        crate::text::append_str(&mut t, crate::processor::report::date::format_utc(report.generated_at_ms, "%Y-%m-%d %H:%M:%S").as_str());
        crate::text::append_str(&mut t, "\n");
        crate::text::append_str(&mut t, "\n---\n\n");
        crate::text::append_str(&mut t, report.content.as_str());
        Ok(t.as_str().as_bytes_vec())
    }

    /// The report in `format`, as UTF-8 bytes.
    pub fn export(&self, format: ExportFormat, report: &Report) -> (r: Result<Vec<u8>, ExportError>)
        ensures
            r is Err == (report.content@.len() == 0),
            r matches Ok(b) ==> format == ExportFormat::Markdown ==> b@ == vstd::utf8::encode_utf8(markdown_export(*report)),
            r matches Ok(b) ==> format == ExportFormat::Pdf ==> b@ == vstd::utf8::encode_utf8(pdf_text(*report)),
            r matches Err(e) ==> e == ExportError::EmptyContent,
    {
        match format {
            ExportFormat::Markdown => match self.export_markdown(report) {
                Ok(md) => Ok(md.as_str().as_bytes_vec()),
                Err(e) => Err(e),
            },
            ExportFormat::Pdf => self.export_pdf(report),
        }
    }
}

impl Default for ReportExporter {
    fn default() -> (r: Self) {
        ReportExporter
    }
}

} // verus!
