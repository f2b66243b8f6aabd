//! Report jobs: report kinds, their stored names and the files a job produces.
use vstd::prelude::*;
use crate::ids::{uuid_hyphenated, uuid_to_string};
use crate::text::str_eq;

verus! {

/// Kind of report.
#[derive(Debug, Clone, Copy, PartialEq, Eq)]
pub enum ReportType {
    /// SOP execution record (RP-001).
    SopExecutionRecord,
    /// Non-conformance record (RP-003).
    NonConformanceRecord,
    /// Improvement record (RP-004).
    ImprovementRecord,
    /// Inspection record (RP-005).
    InspectionRecord,
    /// Aggregation report (RP-006).
    AggregationReport,
    /// KPI dashboard (RP-007).
    KpiDashboard,
    /// Audit trail (RP-008).
    AuditTrail,
    /// Cost analysis (RP-009).
    CostAnalysis,
    /// Traceability record (RP-010).
    TraceabilityRecord,
}

/// The stored name of a report kind.
pub open spec fn spec_report_type_name(t: ReportType) -> Seq<char> {
    match t {
        ReportType::SopExecutionRecord => "sop_execution_record"@,
        ReportType::NonConformanceRecord => "non_conformance_record"@,
        ReportType::ImprovementRecord => "improvement_record"@,
        ReportType::InspectionRecord => "inspection_record"@,
        ReportType::AggregationReport => "aggregation_report"@,
        ReportType::KpiDashboard => "kpi_dashboard"@,
        ReportType::AuditTrail => "audit_trail"@,
        ReportType::CostAnalysis => "cost_analysis"@,
        ReportType::TraceabilityRecord => "traceability_record"@,
    }
}

/// The report kind a stored name denotes; an unknown name reads as a traceability record.
pub open spec fn spec_parse_report_type(s: Seq<char>) -> ReportType {
    if s == "sop_execution_record"@ {
        ReportType::SopExecutionRecord
    } else if s == "non_conformance_record"@ {
        ReportType::NonConformanceRecord
    } else if s == "improvement_record"@ {
        ReportType::ImprovementRecord
    } else if s == "inspection_record"@ {
        ReportType::InspectionRecord
    } else if s == "aggregation_report"@ {
        ReportType::AggregationReport
    } else if s == "kpi_dashboard"@ {
        ReportType::KpiDashboard
    } else if s == "audit_trail"@ {
        ReportType::AuditTrail
    } else if s == "cost_analysis"@ {
        ReportType::CostAnalysis
    } else {
        ReportType::TraceabilityRecord
    }
}

/// The stored name of a report kind.
pub fn format_report_type(rt: &ReportType) -> (res: String)
    ensures
        res@ == spec_report_type_name(*rt),
{
    let name: &str = match rt {
        ReportType::SopExecutionRecord => "sop_execution_record",
        ReportType::NonConformanceRecord => "non_conformance_record",
        ReportType::ImprovementRecord => "improvement_record",
        ReportType::InspectionRecord => "inspection_record",
        ReportType::AggregationReport => "aggregation_report",
        ReportType::KpiDashboard => "kpi_dashboard",
        ReportType::AuditTrail => "audit_trail",
        ReportType::CostAnalysis => "cost_analysis",
        ReportType::TraceabilityRecord => "traceability_record",
    };
    name.to_owned()
}

/// Reads a stored report kind name.
pub fn parse_report_type(s: &str) -> (res: ReportType)
    ensures
        res == spec_parse_report_type(s@),
{
    if str_eq(s, "sop_execution_record") {
        ReportType::SopExecutionRecord
    } else if str_eq(s, "non_conformance_record") {
        ReportType::NonConformanceRecord
    } else if str_eq(s, "improvement_record") {
        ReportType::ImprovementRecord
    } else if str_eq(s, "inspection_record") {
        ReportType::InspectionRecord
    } else if str_eq(s, "aggregation_report") {
        ReportType::AggregationReport
    } else if str_eq(s, "kpi_dashboard") {
        ReportType::KpiDashboard
    } else if str_eq(s, "audit_trail") {
        ReportType::AuditTrail
    } else if str_eq(s, "cost_analysis") {
        ReportType::CostAnalysis
    } else {
        ReportType::TraceabilityRecord
    }
}

/// Reading back the stored name of a report kind gives the kind.
pub proof fn law_report_type_round_trip(t: ReportType)
    ensures
        spec_parse_report_type(spec_report_type_name(t)) == t,
{
    reveal_strlit("sop_execution_record");
    reveal_strlit("non_conformance_record");
    reveal_strlit("improvement_record");
    reveal_strlit("inspection_record");
    reveal_strlit("aggregation_report");
    reveal_strlit("kpi_dashboard");
    reveal_strlit("audit_trail");
    reveal_strlit("cost_analysis");
    reveal_strlit("traceability_record");
    assert("sop_execution_record"@.len() == 20 && "non_conformance_record"@.len() == 22 && "improvement_record"@.len() == 18 && "inspection_record"@.len() == 17 && "aggregation_report"@.len() == 18 && "kpi_dashboard"@.len() == 13 && "audit_trail"@.len() == 11 && "cost_analysis"@.len() == 13 && "traceability_record"@.len() == 19);
    assert("sop_execution_record"@[0] == 's' && "non_conformance_record"@[0] == 'n' && "improvement_record"@[0] == 'i' && "inspection_record"@[0] == 'i' && "aggregation_report"@[0] == 'a' && "kpi_dashboard"@[0] == 'k' && "audit_trail"@[0] == 'a' && "cost_analysis"@[0] == 'c' && "traceability_record"@[0] == 't');
    assert("inspection_record"@[1] == 'n' && "improvement_record"@[1] == 'm');
    assert("cost_analysis"@[1] == 'o' && "traceability_record"@[1] == 'r');
}

/// The file name of the report a job produces: `report_{job_id}.pdf`.
pub fn report_file_name(job_id: u128) -> (res: String)
    ensures
        res@ == "report_"@ + uuid_hyphenated(job_id) + ".pdf"@,
{
    let id = uuid_to_string(job_id);
    let mut s = "report_".to_owned();
    s.append(id.as_str());
    s.append(".pdf");
    s
}

/// Where a produced report file is downloaded.
pub fn report_download_url(file_name: &str) -> (res: String)
    ensures
        res@ == "/api/v1/report-files/"@ + file_name@,
{
    let mut s = "/api/v1/report-files/".to_owned();
    s.append(file_name);
    s
}


/// Each report kind is stored under its snake_case name (an inspection record as
/// `inspection_record`, an improvement record as `improvement_record`, ...).
pub proof fn law_report_type_name_of_each_kind()
    ensures
        spec_report_type_name(ReportType::SopExecutionRecord) == "sop_execution_record"@,
        spec_report_type_name(ReportType::NonConformanceRecord) == "non_conformance_record"@,
        spec_report_type_name(ReportType::ImprovementRecord) == "improvement_record"@,
        spec_report_type_name(ReportType::InspectionRecord) == "inspection_record"@,
        spec_report_type_name(ReportType::AggregationReport) == "aggregation_report"@,
        spec_report_type_name(ReportType::KpiDashboard) == "kpi_dashboard"@,
        spec_report_type_name(ReportType::AuditTrail) == "audit_trail"@,
        spec_report_type_name(ReportType::CostAnalysis) == "cost_analysis"@,
        spec_report_type_name(ReportType::TraceabilityRecord) == "traceability_record"@,
{
}

} // verus!
