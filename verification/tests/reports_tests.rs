use wnav_core::reports::{format_report_type, parse_report_type, report_download_url, report_file_name, ReportType};

const ALL: [ReportType; 9] = [
    ReportType::SopExecutionRecord,
    ReportType::NonConformanceRecord,
    ReportType::ImprovementRecord,
    ReportType::InspectionRecord,
    ReportType::AggregationReport,
    ReportType::KpiDashboard,
    ReportType::AuditTrail,
    ReportType::CostAnalysis,
    ReportType::TraceabilityRecord,
];

#[test]
fn report_type_names() {
    assert_eq!(format_report_type(&ReportType::SopExecutionRecord), "sop_execution_record");
    assert_eq!(format_report_type(&ReportType::KpiDashboard), "kpi_dashboard");
    assert_eq!(format_report_type(&ReportType::TraceabilityRecord), "traceability_record");
}

#[test]
fn report_type_round_trip() {
    for t in ALL {
        assert_eq!(parse_report_type(&format_report_type(&t)), t);
    }
}

#[test]
fn unknown_report_type_reads_as_traceability() {
    assert_eq!(parse_report_type("nonsense"), ReportType::TraceabilityRecord);
    assert_eq!(parse_report_type(""), ReportType::TraceabilityRecord);
    assert_eq!(parse_report_type("KPI_DASHBOARD"), ReportType::TraceabilityRecord);
}

#[test]
fn report_files() {
    let name = report_file_name(0x123e4567e89b12d3a456426614174000);
    assert_eq!(name, "report_123e4567-e89b-12d3-a456-426614174000.pdf");
    assert_eq!(report_download_url(&name), "/api/v1/report-files/report_123e4567-e89b-12d3-a456-426614174000.pdf");
}
