//! Listener request handling, printer enumeration parsing, the
//! diagnostics report and the log buffer on concrete inputs.

use print_helper::diagnostics::{
    format_diagnostics_for_copy, get_certificate_info, get_diagnostic_status, get_printers,
    overall_status, test_connections, OverallStatus,
};
use print_helper::logbuf::{source_from_target, strip_field_quotes, LogBuffer};
use print_helper::printers::{
    classify_listing, list_printers, printers_from_raw, status_from_code, ListingShape,
    RawPrinter,
};
use print_helper::requests::{
    classify_field, dispatch_response, failure_response, handle_ping, print_request_outcome,
    FieldKind, PrintRequestParts, RequestFailure, StatusClass,
};
use print_helper::AppState;

const LPSTAT: &str = "printer Epson_ET_3830 is idle.  enabled since Mon\nprinter HP_LaserJet now printing HP_LaserJet-42.\nprinter Backroom disabled since Tue\nsystem default destination: Epson_ET_3830";

#[test]
fn enumeration_normalises_status_and_default() {
    let ps = list_printers(Some(LPSTAT));
    assert_eq!(ps.len(), 3);
    assert_eq!(ps[0].name, "Epson_ET_3830");
    assert_eq!(ps[0].status, "ready");
    assert!(ps[0].is_default);
    assert_eq!(ps[1].name, "HP_LaserJet");
    assert_eq!(ps[1].status, "busy");
    assert!(!ps[1].is_default);
    assert_eq!(ps[2].name, "Backroom");
    assert_eq!(ps[2].status, "unknown");
    assert!(!ps[2].is_default);
}

#[test]
fn enumeration_twice_gives_equal_descriptors() {
    let a = list_printers(Some(LPSTAT));
    let b = list_printers(Some(LPSTAT));
    assert_eq!(a.len(), b.len());
    for (x, y) in a.iter().zip(b.iter()) {
        assert_eq!(x.name, y.name);
        assert_eq!(x.is_default, y.is_default);
        assert_eq!(x.status, y.status);
    }
    let defaults = a.iter().filter(|p| p.is_default).count();
    assert!(defaults <= 1);
}

#[test]
fn enumeration_failure_is_no_printers() {
    assert!(list_printers(None).is_empty());
    assert!(get_printers(None).is_empty());
}

#[test]
fn enumeration_without_default_line() {
    let ps = list_printers(Some("printer Lonely is idle.\n"));
    assert_eq!(ps.len(), 1);
    assert!(!ps[0].is_default);
}

#[test]
fn raw_enumeration_normalised() {
    let raw = vec![
        RawPrinter { name: "A".to_string(), is_default: Some(true), status_code: Some(0) },
        RawPrinter { name: "B".to_string(), is_default: None, status_code: Some(1) },
        RawPrinter { name: "C".to_string(), is_default: Some(false), status_code: Some(7) },
        RawPrinter { name: "D".to_string(), is_default: None, status_code: None },
    ];
    let ps = printers_from_raw(&raw);
    assert_eq!(ps.len(), 4);
    assert!(ps[0].is_default && ps[0].status == "ready");
    assert!(!ps[1].is_default && ps[1].status == "busy");
    assert!(!ps[2].is_default && ps[2].status == "unknown");
    assert!(!ps[3].is_default && ps[3].status == "ready");
    assert_eq!(status_from_code(1), "busy");
}

#[test]
fn field_names_classified() {
    assert!(matches!(classify_field("pdf"), FieldKind::Document));
    assert!(matches!(classify_field("printer"), FieldKind::PrinterName));
    assert!(matches!(classify_field("copies"), FieldKind::CopyCount));
    assert!(matches!(classify_field("attachment"), FieldKind::Ignored));
}

#[test]
fn submission_without_document_is_client_error() {
    let mut parts = PrintRequestParts::new();
    parts.set_printer("Somewhere".to_string());
    parts.set_copies_text("9".to_string());
    let out = print_request_outcome(parts);
    let (status, body) = out.err().unwrap();
    assert!(matches!(status, StatusClass::ClientError));
    assert!(!body.success);
    assert_eq!(body.error.as_deref(), Some("No PDF data provided"));
    assert!(body.job_id.is_none());
}

#[test]
fn submission_with_document_goes_through() {
    let mut parts = PrintRequestParts::new();
    parts.set_document(vec![1, 2, 3]);
    let out = print_request_outcome(parts);
    assert!(out.is_ok());
}

#[test]
fn malformed_multipart_is_client_error_with_message() {
    let (status, body) = failure_response(RequestFailure::ParseError("missing boundary".into()));
    assert!(matches!(status, StatusClass::ClientError));
    assert!(!body.success);
    let msg = body.error.unwrap();
    assert_eq!(msg, "Failed to parse form data: missing boundary");
    assert!(!msg.is_empty());
}

#[test]
fn unreadable_document_is_client_error_with_message() {
    let (status, body) = failure_response(RequestFailure::ReadError("stream ended".into()));
    assert!(matches!(status, StatusClass::ClientError));
    assert_eq!(body.error.as_deref(), Some("Failed to read PDF data: stream ended"));
}

#[test]
fn dispatch_outcomes_mapped() {
    let (status, body) = dispatch_response(Ok("0f8fad5b-d9cb-469f-a165-70867728950e".into()));
    assert!(matches!(status, StatusClass::Success));
    assert!(body.success);
    assert_eq!(body.job_id.as_deref(), Some("0f8fad5b-d9cb-469f-a165-70867728950e"));
    let (status, body) = dispatch_response(Err("lp print command failed".into()));
    assert!(matches!(status, StatusClass::ServerError));
    assert!(!body.success);
    assert_eq!(body.error.as_deref(), Some("lp print command failed"));
}

#[test]
fn ping_names_the_app() {
    let r = handle_ping("1.2.3".to_string(), list_printers(Some(LPSTAT)));
    assert_eq!(r.app, "anymobile-print-helper");
    assert_eq!(r.version, "1.2.3");
    assert_eq!(r.printers.len(), 3);
}

#[test]
fn app_state_starts_idle() {
    let s = AppState::default();
    assert!(!s.server_running);
    assert!(s.last_print_job.is_none());
}

#[test]
fn verdict_rules() {
    assert!(matches!(overall_status(true, true, true, true, true), OverallStatus::Ready));
    assert!(matches!(overall_status(true, true, true, false, false), OverallStatus::Ready));
    assert!(matches!(overall_status(true, true, true, false, true), OverallStatus::Warning));
    assert!(matches!(overall_status(true, false, true, true, false), OverallStatus::Warning));
    assert!(matches!(overall_status(false, true, false, true, false), OverallStatus::Warning));
    assert!(matches!(overall_status(false, false, true, true, false), OverallStatus::Error));
}

#[test]
fn status_record_carries_fields_and_saturates_uptime() {
    let s = get_diagnostic_status(
        "9.9".to_string(),
        true,
        false,
        true,
        true,
        false,
        "/certs".to_string(),
        "linux".to_string(),
        false,
        100,
        40,
    );
    assert_eq!(s.uptime_seconds, 60);
    assert!(matches!(s.overall_status, OverallStatus::Warning));
    let s2 = get_diagnostic_status(
        "9.9".to_string(),
        true,
        true,
        true,
        true,
        true,
        "/certs".to_string(),
        "linux".to_string(),
        false,
        40,
        100,
    );
    assert_eq!(s2.uptime_seconds, 0);
    assert!(matches!(s2.overall_status, OverallStatus::Ready));
}

#[test]
fn certificate_record_hides_metadata_without_file() {
    let c = get_certificate_info(
        false,
        "/certs/localhost.crt".to_string(),
        Some(10),
        Some("then".to_string()),
        Some("now".to_string()),
        false,
    );
    assert!(c.file_size_bytes.is_none());
    assert!(c.created.is_none());
    assert!(c.modified.is_none());
    let c = get_certificate_info(true, "p".to_string(), Some(10), None, None, true);
    assert_eq!(c.file_size_bytes, Some(10));
    assert!(c.is_trusted);
}

#[test]
fn connection_messages() {
    assert_eq!(
        test_connections(true, true, Some(3), Some(2), true, true).message,
        "Both connections working perfectly!"
    );
    assert_eq!(
        test_connections(true, false, Some(3), None, true, true).message,
        "HTTPS connection working (Safari compatible)"
    );
    assert_eq!(
        test_connections(false, true, None, Some(2), true, true).message,
        "HTTP connection working (use this for Chrome/Firefox/Edge)"
    );
    let r = test_connections(false, false, None, None, false, false);
    assert_eq!(r.message, "Connection failed - servers may need restart");
    assert!(!r.success);
}

#[test]
fn report_text_exact() {
    let s = get_diagnostic_status(
        "1.0.0".to_string(),
        true,
        false,
        true,
        false,
        false,
        "/home/u/certs".to_string(),
        "linux".to_string(),
        false,
        1000,
        900,
    );
    let printers = list_printers(Some(
        "printer Epson_ET_3830 is idle.\nsystem default destination: Epson_ET_3830",
    ));
    let report = format_diagnostics_for_copy(&s, &printers, "2024-01-02 03:04:05");
    let expected = "=== AnyMobile Print Helper Diagnostics ===\n\n\
Generated: 2024-01-02 03:04:05\n\
Version: 1.0.0\n\
Platform: linux\n\
Uptime: 100 seconds\n\n\
Server Status:\n  HTTPS (9847): Running\n  HTTP (9848): Stopped\n\n\
Certificate:\n  Path: /home/u/certs\n  Exists: true\n  Valid: false\n  Trusted (Windows): false\n\n\
Printers (1 found):\n  - Epson_ET_3830 (default) [ready]\n\n\
Overall Status: Warning - needs attention\n";
    assert_eq!(report, expected);
}

#[test]
fn log_buffer_orders_newest_first() {
    let mut buf = LogBuffer::new();
    buf.add_log_entry("INFO", "server", "started");
    buf.add_log_entry("ERROR", "printer", "jam");
    buf.add_log_entry("INFO", "server", "request");
    let all = buf.get_recent_logs(None, None);
    assert_eq!(all.len(), 3);
    assert_eq!(all[0].message, "request");
    assert_eq!(all[2].message, "started");
    assert_eq!(all[0].id, 2);
    let errors = buf.get_recent_logs(None, Some("error"));
    assert_eq!(errors.len(), 1);
    assert_eq!(errors[0].level, "ERROR");
    let one = buf.get_recent_logs(Some(1), None);
    assert_eq!(one.len(), 1);
    assert_eq!(one[0].message, "request");
}

#[test]
fn log_buffer_caps_at_capacity() {
    let mut buf = LogBuffer::new();
    for i in 0..501u32 {
        buf.add_log_entry("INFO", "src", &format!("m{}", i));
    }
    assert_eq!(buf.entries.len(), 500);
    assert_eq!(buf.entries[0].id, 1);
    assert_eq!(buf.entries[499].id, 500);
}

#[test]
fn log_buffer_clears_but_keeps_numbering() {
    let mut buf = LogBuffer::new();
    buf.add_log_entry("INFO", "a", "x");
    buf.clear_logs();
    assert!(buf.get_recent_logs(None, None).is_empty());
    buf.add_log_entry("INFO", "a", "y");
    assert_eq!(buf.entries[0].id, 1);
}

#[test]
fn tracing_target_reduced_to_component() {
    assert_eq!(source_from_target("app::printer::windows"), "windows");
    assert_eq!(source_from_target("bare"), "bare");
    assert_eq!(source_from_target("a::"), "");
    assert_eq!(source_from_target("::b"), "b");
}

#[test]
fn debug_quotes_stripped_once() {
    assert_eq!(strip_field_quotes("\"hello\""), "hello");
    assert_eq!(strip_field_quotes("plain"), "plain");
    assert_eq!(strip_field_quotes("\"\""), "");
    assert_eq!(strip_field_quotes("\""), "\"");
}

#[test]
fn log_timestamps_are_clock_readings() {
    let mut buf = LogBuffer::new();
    buf.add_log_entry("INFO", "server", "tick");
    let all = buf.get_recent_logs(None, None);
    // hours, minutes, seconds and milliseconds
    assert_eq!(all[0].timestamp.len(), 12);
    assert_eq!(all[0].timestamp.as_bytes()[2], b':');
    assert_eq!(all[0].timestamp.as_bytes()[8], b'.');
}

#[test]
fn report_with_clock_stamp_keeps_shape() {
    let s = get_diagnostic_status(
        "1.0.0".to_string(),
        false,
        false,
        false,
        false,
        false,
        "/c".to_string(),
        "linux".to_string(),
        false,
        5,
        5,
    );
    let report = print_helper::diagnostics::format_diagnostics_now(&s, &Vec::new());
    assert!(report.starts_with("=== AnyMobile Print Helper Diagnostics ===\n\nGenerated: "));
    assert!(report.ends_with("Overall Status: Error - not working\n"));
}

#[test]
fn listing_shape_classified() {
    assert_eq!(classify_listing("  [ {\"Name\": \"A\"} ]"), ListingShape::Array);
    assert_eq!(classify_listing("\n{\"Name\": \"A\"}"), ListingShape::Object);
    assert_eq!(classify_listing(""), ListingShape::Other);
    assert_eq!(classify_listing("no printers"), ListingShape::Other);
}
