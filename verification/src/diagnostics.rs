//! Diagnostics: the overall health verdict computed from the server
//! and certificate state, the records shown in the status window, and
//! the plain-text report offered for copying.

use vstd::prelude::*;
use crate::printers::PrinterInfo;
use crate::text::{dec_seq, append_u64};

verus! {

/// The one-word health verdict.
#[derive(Clone, Copy, PartialEq, Eq, Structural, Debug)]
pub enum OverallStatus {
    /// Everything needed to print is in place.
    Ready,
    /// Serving, but something wants attention.
    Warning,
    /// Not serving.
    Error,
}

/// The verdict for a given server and certificate state: both
/// listeners up with a sound certificate is ready, unless this
/// platform manages a trust store and the certificate is not trusted
/// there, which is only a warning; one listener up is a warning; none
/// up is an error.
pub open spec fn overall_status_spec(
    https_running: bool,
    http_running: bool,
    cert_valid: bool,
    cert_trusted: bool,
    platform_windows: bool,
) -> OverallStatus {
    if https_running && http_running && cert_valid {
        if platform_windows && !cert_trusted {
            OverallStatus::Warning
        } else {
            OverallStatus::Ready
        }
    } else if http_running || https_running {
        OverallStatus::Warning
    } else {
        OverallStatus::Error
    }
}

/// Computes the health verdict.
pub fn overall_status(
    https_running: bool,
    http_running: bool,
    cert_valid: bool,
    cert_trusted: bool,
    platform_windows: bool,
) -> (r: OverallStatus)
    ensures
        r == overall_status_spec(
            https_running,
            http_running,
            cert_valid,
            cert_trusted,
            platform_windows,
        ),
{
    if https_running && http_running && cert_valid {
        if platform_windows && !cert_trusted {
            OverallStatus::Warning
        } else {
            OverallStatus::Ready
        }
    } else if http_running || https_running {
        OverallStatus::Warning
    } else {
        OverallStatus::Error
    }
}

/// The full status record shown in the UI.
pub struct DiagnosticStatus {
    /// Whether the encrypted listener's port is taken.
    pub https_running: bool,
    /// Whether the plaintext listener's port is taken.
    pub http_running: bool,
    /// Whether both certificate files exist on disk.
    pub cert_exists: bool,
    /// Whether the stored pair is structurally sound.
    pub cert_valid: bool,
    /// Whether a trust store holds the certificate.
    pub cert_trusted: bool,
    /// The certificate directory shown to the user.
    pub cert_path: String,
    /// The application version.
    pub version: String,
    /// Seconds since the process started.
    pub uptime_seconds: u64,
    /// The host platform's name.
    pub platform: String,
    /// The one-word verdict over all of the above.
    pub overall_status: OverallStatus,
}

/// Assembles the status record from the probed state: every field is
/// carried through, uptime never underflows, and the verdict follows
/// the health rule.
pub fn get_diagnostic_status(
    version: String,
    https_running: bool,
    http_running: bool,
    cert_exists: bool,
    cert_valid: bool,
    cert_trusted: bool,
    cert_path: String,
    platform: String,
    platform_windows: bool,
    now: u64,
    app_start: u64,
) -> (r: DiagnosticStatus)
    ensures
        r.https_running == https_running,
        r.http_running == http_running,
        r.cert_exists == cert_exists,
        r.cert_valid == cert_valid,
        r.cert_trusted == cert_trusted,
        r.cert_path@ == cert_path@,
        r.version@ == version@,
        r.uptime_seconds == if now >= app_start {
            now - app_start
        } else {
            0
        },
        r.platform@ == platform@,
        r.overall_status == overall_status_spec(
            https_running,
            http_running,
            cert_valid,
            cert_trusted,
            platform_windows,
        ),
{
    let uptime_seconds = if now >= app_start {
        now - app_start
    } else {
        0
    };
    DiagnosticStatus {
        https_running,
        http_running,
        cert_exists,
        cert_valid,
        cert_trusted,
        cert_path,
        version,
        uptime_seconds,
        platform,
        overall_status: overall_status(
            https_running,
            http_running,
            cert_valid,
            cert_trusted,
            platform_windows,
        ),
    }
}

/// What is known about the persisted certificate file.
pub struct CertificateInfo {
    /// Whether the file exists.
    pub exists: bool,
    /// Its path.
    pub path: String,
    /// Its size, when it exists and could be read.
    pub file_size_bytes: Option<u64>,
    /// Its creation time, rendered, when known.
    pub created: Option<String>,
    /// Its modification time, rendered, when known.
    pub modified: Option<String>,
    /// Whether a trust store holds it.
    pub is_trusted: bool,
}

/// Assembles the certificate record: metadata is reported only for an
/// existing file.
pub fn get_certificate_info(
    exists: bool,
    path: String,
    file_size_bytes: Option<u64>,
    created: Option<String>,
    modified: Option<String>,
    is_trusted: bool,
) -> (r: CertificateInfo)
    ensures
        r.exists == exists,
        r.path@ == path@,
        r.is_trusted == is_trusted,
        exists ==> r.file_size_bytes == file_size_bytes && r.created == created && r.modified
            == modified,
        !exists ==> r.file_size_bytes is None && r.created is None && r.modified is None,
{
    if exists {
        CertificateInfo { exists, path, file_size_bytes, created, modified, is_trusted }
    } else {
        CertificateInfo {
            exists,
            path,
            file_size_bytes: None,
            created: None,
            modified: None,
            is_trusted,
        }
    }
}

/// The outcome of probing both listeners.
pub struct ConnectionTestResult {
    /// Whether at least one listener answered.
    pub success: bool,
    /// Whether the encrypted listener answered.
    pub https_ok: bool,
    /// Whether the plaintext listener answered.
    pub http_ok: bool,
    /// Round-trip time to the encrypted listener, when it answered.
    pub https_latency_ms: Option<u64>,
    /// Round-trip time to the plaintext listener, when it answered.
    pub http_latency_ms: Option<u64>,
    /// Whether the local host name resolves.
    pub localhost_resolves: bool,
    /// Whether a loopback socket could be opened.
    pub loopback_accessible: bool,
    /// A one-line reading of the outcome.
    pub message: String,
}

/// The one-line reading of a probe outcome.
pub open spec fn connection_message_spec(https_ok: bool, http_ok: bool) -> Seq<char> {
    if https_ok && http_ok {
        "Both connections working perfectly!"@
    } else if https_ok {
        "HTTPS connection working (Safari compatible)"@
    } else if http_ok {
        "HTTP connection working (use this for Chrome/Firefox/Edge)"@
    } else {
        "Connection failed - servers may need restart"@
    }
}

/// Assembles the probe outcome: success means at least one listener
/// answered, and the message reads the pair of answers.
pub fn test_connections(
    https_ok: bool,
    http_ok: bool,
    https_latency_ms: Option<u64>,
    http_latency_ms: Option<u64>,
    localhost_resolves: bool,
    loopback_accessible: bool,
) -> (r: ConnectionTestResult)
    ensures
        r.success == (https_ok || http_ok),
        r.https_ok == https_ok,
        r.http_ok == http_ok,
        r.https_latency_ms == https_latency_ms,
        r.http_latency_ms == http_latency_ms,
        r.localhost_resolves == localhost_resolves,
        r.loopback_accessible == loopback_accessible,
        r.message@ == connection_message_spec(https_ok, http_ok),
{
    let message = if https_ok && http_ok {
        String::from_str("Both connections working perfectly!")
    } else if https_ok {
        String::from_str("HTTPS connection working (Safari compatible)")
    } else if http_ok {
        String::from_str("HTTP connection working (use this for Chrome/Firefox/Edge)")
    } else {
        String::from_str("Connection failed - servers may need restart")
    };
    ConnectionTestResult {
        success: https_ok || http_ok,
        https_ok,
        http_ok,
        https_latency_ms,
        http_latency_ms,
        localhost_resolves,
        loopback_accessible,
        message,
    }
}

/// `true` or `false`, as the report prints a flag.
pub open spec fn bool_text(b: bool) -> Seq<char> {
    if b {
        "true"@
    } else {
        "false"@
    }
}

/// `Running` or `Stopped`, as the report prints a listener.
pub open spec fn run_text(b: bool) -> Seq<char> {
    if b {
        "Running"@
    } else {
        "Stopped"@
    }
}

/// The closing verdict line of the report.
pub open spec fn verdict_text(s: OverallStatus) -> Seq<char> {
    match s {
        OverallStatus::Ready => "Ready\n"@,
        OverallStatus::Warning => "Warning - needs attention\n"@,
        OverallStatus::Error => "Error - not working\n"@,
    }
}

/// One printer line of the report.
pub open spec fn printer_line(p: PrinterInfo) -> Seq<char> {
    "  - "@ + p.name@ + (if p.is_default {
        " (default)"@
    } else {
        Seq::empty()
    }) + " ["@ + p.status@ + "]\n"@
}

/// The first `k` printer lines of the report.
pub open spec fn printer_lines(ps: Seq<PrinterInfo>, k: int) -> Seq<char>
    decreases k,
{
    if k <= 0 {
        Seq::empty()
    } else {
        printer_lines(ps, k - 1) + printer_line(ps[k - 1])
    }
}

/// The whole clipboard report for a status record, a printer list and
/// a rendered generation time.
pub open spec fn report_text(s: DiagnosticStatus, ps: Seq<PrinterInfo>, generated_at: Seq<char>)
    -> Seq<char> {
    "=== AnyMobile Print Helper Diagnostics ===\n\nGenerated: "@ + generated_at + "\nVersion: "@
        + s.version@ + "\nPlatform: "@ + s.platform@ + "\nUptime: "@ + dec_seq(
        s.uptime_seconds as nat,
    ) + " seconds\n\nServer Status:\n  HTTPS (9847): "@ + run_text(s.https_running)
        + "\n  HTTP (9848): "@ + run_text(s.http_running) + "\n\nCertificate:\n  Path: "@
        + s.cert_path@ + "\n  Exists: "@ + bool_text(s.cert_exists) + "\n  Valid: "@ + bool_text(
        s.cert_valid,
    ) + "\n  Trusted (Windows): "@ + bool_text(s.cert_trusted) + "\n\nPrinters ("@ + dec_seq(
        ps.len() as nat,
    ) + " found):\n"@ + printer_lines(ps, ps.len() as int) + "\nOverall Status: "@ + verdict_text(
        s.overall_status,
    )
}

/// Renders the clipboard report, exactly as specified line for line.
pub fn format_diagnostics_for_copy(
    status: &DiagnosticStatus,
    printers: &Vec<PrinterInfo>,
    generated_at: &str,
) -> (r: String)
    ensures
        r@ == report_text(*status, printers@, generated_at@),
{
    let mut out = String::new();
    proof {
        assert(Seq::<char>::empty() + "=== AnyMobile Print Helper Diagnostics ===\n\nGenerated: "@
            =~= "=== AnyMobile Print Helper Diagnostics ===\n\nGenerated: "@);
    }
    out.append("=== AnyMobile Print Helper Diagnostics ===\n\nGenerated: ");
    out.append(generated_at);
    out.append("\nVersion: ");
    out.append(status.version.as_str());
    out.append("\nPlatform: ");
    out.append(status.platform.as_str());
    out.append("\nUptime: ");
    append_u64(&mut out, status.uptime_seconds);
    out.append(" seconds\n\nServer Status:\n  HTTPS (9847): ");
    out.append(if status.https_running {
        "Running"
    } else {
        "Stopped"
    });
    out.append("\n  HTTP (9848): ");
    out.append(if status.http_running {
        "Running"
    } else {
        "Stopped"
    });
    out.append("\n\nCertificate:\n  Path: ");
    out.append(status.cert_path.as_str());
    out.append("\n  Exists: ");
    out.append(if status.cert_exists {
        "true"
    } else {
        "false"
    });
    out.append("\n  Valid: ");
    out.append(if status.cert_valid {
        "true"
    } else {
        "false"
    });
    out.append("\n  Trusted (Windows): ");
    out.append(if status.cert_trusted {
        "true"
    } else {
        "false"
    });
    out.append("\n\nPrinters (");
    append_u64(&mut out, printers.len() as u64);
    out.append(" found):\n");
    let ghost head = out@;
    let mut k: usize = 0;
    proof {
        assert(head + printer_lines(printers@, 0) =~= head);
    }
    while k < printers.len()
        invariant
            k <= printers@.len(),
            out@ == head + printer_lines(printers@, k as int),
        decreases printers@.len() - k,
    {
        let p = &printers[k];
        let ghost before = out@;
        out.append("  - ");
        out.append(p.name.as_str());
        if p.is_default {
            out.append(" (default)");
        }
        out.append(" [");
        out.append(p.status.as_str());
        out.append("]\n");
        proof {
            if p.is_default {
                assert(out@ =~= before + printer_line(printers@[k as int]));
            } else {
                assert(printer_line(printers@[k as int]) =~= "  - "@ + p.name@ + " ["@ + p.status@
                    + "]\n"@);
                assert(out@ =~= before + printer_line(printers@[k as int]));
            }
            assert(out@ =~= head + printer_lines(printers@, k + 1));
        }
        k += 1;
    }
    out.append("\nOverall Status: ");
    match status.overall_status {
        OverallStatus::Ready => out.append("Ready\n"),
        OverallStatus::Warning => out.append("Warning - needs attention\n"),
        OverallStatus::Error => out.append("Error - not working\n"),
    }
    proof {
        assert(out@ =~= report_text(*status, printers@, generated_at@));
    }
    out
}

/// Lists the system's printers for the status window, from the same
/// captured enumeration output the listener uses.
pub fn get_printers(output: Option<&str>) -> (r: Vec<PrinterInfo>)
    ensures
        output matches Some(text) ==> crate::printers::views_of(r@)
            == crate::printers::parsed_printers(text@),
        output is None ==> r@.len() == 0,
{
    crate::printers::list_printers(output)
}

/// Relies on chrono::Local::now and its formatting with a fixed
/// valid pattern of date and time; the result depends on the clock,
/// so nothing more is claimed.
#[verifier::external_body]
fn now_local_datetime() -> (r: String)
{
    chrono::Local::now().format("%Y-%m-%d %H:%M:%S").to_string()
}

/// Renders the clipboard report stamped with the current wall-clock
/// time: the report text for some reading of the clock.
pub fn format_diagnostics_now(status: &DiagnosticStatus, printers: &Vec<PrinterInfo>) -> (r:
    String)
    ensures
        exists|ts: Seq<char>| r@ == report_text(*status, printers@, ts),
{
    let ts = now_local_datetime();
    let r = format_diagnostics_for_copy(status, printers, ts.as_str());
    proof {
        assert(r@ == report_text(*status, printers@, ts@));
    }
    r
}

} // verus!
