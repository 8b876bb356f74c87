//! Listener logic for job submission: which form fields matter, how a
//! submission becomes a print request, and the exact body and status
//! class of every answer.

use vstd::prelude::*;

verus! {

/// The class of an HTTP answer.
#[derive(Clone, Copy, PartialEq, Eq, Structural, Debug)]
pub enum StatusClass {
    /// The job was accepted.
    Success,
    /// The submission itself was unusable.
    ClientError,
    /// Dispatch failed after a usable submission.
    ServerError,
}

/// The answer body of the submission route.
pub struct PrintResponse {
    /// Whether the job was accepted.
    pub success: bool,
    /// What went wrong, on failure.
    pub error: Option<String>,
    /// The job identifier, on acceptance.
    pub job_id: Option<String>,
}

/// What a multipart field of a given name means to the engine.
#[derive(Clone, Copy, PartialEq, Eq, Structural, Debug)]
pub enum FieldKind {
    /// The submitted document.
    Document,
    /// The requested printer name.
    PrinterName,
    /// The requested copy count.
    CopyCount,
    /// A field the engine does not read.
    Ignored,
}

/// Reads a field name: the document arrives as `pdf`, the route as
/// `printer`, the count as `copies`; everything else is ignored.
pub fn classify_field(name: &str) -> (r: FieldKind)
    ensures
        name@ == "pdf"@ ==> r is Document,
        name@ == "printer"@ ==> r is PrinterName,
        name@ == "copies"@ ==> r is CopyCount,
        name@ != "pdf"@ && name@ != "printer"@ && name@ != "copies"@ ==> r is Ignored,
{
    proof {
        reveal_strlit("pdf");
        reveal_strlit("printer");
        reveal_strlit("copies");
        assert("pdf"@.len() == 3);
        assert("printer"@.len() == 7);
        assert("copies"@.len() == 6);
    }
    if crate::text::str_eq(name, "pdf") {
        FieldKind::Document
    } else if crate::text::str_eq(name, "printer") {
        FieldKind::PrinterName
    } else if crate::text::str_eq(name, "copies") {
        FieldKind::CopyCount
    } else {
        FieldKind::Ignored
    }
}

/// The fields of one submission, each holding the last value that
/// arrived under its name.
pub struct PrintRequestParts {
    /// The document bytes, once a document field arrived.
    pub pdf: Option<Vec<u8>>,
    /// The requested printer, once a readable printer field arrived.
    pub printer: Option<String>,
    /// The copies field's text, once a readable one arrived.
    pub copies_text: Option<String>,
}

impl PrintRequestParts {
    /// A submission with no fields yet.
    pub fn new() -> (r: PrintRequestParts)
        ensures
            r.pdf is None,
            r.printer is None,
            r.copies_text is None,
    {
        PrintRequestParts { pdf: None, printer: None, copies_text: None }
    }

    /// Records the document field.
    pub fn set_document(&mut self, bytes: Vec<u8>)
        ensures
            final(self).pdf matches Some(b) && b@ == bytes@,
            final(self).printer == old(self).printer,
            final(self).copies_text == old(self).copies_text,
    {
        self.pdf = Some(bytes);
    }

    /// Records the printer field.
    pub fn set_printer(&mut self, name: String)
        ensures
            final(self).printer matches Some(p) && p@ == name@,
            final(self).pdf == old(self).pdf,
            final(self).copies_text == old(self).copies_text,
    {
        self.printer = Some(name);
    }

    /// Records the copies field.
    pub fn set_copies_text(&mut self, text: String)
        ensures
            final(self).copies_text matches Some(t) && t@ == text@,
            final(self).pdf == old(self).pdf,
            final(self).printer == old(self).printer,
    {
        self.copies_text = Some(text);
    }
}

/// Why a submission could not be read at all.
pub enum RequestFailure {
    /// The multipart body could not be parsed; the parser's words.
    ParseError(String),
    /// The document field could not be read; the reader's words.
    ReadError(String),
}

/// The answer to an unreadable submission: always a client error,
/// never accepted, with a non-empty message that names the stage that
/// failed.
pub fn failure_response(f: RequestFailure) -> (r: (StatusClass, PrintResponse))
    ensures
        r.0 is ClientError,
        r.1.success == false,
        r.1.job_id is None,
        f matches RequestFailure::ParseError(e) ==> (r.1.error matches Some(m) && m@
            == "Failed to parse form data: "@ + e@),
        f matches RequestFailure::ReadError(e) ==> (r.1.error matches Some(m) && m@
            == "Failed to read PDF data: "@ + e@),
        r.1.error matches Some(m) && m@.len() > 0,
{
    let message = match f {
        RequestFailure::ParseError(e) => String::from_str("Failed to parse form data: ").concat(
            e.as_str(),
        ),
        RequestFailure::ReadError(e) => String::from_str("Failed to read PDF data: ").concat(
            e.as_str(),
        ),
    };
    proof {
        reveal_strlit("Failed to parse form data: ");
        reveal_strlit("Failed to read PDF data: ");
    }
    (
        StatusClass::ClientError,
        PrintResponse { success: false, error: Some(message), job_id: None },
    )
}

/// Accepts or refuses the collected fields: a submission without a
/// document is refused as a client error saying so, whatever else it
/// carried; one with a document is handed on for dispatch.
pub fn print_request_outcome(parts: PrintRequestParts) -> (r: Result<
    PrintRequestParts,
    (StatusClass, PrintResponse),
>)
    ensures
        parts.pdf is Some ==> (r matches Ok(p) && p == parts),
        parts.pdf is None ==> (r matches Err(e) && e.0 is ClientError && e.1.success == false
            && e.1.job_id is None && (e.1.error matches Some(m) && m@
            == "No PDF data provided"@)),
{
    if parts.pdf.is_some() {
        Ok(parts)
    } else {
        Err(
            (
                StatusClass::ClientError,
                PrintResponse {
                    success: false,
                    error: Some(String::from_str("No PDF data provided")),
                    job_id: None,
                },
            ),
        )
    }
}

/// The answer once dispatch ran: an issued job identifier is a
/// success carrying it; a dispatch failure is a server error carrying
/// the engine's words.
pub fn dispatch_response(outcome: Result<String, String>) -> (r: (StatusClass, PrintResponse))
    ensures
        outcome matches Ok(job_id) ==> (r.0 is Success && r.1.success == true && r.1.error is None
            && (r.1.job_id matches Some(j) && j@ == job_id@)),
        outcome matches Err(e) ==> (r.0 is ServerError && r.1.success == false
            && r.1.job_id is None && (r.1.error matches Some(m) && m@ == e@)),
{
    match outcome {
        Ok(job_id) => (
            StatusClass::Success,
            PrintResponse { success: true, error: None, job_id: Some(job_id) },
        ),
        Err(e) => (
            StatusClass::ServerError,
            PrintResponse { success: false, error: Some(e), job_id: None },
        ),
    }
}

/// The answer body of the health route.
pub struct PingResponse {
    /// The application's name.
    pub app: String,
    /// The application's version.
    pub version: String,
    /// The current printer list.
    pub printers: Vec<crate::printers::PrinterInfo>,
}

/// Assembles the health answer: the fixed application name, the given
/// version, and the printer list as enumerated.
pub fn handle_ping(version: String, printers: Vec<crate::printers::PrinterInfo>) -> (r:
    PingResponse)
    ensures
        r.app@ == "anymobile-print-helper"@,
        r.version@ == version@,
        r.printers@ == printers@,
{
    PingResponse { app: String::from_str("anymobile-print-helper"), version, printers }
}

} // verus!
