//! Print dispatch engine: backend selection with its fallback chain,
//! vendor-specific quality arguments, and the exact command lines the
//! engine hands to the rendering and printing tools.

use vstd::prelude::*;
use crate::text::{
    contains_seq, dec_seq, lower_seq, parsed_u32, lower_contains, parse_u32, u32_to_string,
};

verus! {

/// How long the scratch document is kept after submission, for
/// backends that read it asynchronously.
pub const SCRATCH_RETENTION_SECS: u64 = 5;

/// The printing backends, in fidelity order.
pub enum Backend {
    /// Rasterise at high resolution and print with a custom device
    /// profile.
    HighFidelity,
    /// Hand the document to a general-purpose printing tool; device
    /// profiles are not honoured.
    Generic,
    /// Hand the document to the operating system's default print
    /// action for the file type.
    OsDefault,
}

/// Picks the first available backend: high fidelity when its
/// rendering tool resolved, else the generic tool, else the OS
/// default action.
pub fn select_backend(high_fidelity_available: bool, generic_available: bool) -> (r: Backend)
    ensures
        high_fidelity_available ==> r is HighFidelity,
        !high_fidelity_available && generic_available ==> r is Generic,
        !high_fidelity_available && !generic_available ==> r is OsDefault,
{
    if high_fidelity_available {
        Backend::HighFidelity
    } else if generic_available {
        Backend::Generic
    } else {
        Backend::OsDefault
    }
}

/// The copy count a request asks for: an omitted or unreadable field
/// means exactly one copy.
pub open spec fn effective_copies_spec(copies_text: Option<Seq<char>>) -> u32 {
    match copies_text {
        None => 1,
        Some(t) => match parsed_u32(t) {
            Some(v) => v,
            None => 1,
        },
    }
}

/// Reads the optional copies field of a request.
pub fn effective_copies(copies_text: Option<&str>) -> (r: u32)
    ensures
        r == effective_copies_spec(
            match copies_text {
                Some(t) => Some(t@),
                None => None,
            },
        ),
{
    match copies_text {
        None => 1,
        Some(t) => match parse_u32(t) {
            Some(v) => v,
            None => 1,
        },
    }
}

/// A request with no copies field asks for exactly one copy.
pub proof fn lemma_omitted_copies_is_one()
    ensures
        effective_copies_spec(None) == 1,
{
}

/// The views of a command line.
pub open spec fn arg_views(v: Seq<String>) -> Seq<Seq<char>> {
    v.map_values(|x: String| x@)
}

/// The quality arguments chosen for a printer by name: a resolution,
/// quality and matte-paper combination for one inkjet family, a
/// labels media type for a laser family, and a generic elevated
/// quality flag otherwise. Best-effort substring matching on the
/// lower-cased name, not driver introspection.
pub open spec fn vendor_args_spec(printer: Seq<char>) -> Seq<Seq<char>> {
    let lowered = lower_seq(printer);
    if contains_seq(lowered, "epson"@) {
        seq![
            "-o"@,
            "Resolution=1200x1200dpi"@,
            "-o"@,
            "EPIJ_Qual=307"@,
            "-o"@,
            "EPIJ_Medi=12"@,
        ]
    } else if contains_seq(lowered, "hp"@) || contains_seq(lowered, "laserjet"@) {
        seq!["-o"@, "MediaType=labels"@]
    } else {
        seq!["-o"@, "print-quality=5"@]
    }
}

/// The full command line for the OS spool command: exact copy count,
/// scaling off so the document prints at actual size, the vendor
/// quality arguments and destination when a printer was named, and
/// the document path last.
pub open spec fn spool_args_spec(pdf_path: Seq<char>, printer: Option<Seq<char>>, copies: u32)
    -> Seq<Seq<char>> {
    let base = seq![
        "-n"@,
        dec_seq(copies as nat),
        "-o"@,
        "fit-to-page=false"@,
        "-o"@,
        "scaling=100"@,
    ];
    let routed = match printer {
        None => base,
        Some(p) => base + vendor_args_spec(p) + seq!["-d"@, p],
    };
    routed.push(pdf_path)
}

/// Appends one literal argument.
fn push_arg(args: &mut Vec<String>, s: &str)
    ensures
        arg_views(final(args)@) == arg_views(old(args)@).push(s@),
{
    let ghost pre = args@;
    args.push(String::from_str(s));
    proof {
        assert(arg_views(args@) =~= arg_views(pre).push(s@));
    }
}

/// Appends one owned argument.
fn push_arg_string(args: &mut Vec<String>, s: String)
    ensures
        arg_views(final(args)@) == arg_views(old(args)@).push(s@),
{
    let ghost pre = args@;
    let ghost v = s@;
    args.push(s);
    proof {
        assert(arg_views(args@) =~= arg_views(pre).push(v));
    }
}

/// Builds the OS spool command line.
pub fn build_spool_args(pdf_path: &str, printer: Option<&str>, copies: u32) -> (r: Vec<String>)
    ensures
        arg_views(r@) == spool_args_spec(
            pdf_path@,
            match printer {
                Some(p) => Some(p@),
                None => None,
            },
            copies,
        ),
{
    let mut args: Vec<String> = Vec::new();
    push_arg(&mut args, "-n");
    push_arg_string(&mut args, u32_to_string(copies));
    push_arg(&mut args, "-o");
    push_arg(&mut args, "fit-to-page=false");
    push_arg(&mut args, "-o");
    push_arg(&mut args, "scaling=100");
    let ghost base = arg_views(args@);
    proof {
        assert(base =~= seq![
            "-n"@,
            dec_seq(copies as nat),
            "-o"@,
            "fit-to-page=false"@,
            "-o"@,
            "scaling=100"@,
        ]);
    }
    match printer {
        Some(p) => {
            if lower_contains(p, "epson") {
                push_arg(&mut args, "-o");
                push_arg(&mut args, "Resolution=1200x1200dpi");
                push_arg(&mut args, "-o");
                push_arg(&mut args, "EPIJ_Qual=307");
                push_arg(&mut args, "-o");
                push_arg(&mut args, "EPIJ_Medi=12");
            } else if lower_contains(p, "hp") || lower_contains(p, "laserjet") {
                push_arg(&mut args, "-o");
                push_arg(&mut args, "MediaType=labels");
            } else {
                push_arg(&mut args, "-o");
                push_arg(&mut args, "print-quality=5");
            }
            proof {
                assert(arg_views(args@) =~= base + vendor_args_spec(p@));
            }
            push_arg(&mut args, "-d");
            push_arg(&mut args, p);
            proof {
                assert(arg_views(args@) =~= base + vendor_args_spec(p@) + seq!["-d"@, p@]);
            }
        },
        None => {},
    }
    push_arg(&mut args, pdf_path);
    proof {
        assert(arg_views(args@) =~= spool_args_spec(
            pdf_path@,
            match printer {
                Some(p) => Some(p@),
                None => None,
            },
            copies,
        ));
    }
    args
}

/// The command line for the generic printing tool: route to the named
/// printer or the system default, exact copies with scaling off, and
/// run silently. Routing to the default repeats the flag, as the
/// engine has always emitted it.
pub open spec fn generic_tool_args_spec(pdf_path: Seq<char>, printer: Option<Seq<char>>, copies: u32)
    -> Seq<Seq<char>> {
    let route = match printer {
        Some(p) => seq!["-print-to"@, p],
        None => seq!["-print-to-default"@, "-print-to-default"@],
    };
    route + seq![
        "-print-settings"@,
        dec_seq(copies as nat) + "x,noscale"@,
        "-silent"@,
        pdf_path,
    ]
}

/// Builds the generic tool's command line.
pub fn build_generic_tool_args(pdf_path: &str, printer: Option<&str>, copies: u32) -> (r: Vec<
    String,
>)
    ensures
        arg_views(r@) == generic_tool_args_spec(
            pdf_path@,
            match printer {
                Some(p) => Some(p@),
                None => None,
            },
            copies,
        ),
{
    let mut args: Vec<String> = Vec::new();
    match printer {
        Some(p) => {
            push_arg(&mut args, "-print-to");
            push_arg(&mut args, p);
        },
        None => {
            push_arg(&mut args, "-print-to-default");
            push_arg(&mut args, "-print-to-default");
        },
    }
    push_arg(&mut args, "-print-settings");
    push_arg_string(&mut args, u32_to_string(copies).concat("x,noscale"));
    push_arg(&mut args, "-silent");
    push_arg(&mut args, pdf_path);
    proof {
        assert(arg_views(args@) =~= generic_tool_args_spec(
            pdf_path@,
            match printer {
                Some(p) => Some(p@),
                None => None,
            },
            copies,
        ));
    }
    args
}

/// The command line that rasterises the document to an uncompressed
/// bitmap at the target resolution with anti-aliasing, writing to
/// `png_path`.
pub open spec fn render_args_spec(pdf_path: Seq<char>, png_path: Seq<char>) -> Seq<Seq<char>> {
    seq![
        "-dBATCH"@,
        "-dNOPAUSE"@,
        "-dNOSAFER"@,
        "-sDEVICE=png16m"@,
        "-r600"@,
        "-dTextAlphaBits=4"@,
        "-dGraphicsAlphaBits=4"@,
        "-sOutputFile="@ + png_path,
        pdf_path,
    ]
}

/// Builds the rasteriser's command line.
pub fn build_render_args(pdf_path: &str, png_path: &str) -> (r: Vec<String>)
    ensures
        arg_views(r@) == render_args_spec(pdf_path@, png_path@),
{
    let mut args: Vec<String> = Vec::new();
    push_arg(&mut args, "-dBATCH");
    push_arg(&mut args, "-dNOPAUSE");
    push_arg(&mut args, "-dNOSAFER");
    push_arg(&mut args, "-sDEVICE=png16m");
    push_arg(&mut args, "-r600");
    push_arg(&mut args, "-dTextAlphaBits=4");
    push_arg(&mut args, "-dGraphicsAlphaBits=4");
    push_arg_string(&mut args, String::from_str("-sOutputFile=").concat(png_path));
    push_arg(&mut args, pdf_path);
    proof {
        assert(arg_views(args@) =~= render_args_spec(pdf_path@, png_path@));
    }
    args
}

/// Reads the OS spool command's exit: the job was issued exactly when
/// the command succeeded; a spool failure is fatal to the job and is
/// surfaced to the submitter.
pub fn classify_spool_exit(status_success: bool) -> (r: Result<(), String>)
    ensures
        r is Ok <==> status_success,
        r matches Err(m) ==> m@ == "lp print command failed"@,
{
    if status_success {
        Ok(())
    } else {
        Err(String::from_str("lp print command failed"))
    }
}

/// The scratch name the rendered bitmap is written under, derived
/// from a fresh identifier.
pub fn render_output_name(id: &str) -> (r: String)
    ensures
        r@ == "print_"@ + id@ + ".png"@,
{
    String::from_str("print_").concat(id).concat(".png")
}

/// One print job as dispatched: the document, the requested route,
/// and the identifier returned to the submitter.
pub struct PrintJob {
    /// The document bytes; they must outlive the asynchronous print
    /// call, so the job owns them.
    pub pdf: Vec<u8>,
    /// The requested printer, or the system default when absent.
    pub printer: Option<String>,
    /// The number of copies, at least one.
    pub copies: u32,
    /// The identifier handed back to the submitter.
    pub job_id: String,
}

/// Relies on uuid::Uuid::new_v4 and its hyphenated display form,
/// which is always 36 characters.
#[verifier::external_body]
fn new_job_id() -> (r: String)
    ensures
        r@.len() == 36,
{
    uuid::Uuid::new_v4().to_string()
}

/// Opens a print job for a submitted document: reads the optional
/// copies field, keeps the requested route, and draws a fresh job
/// identifier. A job always asks for at least one copy.
pub fn make_print_job(pdf: Vec<u8>, printer: Option<String>, copies_text: Option<&str>) -> (r:
    PrintJob)
    ensures
        r.pdf@ == pdf@,
        r.printer == printer,
        ({
            let asked = effective_copies_spec(
                match copies_text {
                    Some(t) => Some(t@),
                    None => None,
                },
            );
            r.copies == if asked == 0 {
                1u32
            } else {
                asked
            }
        }),
        r.copies >= 1,
        r.job_id@.len() == 36,
{
    let asked = effective_copies(copies_text);
    let copies = if asked == 0 {
        1
    } else {
        asked
    };
    let job_id = new_job_id();
    PrintJob { pdf, printer, copies, job_id }
}

} // verus!
