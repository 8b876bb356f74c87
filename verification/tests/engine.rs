//! Dispatch engine, raster preparation, device profile codec and
//! provisioner behaviour on concrete inputs.

use print_helper::dispatch::{
    build_generic_tool_args, build_render_args, build_spool_args, effective_copies,
    make_print_job, select_backend, Backend,
};
use print_helper::profile::{configure_profile, DeviceProfile};
use print_helper::provision::{
    ghostscript_candidate_paths, select_existing, InstallerAction, InstallerPhase, InstallerPoll,
    InstallerWait,
};
use print_helper::raster::{page_layout, rgb_to_bgr_padded};

fn strs(v: &[&str]) -> Vec<String> {
    v.iter().map(|s| s.to_string()).collect()
}

#[test]
fn copies_omitted_means_one() {
    assert_eq!(effective_copies(None), 1);
}

#[test]
fn copies_field_parsed_or_defaulted() {
    assert_eq!(effective_copies(Some("3")), 3);
    assert_eq!(effective_copies(Some("+12")), 12);
    assert_eq!(effective_copies(Some("abc")), 1);
    assert_eq!(effective_copies(Some("")), 1);
    assert_eq!(effective_copies(Some("4294967295")), 4294967295);
    assert_eq!(effective_copies(Some("4294967296")), 1);
    assert_eq!(effective_copies(Some("-2")), 1);
}

#[test]
fn backend_fallback_chain() {
    assert!(matches!(select_backend(true, true), Backend::HighFidelity));
    assert!(matches!(select_backend(true, false), Backend::HighFidelity));
    assert!(matches!(select_backend(false, true), Backend::Generic));
    assert!(matches!(select_backend(false, false), Backend::OsDefault));
}

#[test]
fn job_for_unspecified_printer_and_three_copies() {
    let pdf = vec![0x25u8, 0x50, 0x44, 0x46];
    let job = make_print_job(pdf.clone(), None, Some("3"));
    assert_eq!(job.pdf, pdf);
    assert!(job.printer.is_none());
    assert_eq!(job.copies, 3);
    assert_eq!(job.job_id.len(), 36);
}

#[test]
fn job_ids_are_fresh() {
    let a = make_print_job(vec![1], None, None);
    let b = make_print_job(vec![1], None, None);
    assert_ne!(a.job_id, b.job_id);
}

#[test]
fn spool_args_for_inkjet_family() {
    let args = build_spool_args("/tmp/doc.pdf", Some("EPSON ET-3830 Series"), 2);
    assert_eq!(
        args,
        strs(&[
            "-n",
            "2",
            "-o",
            "fit-to-page=false",
            "-o",
            "scaling=100",
            "-o",
            "Resolution=1200x1200dpi",
            "-o",
            "EPIJ_Qual=307",
            "-o",
            "EPIJ_Medi=12",
            "-d",
            "EPSON ET-3830 Series",
            "/tmp/doc.pdf",
        ])
    );
}

#[test]
fn spool_args_for_laser_family() {
    let args = build_spool_args("/tmp/doc.pdf", Some("HP LaserJet 4000"), 1);
    assert_eq!(
        args,
        strs(&[
            "-n",
            "1",
            "-o",
            "fit-to-page=false",
            "-o",
            "scaling=100",
            "-o",
            "MediaType=labels",
            "-d",
            "HP LaserJet 4000",
            "/tmp/doc.pdf",
        ])
    );
}

#[test]
fn spool_args_for_other_vendor() {
    let args = build_spool_args("/tmp/doc.pdf", Some("Brother MFC"), 1);
    assert_eq!(
        args,
        strs(&[
            "-n",
            "1",
            "-o",
            "fit-to-page=false",
            "-o",
            "scaling=100",
            "-o",
            "print-quality=5",
            "-d",
            "Brother MFC",
            "/tmp/doc.pdf",
        ])
    );
}

#[test]
fn spool_args_without_printer() {
    let args = build_spool_args("/tmp/doc.pdf", None, 1);
    assert_eq!(
        args,
        strs(&["-n", "1", "-o", "fit-to-page=false", "-o", "scaling=100", "/tmp/doc.pdf"])
    );
}

#[test]
fn generic_tool_args_with_printer() {
    let args = build_generic_tool_args("doc.pdf", Some("Front Desk"), 4);
    assert_eq!(
        args,
        strs(&["-print-to", "Front Desk", "-print-settings", "4x,noscale", "-silent", "doc.pdf"])
    );
}

#[test]
fn generic_tool_args_default_printer() {
    let args = build_generic_tool_args("doc.pdf", None, 1);
    assert_eq!(
        args,
        strs(&[
            "-print-to-default",
            "-print-to-default",
            "-print-settings",
            "1x,noscale",
            "-silent",
            "doc.pdf",
        ])
    );
}

#[test]
fn render_args_exact() {
    let args = build_render_args("in.pdf", "out.png");
    assert_eq!(
        args,
        strs(&[
            "-dBATCH",
            "-dNOPAUSE",
            "-dNOSAFER",
            "-sDEVICE=png16m",
            "-r600",
            "-dTextAlphaBits=4",
            "-dGraphicsAlphaBits=4",
            "-sOutputFile=out.png",
            "in.pdf",
        ])
    );
}

fn sample_block(len: usize) -> Vec<u8> {
    (0..len).map(|i| (i % 251) as u8).collect()
}

#[test]
fn profile_roundtrip_preserves_block() {
    let raw = sample_block(220);
    let p = DeviceProfile::parse(raw.clone()).unwrap();
    assert_eq!(p.serialize(), raw);
}

#[test]
fn profile_too_small_rejected() {
    assert!(DeviceProfile::parse(sample_block(199)).is_none());
    assert!(configure_profile(sample_block(100), 1).is_none());
}

#[test]
fn configure_profile_sets_target_fields() {
    let raw = sample_block(220);
    let out = configure_profile(raw.clone(), 3).unwrap();
    assert_eq!(out.len(), raw.len());
    // copies, little-endian
    assert_eq!(&out[86..88], &[3, 0]);
    // print quality and vertical resolution: 600
    assert_eq!(&out[90..92], &[0x58, 0x02]);
    assert_eq!(&out[96..98], &[0x58, 0x02]);
    // media type: 258
    assert_eq!(&out[196..200], &[2, 1, 0, 0]);
    // field-selection mask ored with the four field bits
    let orig = u32::from_le_bytes([raw[72], raw[73], raw[74], raw[75]]);
    let got = u32::from_le_bytes([out[72], out[73], out[74], out[75]]);
    assert_eq!(got, orig | 0x0800_2500);
    // vendor-private bytes pass through
    assert_eq!(&out[0..72], &raw[0..72]);
    assert_eq!(&out[76..86], &raw[76..86]);
    assert_eq!(&out[88..90], &raw[88..90]);
    assert_eq!(&out[92..96], &raw[92..96]);
    assert_eq!(&out[98..196], &raw[98..196]);
    assert_eq!(&out[200..], &raw[200..]);
}

#[test]
fn configure_profile_idempotent() {
    let raw = sample_block(256);
    let once = configure_profile(raw, 5).unwrap();
    let twice = configure_profile(once.clone(), 5).unwrap();
    assert_eq!(twice, once);
}

#[test]
fn layout_actual_size_centred() {
    let l = page_layout(600, 1200, 4958, 7017, 300, 300);
    assert_eq!(l.print_width, 300);
    assert_eq!(l.print_height, 600);
    assert_eq!(l.dest_x, (4958 - 300) / 2);
    assert_eq!(l.dest_y, (7017 - 600) / 2);
}

#[test]
fn layout_oversized_image_clips_symmetrically() {
    let l = page_layout(600, 600, 100, 100, 600, 600);
    assert_eq!(l.print_width, 600);
    assert_eq!(l.dest_x, -250);
    assert_eq!(l.dest_y, -250);
}

#[test]
fn bgr_conversion_reorders_and_pads() {
    // two-by-two image, one byte triple per pixel, red green blue
    let rgb = vec![
        1, 2, 3, // pixel (0,0)
        4, 5, 6, // pixel (1,0)
        7, 8, 9, // pixel (0,1)
        10, 11, 12, // pixel (1,1)
    ];
    let out = rgb_to_bgr_padded(&rgb, 2, 2);
    // row size: three bytes per pixel rounded up to four
    assert_eq!(out.len(), 16);
    assert_eq!(&out[0..8], &[3, 2, 1, 6, 5, 4, 0, 0]);
    assert_eq!(&out[8..16], &[9, 8, 7, 12, 11, 10, 0, 0]);
}

#[test]
fn probe_order_starts_local_and_covers_versions() {
    let c = ghostscript_candidate_paths("/data/app/tools/gs", "/pf", "/pf86");
    assert_eq!(c.len(), 2 + 2 * 9 * 2);
    assert_eq!(c[0], "/data/app/tools/gs/bin/gswin64c.exe");
    assert_eq!(c[1], "/data/app/tools/gs/gs10.04.0/bin/gswin64c.exe");
    assert_eq!(c[2], "/pf/gs/gs10.04.0/bin/gswin64c.exe");
    assert_eq!(c[3], "/pf/gs/gs10.04.0/bin/gswin32c.exe");
    assert_eq!(c[20], "/pf86/gs/gs10.04.0/bin/gswin64c.exe");
    assert_eq!(c[37], "/pf86/gs/gs9.55.0/bin/gswin32c.exe");
}

#[test]
fn first_existing_candidate_wins() {
    let cands: Vec<String> = vec!["a".into(), "b".into(), "c".into()];
    let found = select_existing(&cands, &vec![false, true, true]);
    assert_eq!(found, Some("b".to_string()));
    assert_eq!(select_existing(&cands, &vec![false, false, false]), None);
}

#[test]
fn installer_wait_completes_on_exit() {
    let mut w = InstallerWait::start(120);
    assert!(matches!(w.phase, InstallerPhase::Starting));
    w.child_spawned();
    assert!(matches!(w.phase, InstallerPhase::Running));
    let a = w.on_poll(InstallerPoll::StillRunning);
    assert!(matches!(a, InstallerAction::SleepAndPoll));
    assert_eq!(w.elapsed_secs, 1);
    let a = w.on_poll(InstallerPoll::Exited);
    assert!(matches!(a, InstallerAction::Proceed));
    assert!(matches!(w.phase, InstallerPhase::Completed));
}

#[test]
fn installer_wait_kills_after_timeout() {
    let mut w = InstallerWait::start(120);
    w.child_spawned();
    w.elapsed_secs = 121;
    let a = w.on_poll(InstallerPoll::StillRunning);
    assert!(matches!(a, InstallerAction::KillChild));
    assert!(matches!(w.phase, InstallerPhase::TimedOut));
}

#[test]
fn installer_wait_aborts_on_poll_failure() {
    let mut w = InstallerWait::start(120);
    w.child_spawned();
    let a = w.on_poll(InstallerPoll::PollFailed);
    assert!(matches!(a, InstallerAction::Abort));
    assert!(matches!(w.phase, InstallerPhase::Failed));
}

#[test]
fn submit_two_page_pdf_scenario() {
    // a submission with the printer unspecified and three copies: the
    // engine picks the default route, prefers the high-fidelity path
    // and falls back to the generic tool when its renderer is absent
    let pdf = vec![0x25u8; 2048];
    let job = make_print_job(pdf, None, Some("3"));
    assert!(job.printer.is_none());
    assert_eq!(job.copies, 3);
    assert!(matches!(select_backend(true, true), Backend::HighFidelity));
    assert!(matches!(select_backend(false, true), Backend::Generic));
    let (status, body) =
        print_helper::requests::dispatch_response(Ok(job.job_id.clone()));
    assert!(matches!(status, print_helper::requests::StatusClass::Success));
    assert!(body.success);
    assert_eq!(body.job_id.unwrap().len(), 36);
    assert!(body.error.is_none());
}

#[test]
fn render_scratch_name_built() {
    assert_eq!(
        print_helper::dispatch::render_output_name("0f8fad5b-d9cb-469f-a165-70867728950e"),
        "print_0f8fad5b-d9cb-469f-a165-70867728950e.png"
    );
}

#[test]
fn installer_arguments_built() {
    let args = print_helper::provision::installer_args("/data/tools/gs");
    assert_eq!(args, vec!["/S".to_string(), "/D=/data/tools/gs".to_string()]);
}

#[test]
fn path_probe_reads_first_line() {
    assert_eq!(
        print_helper::provision::first_line_trimmed("/usr/bin/gs\r\n/opt/gs\n"),
        "/usr/bin/gs"
    );
    assert_eq!(print_helper::provision::first_line_trimmed("  lone  "), "lone");
    assert_eq!(print_helper::provision::first_line_trimmed(""), "");
}

#[test]
fn job_copies_never_below_one() {
    let job = make_print_job(vec![1], None, Some("0"));
    assert_eq!(job.copies, 1);
}

#[test]
fn spool_exit_classified() {
    assert!(print_helper::dispatch::classify_spool_exit(true).is_ok());
    assert_eq!(
        print_helper::dispatch::classify_spool_exit(false).err().unwrap(),
        "lp print command failed"
    );
}
