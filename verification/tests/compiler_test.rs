use std::path::PathBuf;
use std::time::Duration;

use cv_writer_mcp::compiler::{
    pass_outcome, CompileAction, LatexCompiler, CompileEvent, CompileJob, CompileResult, CompileStage, CompilerError, PassReport,
};

fn ok_pass(out: &[u8]) -> PassReport {
    PassReport::Exited { success: true, exit_code: Some(0), stdout: out.to_vec(), stderr: vec![] }
}

fn is_pass(action: &CompileAction) -> bool {
    match action {
        CompileAction::RunPass { program, args } => {
            program == &PathBuf::from("lualatex") && args == &vec!["-interaction=nonstopmode", "-halt-on-error", "document.tex"]
        },
        _ => false,
    }
}

fn through_passes() -> CompileJob {
    let (job, action) = CompileJob::start(Duration::from_secs(5), PathBuf::from("lualatex"), "\\documentclass{article}".to_string());
    assert!(matches!(action, CompileAction::Prepare { ref file_name, ref source }
        if file_name == "document.tex" && source == "\\documentclass{article}"));
    let (job, action) = job.step(CompileEvent::Prepared(Ok(())));
    assert!(is_pass(&action));
    let (job, action) = job.step(CompileEvent::PassFinished(ok_pass(b"first")));
    assert!(is_pass(&action));
    assert_eq!(job.stage, CompileStage::SecondPass { first_log: "first".to_string() });
    let (job, action) = job.step(CompileEvent::PassFinished(ok_pass(b"second")));
    assert!(matches!(action, CompileAction::ReadPdf { ref file_name } if file_name == "document.pdf"));
    job
}

#[test]
fn compile_runs_two_passes_then_reads_pdf() {
    let job = through_passes();
    assert_eq!(
        job.stage,
        CompileStage::Reading { log: "--- PASS 1 LOG ---\nfirst\n--- PASS 2 LOG ---\nsecond".to_string() }
    );
    let (job, action) = job.step(CompileEvent::PdfRead(Some(Ok(b"%PDF-1.5".to_vec()))));
    assert_eq!(job.stage, CompileStage::Done);
    match action {
        CompileAction::Finish(Ok(CompileResult { pdf_bytes, log })) => {
            assert_eq!(&pdf_bytes[0..5], b"%PDF-");
            assert_eq!(log, "--- PASS 1 LOG ---\nfirst\n--- PASS 2 LOG ---\nsecond");
        },
        other => panic!("unexpected {:?}", other),
    }
}

#[test]
fn compile_missing_or_empty_pdf() {
    let (_, action) = through_passes().step(CompileEvent::PdfRead(None));
    assert!(matches!(action, CompileAction::Finish(Err(CompilerError::PdfMissing))));
    let (_, action) = through_passes().step(CompileEvent::PdfRead(Some(Ok(vec![]))));
    assert!(matches!(action, CompileAction::Finish(Err(CompilerError::PdfMissing))));
    let (_, action) = through_passes()
        .step(CompileEvent::PdfRead(Some(Err(std::io::Error::new(std::io::ErrorKind::Other, "disk")))));
    assert!(matches!(action, CompileAction::Finish(Err(CompilerError::Io(_)))));
}

#[test]
fn compile_stops_at_first_failure() {
    let (job, _) = CompileJob::start(Duration::from_secs(5), PathBuf::from("lualatex"), String::new());
    let (job, action) =
        job.step(CompileEvent::Prepared(Err(std::io::Error::new(std::io::ErrorKind::PermissionDenied, "no"))));
    assert_eq!(job.stage, CompileStage::Done);
    assert!(matches!(action, CompileAction::Finish(Err(CompilerError::Io(_)))));

    let (job, _) = CompileJob::start(Duration::from_secs(5), PathBuf::from("lualatex"), String::new());
    let (job, _) = job.step(CompileEvent::Prepared(Ok(())));
    let (job, action) = job.step(CompileEvent::PassFinished(PassReport::TimedOut));
    assert_eq!(job.stage, CompileStage::Done);
    match action {
        CompileAction::Finish(Err(CompilerError::Timeout(d))) => assert_eq!(d, Duration::from_secs(5)),
        other => panic!("unexpected {:?}", other),
    }
}

#[test]
fn compile_second_pass_failure() {
    let (job, _) = CompileJob::start(Duration::from_secs(60), PathBuf::from("lualatex"), String::new());
    let (job, _) = job.step(CompileEvent::Prepared(Ok(())));
    let (job, _) = job.step(CompileEvent::PassFinished(ok_pass(b"one")));
    let (job, action) = job.step(CompileEvent::PassFinished(PassReport::Exited {
        success: false,
        exit_code: Some(1),
        stdout: b"! Undefined control sequence.".to_vec(),
        stderr: b"".to_vec(),
    }));
    assert_eq!(job.stage, CompileStage::Done);
    match action {
        CompileAction::Finish(Err(CompilerError::ExecutionFailed { exit_code, stdout, stderr })) => {
            assert_eq!(exit_code, Some(1));
            assert_eq!(stdout, "! Undefined control sequence.");
            assert_eq!(stderr, "");
        },
        other => panic!("unexpected {:?}", other),
    }
}

#[test]
fn pass_outcome_cases() {
    let t = Duration::from_secs(60);
    assert_eq!(pass_outcome(ok_pass(b"Output written"), t).unwrap(), "Output written");
    assert_eq!(pass_outcome(ok_pass(&[0x66, 0xff, 0x67]), t).unwrap(), "f\u{FFFD}g");
    match pass_outcome(PassReport::Exited { success: false, exit_code: None, stdout: vec![], stderr: b"killed".to_vec() }, t) {
        Err(CompilerError::ExecutionFailed { exit_code: None, stdout, stderr }) => {
            assert_eq!(stdout, "");
            assert_eq!(stderr, "killed");
        },
        other => panic!("unexpected {:?}", other),
    }
    assert!(matches!(pass_outcome(PassReport::TimedOut, t), Err(CompilerError::Timeout(d)) if d == t));
    assert!(matches!(
        pass_outcome(PassReport::SpawnFailed(std::io::Error::new(std::io::ErrorKind::NotFound, "x")), t),
        Err(CompilerError::Io(_))
    ));
}

#[test]
fn compiler_from_lookup_and_settings() {
    if let Ok(c) = LatexCompiler::new() {
        let path = c.binary_path().clone();
        let c = c.with_timeout(Duration::from_millis(1500));
        assert_eq!(c.timeout(), Duration::from_millis(1500));
        assert_eq!(c.binary_path(), &path);
        assert_eq!(c.program(), "lualatex");
        let (job, action) = c.start_compile("x".to_string());
        assert_eq!(job, CompileJob { timeout: Duration::from_millis(1500), program: path, stage: CompileStage::Preparing });
        assert!(matches!(action, CompileAction::Prepare { ref source, .. } if source == "x"));
    }
    assert!(matches!(
        LatexCompiler::from_lookup(Err(which::Error::CannotFindBinaryPath)),
        Err(CompilerError::LuaLatexNotFound)
    ));
}

#[test]
fn new_compiler_looks_up_lualatex() {
    match LatexCompiler::new() {
        Ok(c) => {
            assert_eq!(c.program(), "lualatex");
            assert_eq!(c.timeout(), Duration::from_secs(60));
        },
        Err(e) => assert!(matches!(e, CompilerError::LuaLatexNotFound)),
    }
}
