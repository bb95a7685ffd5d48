//! The LuaLaTeX compiler: its settings, its errors, and the decisions of a compile run.
//!
//! The run itself (a private temporary directory, the `lualatex` processes, the file
//! reads and writes) is performed by the caller; [`CompileJob`] says, after each
//! outcome, what is to be done next and what the run finally returns.
use vstd::prelude::*;
use std::path::PathBuf;
use std::time::Duration;
use crate::json::text;
use crate::lookup::{FoundBinary, which_binary};

verus! {

/// `std::io::Error`, carried through unopened.
#[verifier::external_type_specification]
#[verifier::external_body]
pub struct ExIoError(std::io::Error);

/// The duration of `secs` whole seconds, as `Duration::from_secs` makes it.
pub uninterp spec fn secs_duration(secs: u64) -> Duration;

/// `Duration::from_secs`: the same number of seconds always gives the same duration.
pub assume_specification[ core::time::Duration::from_secs ](secs: u64) -> (d: Duration)
    ensures
        d == secs_duration(secs),
;

/// The text that `String::from_utf8_lossy` makes of some bytes.
pub uninterp spec fn utf8_lossy(bytes: Seq<u8>) -> Seq<char>;

/// `String::from_utf8_lossy`: the result depends on the bytes alone, and valid UTF-8 is
/// decoded as it is. What replaces invalid sequences is not stated.
#[verifier::external_body]
fn lossy_text(bytes: &[u8]) -> (r: String)
    ensures
        r@ == utf8_lossy(bytes@),
        vstd::utf8::valid_utf8(bytes@) ==> r@ == vstd::utf8::decode_utf8(bytes@),
{
    String::from_utf8_lossy(bytes).into_owned()
}

/// Why a compile run failed.
#[derive(Debug)]
pub enum CompilerError {
    /// `lualatex` is not on the `PATH`.
    LuaLatexNotFound,
    /// A pass did not finish within the time limit.
    Timeout(Duration),
    /// A file or process operation failed.
    Io(std::io::Error),
    /// A pass ended with a failing exit status.
    ExecutionFailed { exit_code: Option<i32>, stdout: String, stderr: String },
    /// No PDF, or an empty one, was produced.
    PdfMissing,
}

/// A finished compile run.
#[derive(Clone, Debug, PartialEq)]
pub struct CompileResult {
    /// PDF binary bytes
    pub pdf_bytes: Vec<u8>,
    /// Stdout and Stderr diagnostics from lualatex
    pub log: String,
}

/// The `lualatex` executable and the time limit of one pass.
pub struct LatexCompiler {
    binary: FoundBinary,
    timeout_duration: Duration,
}

impl LatexCompiler {
    /// The time limit of one pass.
    pub closed spec fn timeout_of(self) -> Duration {
        self.timeout_duration
    }

    /// The `lualatex` executable.
    pub closed spec fn binary_of(self) -> PathBuf {
        self.binary.path_of()
    }

    /// The name of the program whose lookup gave the executable.
    pub closed spec fn program_of(self) -> String {
        self.binary.program_of()
    }

    /// A compiler for the executable that a lookup found, with a time limit of 60 seconds;
    /// `LuaLatexNotFound` where the lookup failed.
    pub fn from_lookup(found: Result<FoundBinary, which::Error>) -> (r: Result<LatexCompiler, CompilerError>)
        ensures
            match found {
                Ok(f) => {
                    &&& r matches Ok(c)
                    &&& c.binary_of() == f.path_of()
                    &&& c.program_of() == f.program_of()
                    &&& c.timeout_of() == secs_duration(60)
                },
                Err(_) => r matches Err(e) && e is LuaLatexNotFound,
            },
    {
        match found {
            Ok(binary) => Ok(LatexCompiler { binary, timeout_duration: Duration::from_secs(60) }),
            Err(_) => Err(CompilerError::LuaLatexNotFound),
        }
    }

    /// Looks `lualatex` up on the `PATH`: the compiler runs what was found, with a time
    /// limit of 60 seconds; `LuaLatexNotFound` where nothing was found.
    pub fn new() -> (r: Result<LatexCompiler, CompilerError>)
        ensures
            match r {
                Ok(c) => c.program_of()@ == "lualatex"@ && c.timeout_of() == secs_duration(60),
                Err(e) => e is LuaLatexNotFound,
            },
    {
        LatexCompiler::from_lookup(which_binary("lualatex"))
    }

    /// The same compiler with another time limit.
    pub fn with_timeout(self, timeout: Duration) -> (r: LatexCompiler)
        ensures
            r.timeout_of() == timeout,
            r.binary_of() == self.binary_of(),
            r.program_of() == self.program_of(),
    {
        LatexCompiler { binary: self.binary, timeout_duration: timeout }
    }

    /// The name of the program that was looked up.
    pub fn program(&self) -> (p: &String)
        ensures
            *p == self.program_of(),
    {
        self.binary.program()
    }

    /// The time limit of one pass.
    pub fn timeout(&self) -> (d: Duration)
        ensures
            d == self.timeout_of(),
    {
        self.timeout_duration
    }

    /// The `lualatex` executable.
    pub fn binary_path(&self) -> (p: &PathBuf)
        ensures
            *p == self.binary_of(),
    {
        self.binary.path()
    }

    /// Starts a compile run of `latex_source` with this compiler's executable and time limit.
    pub fn start_compile(&self, latex_source: String) -> (r: (CompileJob, CompileAction))
        ensures
            r.0 == (CompileJob {
                timeout: self.timeout_of(),
                program: self.binary_of(),
                stage: CompileStage::Preparing,
            }),
            is_prepare(r.1, latex_source),
    {
        CompileJob::start(self.timeout_duration, self.binary.path().clone(), latex_source)
    }
}

/// How one `lualatex` pass ended.
#[derive(Debug)]
pub enum PassReport {
    /// The process could not be started or waited for.
    SpawnFailed(std::io::Error),
    /// The process did not finish within the time limit.
    TimedOut,
    /// The process exited.
    Exited { success: bool, exit_code: Option<i32>, stdout: Vec<u8>, stderr: Vec<u8> },
}

/// Whether `r` is what a pass that ended as `report` yields: its standard output where it
/// exited successfully, and otherwise the error that ends the run.
pub open spec fn pass_yields(report: PassReport, timeout: Duration, r: Result<String, CompilerError>) -> bool {
    match report {
        PassReport::SpawnFailed(e) => r == Err::<String, CompilerError>(CompilerError::Io(e)),
        PassReport::TimedOut => r == Err::<String, CompilerError>(CompilerError::Timeout(timeout)),
        PassReport::Exited { success, exit_code, stdout, stderr } => if success {
            r matches Ok(out) && out@ == utf8_lossy(stdout@)
        } else {
            r matches Err(CompilerError::ExecutionFailed { exit_code: c, stdout: o, stderr: e })
                && c == exit_code && o@ == utf8_lossy(stdout@) && e@ == utf8_lossy(stderr@)
        },
    }
}

/// Whether the pass exited with a successful status.
pub open spec fn pass_succeeds(report: PassReport) -> bool {
    report matches PassReport::Exited { success, .. } && success
}

/// The standard output of a pass, as text.
pub open spec fn pass_output(report: PassReport) -> Seq<char> {
    match report {
        PassReport::Exited { stdout, .. } => utf8_lossy(stdout@),
        _ => Seq::empty(),
    }
}

/// What one pass yields: its standard output, or the error that ends the run.
pub fn pass_outcome(report: PassReport, timeout: Duration) -> (r: Result<String, CompilerError>)
    ensures
        pass_yields(report, timeout, r),
{
    match report {
        PassReport::SpawnFailed(e) => Err(CompilerError::Io(e)),
        PassReport::TimedOut => Err(CompilerError::Timeout(timeout)),
        PassReport::Exited { success, exit_code, stdout, stderr } => {
            let out = lossy_text(stdout.as_slice());
            if success {
                Ok(out)
            } else {
                let err = lossy_text(stderr.as_slice());
                Err(CompilerError::ExecutionFailed { exit_code, stdout: out, stderr: err })
            }
        },
    }
}

/// The log of a run: the standard output of both passes, each under a heading.
pub open spec fn combined_log(first: Seq<char>, second: Seq<char>) -> Seq<char> {
    "--- PASS 1 LOG ---\n"@ + first + "\n--- PASS 2 LOG ---\n"@ + second
}

fn combine_logs(first: &str, second: &str) -> (r: String)
    ensures
        r@ == combined_log(first@, second@),
{
    let mut r = text("--- PASS 1 LOG ---\n");
    r.append(first);
    r.append("\n--- PASS 2 LOG ---\n");
    r.append(second);
    r
}

/// Where a compile run stands.
#[derive(Clone, Debug, PartialEq)]
pub enum CompileStage {
    /// Waiting for the private directory and `document.tex`.
    Preparing,
    /// Waiting for the first pass.
    FirstPass,
    /// Waiting for the second pass, which resolves cross-references and page counts.
    SecondPass { first_log: String },
    /// Waiting for `document.pdf`.
    Reading { log: String },
    /// The run has ended.
    Done,
}

/// A compile run in progress.
#[derive(Debug, PartialEq)]
pub struct CompileJob {
    pub timeout: Duration,
    /// The `lualatex` executable that each pass runs.
    pub program: PathBuf,
    pub stage: CompileStage,
}

/// What happened since the last action.
#[derive(Debug)]
pub enum CompileEvent {
    /// The private directory was made and the source written into `document.tex`, or not.
    Prepared(Result<(), std::io::Error>),
    /// A pass ended.
    PassFinished(PassReport),
    /// `document.pdf`: `None` where it does not exist, else what reading it gave.
    PdfRead(Option<Result<Vec<u8>, std::io::Error>>),
}

/// What is to be done next.
#[derive(Debug)]
pub enum CompileAction {
    /// Make a private temporary directory and write `source` into the file `file_name` there.
    Prepare { file_name: String, source: String },
    /// Run `program` once with `args` in that directory, with its standard output and
    /// error captured.
    RunPass { program: PathBuf, args: Vec<String> },
    /// Read the file `file_name` from that directory.
    ReadPdf { file_name: String },
    /// The run is over, with this result; the directory is to be removed.
    Finish(Result<CompileResult, CompilerError>),
}

/// The texts of a list of strings.
pub open spec fn texts_of(v: Seq<String>) -> Seq<Seq<char>> {
    v.map_values(|s: String| s@)
}

/// The arguments of every pass: no interaction, stop at the first error, `document.tex`.
pub open spec fn pass_arguments() -> Seq<Seq<char>> {
    seq!["-interaction=nonstopmode"@, "-halt-on-error"@, "document.tex"@]
}

/// Whether `a` writes `source` into `document.tex` in a fresh private directory.
pub open spec fn is_prepare(a: CompileAction, source: String) -> bool {
    a matches CompileAction::Prepare { file_name, source: s } && file_name@ == "document.tex"@ && s == source
}

/// Whether `a` runs `program` once with the pass arguments.
pub open spec fn is_pass(a: CompileAction, program: PathBuf) -> bool {
    a matches CompileAction::RunPass { program: p, args } && p == program && texts_of(args@)
        == pass_arguments()
}

/// Whether `a` reads `document.pdf`.
pub open spec fn is_pdf_read(a: CompileAction) -> bool {
    a matches CompileAction::ReadPdf { file_name } && file_name@ == "document.pdf"@
}

fn pass_args() -> (v: Vec<String>)
    ensures
        texts_of(v@) == pass_arguments(),
{
    let v = vec![text("-interaction=nonstopmode"), text("-halt-on-error"), text("document.tex")];
    assert(texts_of(v@) =~= pass_arguments());
    v
}

fn run_pass(program: &PathBuf) -> (a: CompileAction)
    ensures
        is_pass(a, *program),
{
    CompileAction::RunPass { program: program.clone(), args: pass_args() }
}

/// Whether `r` is the next job and action after `event` in `job`.
pub open spec fn compile_step_is(job: CompileJob, event: CompileEvent, r: (CompileJob, CompileAction)) -> bool {
    &&& r.0.timeout == job.timeout
    &&& r.0.program == job.program
    &&& match (job.stage, event) {
        (CompileStage::Preparing, CompileEvent::Prepared(Err(e))) => r.0.stage is Done
            && r.1 == CompileAction::Finish(Err(CompilerError::Io(e))),
        (CompileStage::Preparing, CompileEvent::Prepared(Ok(()))) => r.0.stage is FirstPass
            && is_pass(r.1, job.program),
        (CompileStage::FirstPass, CompileEvent::PassFinished(report)) => if pass_succeeds(report) {
            r.0.stage matches CompileStage::SecondPass { first_log }
                && first_log@ == pass_output(report) && is_pass(r.1, job.program)
        } else {
            &&& r.0.stage is Done
            &&& r.1 matches CompileAction::Finish(Err(e))
            &&& pass_yields(report, job.timeout, Err(e))
        },
        (CompileStage::SecondPass { first_log }, CompileEvent::PassFinished(report)) => if pass_succeeds(report) {
            r.0.stage matches CompileStage::Reading { log }
                && log@ == combined_log(first_log@, pass_output(report)) && is_pdf_read(r.1)
        } else {
            &&& r.0.stage is Done
            &&& r.1 matches CompileAction::Finish(Err(e))
            &&& pass_yields(report, job.timeout, Err(e))
        },
        (CompileStage::Reading { log }, CompileEvent::PdfRead(read)) => r.0.stage is Done
            && match read {
            None => r.1 == CompileAction::Finish(Err(CompilerError::PdfMissing)),
            Some(Err(e)) => r.1 == CompileAction::Finish(Err(CompilerError::Io(e))),
            Some(Ok(bytes)) => if bytes@.len() == 0 {
                r.1 == CompileAction::Finish(Err(CompilerError::PdfMissing))
            } else {
                r.1 == CompileAction::Finish(Ok(CompileResult { pdf_bytes: bytes, log }))
            },
        },
        _ => false,
    }
}

/// A run reads the PDF only after the second pass succeeded, runs the second pass only
/// after the first succeeded, and yields a PDF only from that read, never an empty one,
/// with the log of both passes.
pub proof fn compiled_pdf_follows_two_passes(job: CompileJob, event: CompileEvent, r: (CompileJob, CompileAction))
    requires
        job.expects(event),
        compile_step_is(job, event, r),
    ensures
        r.1 matches CompileAction::Finish(Ok(res)) ==> {
            &&& job.stage matches CompileStage::Reading { log }
            &&& res.pdf_bytes@.len() > 0
            &&& res.log == log
        },
        r.1 is ReadPdf ==> job.stage is SecondPass && pass_succeeds(event->PassFinished_0) && is_pdf_read(r.1),
        r.1 is RunPass ==> is_pass(r.1, job.program),
        r.1 is RunPass ==> job.stage is Preparing || (job.stage is FirstPass && pass_succeeds(
            event->PassFinished_0,
        )),
{
}


/// A run that yields a PDF yields exactly the bytes that were read from `document.pdf`,
/// all of them, with the log of both passes; and once a non-empty `document.pdf` has
/// been read, the run yields it.
pub proof fn compiled_pdf_is_the_file_read(job: CompileJob, event: CompileEvent, r: (CompileJob, CompileAction))
    requires
        job.expects(event),
        compile_step_is(job, event, r),
    ensures
        r.1 matches CompileAction::Finish(Ok(res)) ==> {
            &&& event matches CompileEvent::PdfRead(Some(Ok(bytes)))
            &&& res.pdf_bytes@ == bytes@
            &&& res.pdf_bytes@.len() == bytes@.len()
        },
        job.stage is Reading && (event matches CompileEvent::PdfRead(Some(Ok(bytes))) && bytes@.len() > 0)
            ==> (r.1 matches CompileAction::Finish(Ok(res)) && res.pdf_bytes@ == event->PdfRead_0->Some_0->Ok_0@
            && res.log == job.stage->Reading_log),
{
}

/// How many times a list of actions runs `lualatex`.
pub open spec fn count_passes(actions: Seq<CompileAction>) -> nat
    decreases actions.len(),
{
    if actions.len() == 0 {
        0
    } else {
        count_passes(actions.drop_last()) + if actions.last() is RunPass {
            1nat
        } else {
            0nat
        }
    }
}

/// Whether `jobs` and `actions` are what a run goes through when it starts and then gets
/// `events` one after the other: `jobs[i]` and `actions[i]` are the job and the action
/// after the first `i` events.
pub open spec fn compile_run(
    events: Seq<CompileEvent>,
    jobs: Seq<CompileJob>,
    actions: Seq<CompileAction>,
) -> bool {
    &&& jobs.len() == events.len() + 1
    &&& actions.len() == events.len() + 1
    &&& jobs[0].stage is Preparing
    &&& actions[0] is Prepare
    &&& forall|i: int|
        0 <= i < events.len() ==> jobs[i].expects(events[i]) && #[trigger] compile_step_is(
            jobs[i],
            events[i],
            (jobs[i + 1], actions[i + 1]),
        )
}

/// How many passes a run has started when it waits at `stage`.
pub open spec fn passes_started(stage: CompileStage) -> nat {
    match stage {
        CompileStage::Preparing => 0,
        CompileStage::FirstPass => 1,
        _ => 2,
    }
}

/// While a run waits, the actions so far have started exactly the passes that its stage
/// shows: none while preparing, one while waiting for the first, two afterwards.
pub proof fn passes_so_far(events: Seq<CompileEvent>, jobs: Seq<CompileJob>, actions: Seq<CompileAction>, k: int)
    requires
        compile_run(events, jobs, actions),
        0 <= k <= events.len(),
        !(jobs[k].stage is Done),
    ensures
        count_passes(actions.take(k + 1)) == passes_started(jobs[k].stage),
    decreases k,
{
    if k == 0 {
        assert(actions.take(1).drop_last() =~= Seq::<CompileAction>::empty());
        assert(count_passes(Seq::<CompileAction>::empty()) == 0);
        assert(actions.take(1).last() == actions[0]);
    } else {
        let i = k - 1;
        assert(compile_step_is(jobs[i], events[i], (jobs[i + 1], actions[i + 1])));
        assert(!(jobs[i].stage is Done));
        passes_so_far(events, jobs, actions, i);
        assert(actions.take(k + 1).drop_last() =~= actions.take(k));
        assert(actions.take(k + 1).last() == actions[k]);
        assert(count_passes(actions.take(k + 1)) == count_passes(actions.take(k)) + if actions[k] is RunPass {
            1nat
        } else {
            0nat
        });
        match (jobs[i].stage, events[i]) {
            (CompileStage::Preparing, _) => {
                assert(jobs[k].stage is FirstPass);
                assert(actions[k] is RunPass);
            },
            (CompileStage::FirstPass, CompileEvent::PassFinished(report)) => {
                assert(pass_succeeds(report));
                assert(jobs[k].stage is SecondPass);
                assert(actions[k] is RunPass);
            },
            (CompileStage::SecondPass { .. }, CompileEvent::PassFinished(report)) => {
                assert(pass_succeeds(report));
                assert(jobs[k].stage is Reading);
                assert(!(actions[k] is RunPass));
            },
            _ => {
                assert(false);
            },
        }
    }
}

/// Every job of a run runs the executable that the run started with.
proof fn run_keeps_program(events: Seq<CompileEvent>, jobs: Seq<CompileJob>, actions: Seq<CompileAction>, k: int)
    requires
        compile_run(events, jobs, actions),
        0 <= k <= events.len(),
    ensures
        jobs[k].program == jobs[0].program,
    decreases k,
{
    if k > 0 {
        run_keeps_program(events, jobs, actions, k - 1);
        let j = k - 1;
        assert(compile_step_is(jobs[j], events[j], (jobs[j + 1], actions[j + 1])));
    }
}

/// Every pass of a run runs the executable that the run started with, with the arguments
/// `-interaction=nonstopmode -halt-on-error document.tex`, and every read is of `document.pdf`.
pub proof fn passes_run_the_compiler(events: Seq<CompileEvent>, jobs: Seq<CompileJob>, actions: Seq<CompileAction>)
    requires
        compile_run(events, jobs, actions),
    ensures
        forall|i: int| 0 <= i < actions.len() && #[trigger] actions[i] is RunPass ==> is_pass(actions[i], jobs[0].program),
        forall|i: int| 0 <= i < actions.len() && #[trigger] actions[i] is ReadPdf ==> is_pdf_read(actions[i]),
{
    assert forall|i: int| 0 <= i < actions.len() && #[trigger] actions[i] is RunPass implies is_pass(
        actions[i],
        jobs[0].program,
    ) by {
        assert(i > 0);
        run_keeps_program(events, jobs, actions, i - 1);
        let j = i - 1;
        assert(compile_step_is(jobs[j], events[j], (jobs[j + 1], actions[j + 1])));
    }
    assert forall|i: int| 0 <= i < actions.len() && #[trigger] actions[i] is ReadPdf implies is_pdf_read(actions[i]) by {
        assert(i > 0);
        let j = i - 1;
        assert(compile_step_is(jobs[j], events[j], (jobs[j + 1], actions[j + 1])));
    }
}

/// No run starts more than two passes of `lualatex`.
pub proof fn run_starts_at_most_two_passes(
    events: Seq<CompileEvent>,
    jobs: Seq<CompileJob>,
    actions: Seq<CompileAction>,
)
    requires
        compile_run(events, jobs, actions),
    ensures
        count_passes(actions) <= 2,
{
    let n = events.len() as int;
    assert(actions.take(n + 1) =~= actions);
    if !(jobs[n].stage is Done) {
        passes_so_far(events, jobs, actions, n);
    } else {
        assert(n > 0);
        let i = n - 1;
        assert(compile_step_is(jobs[i], events[i], (jobs[i + 1], actions[i + 1])));
        passes_so_far(events, jobs, actions, i);
        assert(actions.drop_last() =~= actions.take(n));
        assert(actions[n] is Finish);
    }
}

/// A run that ends with a PDF has run `lualatex` exactly twice.
pub proof fn compiled_pdf_took_two_passes(
    events: Seq<CompileEvent>,
    jobs: Seq<CompileJob>,
    actions: Seq<CompileAction>,
)
    requires
        compile_run(events, jobs, actions),
        actions.last() matches CompileAction::Finish(Ok(_)),
    ensures
        count_passes(actions) == 2,
{
    let n = events.len() as int;
    assert(n > 0);
    let i = n - 1;
    assert(compile_step_is(jobs[i], events[i], (jobs[i + 1], actions[i + 1])));
    passes_so_far(events, jobs, actions, i);
    assert(actions.take(n + 1) =~= actions);
    assert(actions.drop_last() =~= actions.take(n));
}

/// The number of outcomes a run has had when it waits at `stage`.
spec fn outcomes_before(stage: CompileStage) -> int {
    match stage {
        CompileStage::Preparing => 0,
        CompileStage::FirstPass => 1,
        CompileStage::SecondPass { .. } => 2,
        _ => 3,
    }
}

/// A run waits after its `k`-th outcome at the stage that counts `k` outcomes, keeping the
/// output of the passes so far; it is done only after its last outcome.
proof fn run_stage_at(events: Seq<CompileEvent>, jobs: Seq<CompileJob>, actions: Seq<CompileAction>, k: int)
    requires
        compile_run(events, jobs, actions),
        0 <= k <= events.len(),
    ensures
        jobs[k].stage is Done ==> k == events.len(),
        !(jobs[k].stage is Done) ==> outcomes_before(jobs[k].stage) == k,
        k >= 2 ==> events[1] is PassFinished,
        k >= 3 ==> events[2] is PassFinished,
        jobs[k].stage matches CompileStage::SecondPass { first_log } ==> first_log@ == pass_output(
            events[1]->PassFinished_0,
        ),
        jobs[k].stage matches CompileStage::Reading { log } ==> log@ == combined_log(
            pass_output(events[1]->PassFinished_0),
            pass_output(events[2]->PassFinished_0),
        ),
    decreases k,
{
    if k < events.len() {
        assert(compile_step_is(jobs[k], events[k], (jobs[k + 1], actions[k + 1])));
    }
    if k > 0 {
        let i = k - 1;
        run_stage_at(events, jobs, actions, i);
        assert(compile_step_is(jobs[i], events[i], (jobs[i + 1], actions[i + 1])));
    }
}

/// A run that ends with a PDF has had exactly four outcomes: the private directory was
/// prepared, both passes succeeded, and `document.pdf` was read. The PDF is every byte
/// that was read, and the log opens with the first pass's output under its heading and
/// ends with the second pass's output.
pub proof fn compiled_run_result(events: Seq<CompileEvent>, jobs: Seq<CompileJob>, actions: Seq<CompileAction>)
    requires
        compile_run(events, jobs, actions),
        actions.last() matches CompileAction::Finish(Ok(_)),
    ensures
        events.len() == 4,
        events[0] matches CompileEvent::Prepared(Ok(_)),
        events[1] is PassFinished && pass_succeeds(events[1]->PassFinished_0),
        events[2] is PassFinished && pass_succeeds(events[2]->PassFinished_0),
        ({
            let first = pass_output(events[1]->PassFinished_0);
            let second = pass_output(events[2]->PassFinished_0);
            &&& events[3] matches CompileEvent::PdfRead(Some(Ok(bytes)))
            &&& actions.last() matches CompileAction::Finish(Ok(res))
            &&& res.pdf_bytes@ == bytes@
            &&& res.log@ == combined_log(first, second)
            &&& res.log@.take(first.len() + 19int) == "--- PASS 1 LOG ---\n"@ + first
            &&& res.log@.skip(res.log@.len() - second.len()) == second
        }),
{
    let n = events.len() as int;
    assert(n > 0);
    let i = n - 1;
    assert(actions.last() == actions[i + 1]);
    assert(compile_step_is(jobs[i], events[i], (jobs[i + 1], actions[i + 1])));
    run_stage_at(events, jobs, actions, i);
    assert(jobs[i].stage is Reading);
    run_stage_at(events, jobs, actions, 0);
    run_stage_at(events, jobs, actions, 1);
    run_stage_at(events, jobs, actions, 2);
    let (a0, a1, a2) = (0int, 1int, 2int);
    assert(compile_step_is(jobs[a0], events[a0], (jobs[a0 + 1], actions[a0 + 1])));
    assert(compile_step_is(jobs[a1], events[a1], (jobs[a1 + 1], actions[a1 + 1])));
    assert(compile_step_is(jobs[a2], events[a2], (jobs[a2 + 1], actions[a2 + 1])));
    reveal_strlit("--- PASS 1 LOG ---\n");
    let first = pass_output(events[1]->PassFinished_0);
    let second = pass_output(events[2]->PassFinished_0);
    let log = combined_log(first, second);
    let head = "--- PASS 1 LOG ---\n"@ + first;
    assert(log == head + ("\n--- PASS 2 LOG ---\n"@ + second));
    assert(log.take(first.len() + 19int) =~= head);
    assert(log.skip(log.len() - second.len()) =~= second);
}

impl CompileJob {
    /// Whether `event` answers the action that the job last asked for.
    pub open spec fn expects(self, event: CompileEvent) -> bool {
        match self.stage {
            CompileStage::Preparing => event is Prepared,
            CompileStage::FirstPass => event is PassFinished,
            CompileStage::SecondPass { .. } => event is PassFinished,
            CompileStage::Reading { .. } => event is PdfRead,
            CompileStage::Done => false,
        }
    }

    /// Starts a run with the executable `program`: the first thing to do is to write the
    /// source into `document.tex` in a fresh private directory.
    pub fn start(timeout: Duration, program: PathBuf, latex_source: String) -> (r: (CompileJob, CompileAction))
        ensures
            r.0 == (CompileJob { timeout, program, stage: CompileStage::Preparing }),
            is_prepare(r.1, latex_source),
    {
        (
            CompileJob { timeout, program, stage: CompileStage::Preparing },
            CompileAction::Prepare { file_name: text("document.tex"), source: latex_source },
        )
    }

    /// The next stage and action after `event`. The run goes through two passes of
    /// `lualatex`; any failure ends it at once with that failure; a PDF that is missing
    /// or empty ends it with `PdfMissing`.
    pub fn step(self, event: CompileEvent) -> (r: (CompileJob, CompileAction))
        requires
            self.expects(event),
        ensures
            compile_step_is(self, event, r),
    {
        let timeout = self.timeout;
        let program = self.program;
        match (self.stage, event) {
            (CompileStage::Preparing, CompileEvent::Prepared(Err(e))) => (
                CompileJob { timeout, program, stage: CompileStage::Done },
                CompileAction::Finish(Err(CompilerError::Io(e))),
            ),
            (CompileStage::Preparing, CompileEvent::Prepared(Ok(()))) => {
                let action = run_pass(&program);
                (CompileJob { timeout, program, stage: CompileStage::FirstPass }, action)
            },
            (CompileStage::FirstPass, CompileEvent::PassFinished(report)) => {
                match pass_outcome(report, timeout) {
                    Ok(out) => {
                        let action = run_pass(&program);
                        (CompileJob { timeout, program, stage: CompileStage::SecondPass { first_log: out } }, action)
                    },
                    Err(e) => (
                        CompileJob { timeout, program, stage: CompileStage::Done },
                        CompileAction::Finish(Err(e)),
                    ),
                }
            },
            (CompileStage::SecondPass { first_log }, CompileEvent::PassFinished(report)) => {
                match pass_outcome(report, timeout) {
                    Ok(out) => {
                        let log = combine_logs(first_log.as_str(), out.as_str());
                        (
                            CompileJob { timeout, program, stage: CompileStage::Reading { log } },
                            CompileAction::ReadPdf { file_name: text("document.pdf") },
                        )
                    },
                    Err(e) => (
                        CompileJob { timeout, program, stage: CompileStage::Done },
                        CompileAction::Finish(Err(e)),
                    ),
                }
            },
            (CompileStage::Reading { log }, CompileEvent::PdfRead(read)) => {
                let action = match read {
                    None => CompileAction::Finish(Err(CompilerError::PdfMissing)),
                    Some(Err(e)) => CompileAction::Finish(Err(CompilerError::Io(e))),
                    Some(Ok(bytes)) => {
                        if bytes.len() == 0 {
                            CompileAction::Finish(Err(CompilerError::PdfMissing))
                        } else {
                            CompileAction::Finish(Ok(CompileResult { pdf_bytes: bytes, log }))
                        }
                    },
                };
                (CompileJob { timeout, program, stage: CompileStage::Done }, action)
            },
            _ => {
                proof {
                    assert(false);
                }
                (CompileJob { timeout, program, stage: CompileStage::Done }, CompileAction::Finish(
                    Err(CompilerError::PdfMissing),
                ))
            },
        }
    }
}

} // verus!
