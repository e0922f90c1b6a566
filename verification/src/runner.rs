//! The benchmark runner's decisions: where reports and dumped inputs go,
//! which guest program artifacts to load, and how one benchmark input is
//! processed, as a state machine whose tasks the caller performs.
use crate::fixture::{path_join, path_join_spec};
use crate::text::concat_str;
use vstd::prelude::*;

verus! {

/// The version tag of the guest programs that are downloaded.
pub open spec fn default_guest_version() -> Seq<char> {
    "v0.1.0"@
}

/// The version tag of the guest programs that are downloaded.
pub fn default_guest_version_tag() -> (r: String)
    ensures
        r@ == default_guest_version(),
{
    "v0.1.0".to_owned()
}

/// Whether the zkVM proves or only executes.
#[derive(Debug, Clone, Copy, PartialEq, Eq, Structural)]
pub enum Action {
    /// Generate a proof of the execution.
    Prove,
    /// Only execute.
    Execute,
}

/// How benchmarks are run.
#[derive(Debug, Clone)]
pub struct RunConfig {
    /// Where reports are written.
    pub output_folder: String,
    /// A sub-folder of the output (and dump) folder.
    pub sub_folder: Option<String>,
    /// Prove or execute.
    pub action: Action,
    /// Run again even when a report exists.
    pub force_rerun: bool,
    /// Where the raw inputs are dumped, if anywhere.
    pub dump_inputs_folder: Option<String>,
}

/// The sub-folder name, empty when none is set.
pub open spec fn sub_or_empty(sub: Option<String>) -> Seq<char> {
    match sub {
        Some(s) => s@,
        None => Seq::empty(),
    }
}

fn sub_folder_str(sub: &Option<String>) -> (r: String)
    ensures
        r@ == sub_or_empty(*sub),
{
    match sub {
        Some(s) => s.clone(),
        None => String::new(),
    }
}

/// Inputs of a benchmark run in parallel when executing, one after the
/// other when proving.
pub fn runs_in_parallel(action: Action) -> (r: bool)
    ensures
        r == (action == Action::Execute),
{
    match action {
        Action::Execute => true,
        Action::Prove => false,
    }
}

/// The file the hardware description is written to.
pub fn hardware_report_path(config: &RunConfig) -> (r: String)
    ensures
        r@ == path_join_spec(config.output_folder@, "hardware.json"@),
{
    path_join(config.output_folder.as_str(), "hardware.json")
}

/// The label of a zkVM in report paths: its name, "-v", its SDK version.
pub fn zkvm_label(name: &str, sdk_version: &str) -> (r: String)
    ensures
        r@ == name@ + "-v"@ + sdk_version@,
{
    let a = concat_str(name, "-v");
    concat_str(a.as_str(), sdk_version)
}

/// Where the report of input `io_name` on zkVM `zkvm` goes:
/// `<output>/<sub>/<zkvm>/<io_name>.json`.
pub open spec fn report_path_spec(config: RunConfig, zkvm: Seq<char>, io_name: Seq<char>) -> Seq<
    char,
> {
    path_join_spec(
        path_join_spec(config.output_folder@, sub_or_empty(config.sub_folder)),
        zkvm + "/"@ + io_name + ".json"@,
    )
}

/// Where the report of input `io_name` on zkVM `zkvm` goes.
pub fn report_path(config: &RunConfig, zkvm: &str, io_name: &str) -> (r: String)
    ensures
        r@ == report_path_spec(*config, zkvm@, io_name@),
{
    let sub = sub_folder_str(&config.sub_folder);
    let base = path_join(config.output_folder.as_str(), sub.as_str());
    let a = concat_str(zkvm, "/");
    let b = concat_str(a.as_str(), io_name);
    let c = concat_str(b.as_str(), ".json");
    path_join(base.as_str(), c.as_str())
}

/// The folder inputs are dumped to: `<dump>/<sub>`.
pub open spec fn dump_dir_spec(dump: Seq<char>, sub: Option<String>) -> Seq<char> {
    path_join_spec(dump, sub_or_empty(sub))
}

/// The file input `io_name` is dumped to: `<dump>/<sub>/<io_name>.bin`.
pub open spec fn dump_file_spec(dump: Seq<char>, sub: Option<String>, io_name: Seq<char>) -> Seq<
    char,
> {
    path_join_spec(dump_dir_spec(dump, sub), io_name + ".bin"@)
}

/// The prefix of the guest program artifacts of a stateless validator:
/// `stateless-validator-<el>`.
pub fn el_artifact_prefix(el: &str) -> (r: String)
    ensures
        r@ == "stateless-validator-"@ + el@,
{
    concat_str("stateless-validator-", el)
}

/// The artifact of a guest program for a zkVM: `<prefix>-<zkvm>`.
pub fn artifact_name(prefix: &str, zkvm: &str) -> (r: String)
    ensures
        r@ == prefix@ + "-"@ + zkvm@,
{
    let a = concat_str(prefix, "-");
    concat_str(a.as_str(), zkvm)
}

/// Where a guest program comes from.
pub enum ProgramSource {
    /// Read from this file.
    File(String),
    /// Download this artifact at this version tag.
    Download { artifact: String, tag: String },
}

/// Where the guest program `artifact` comes from: the file of that name in
/// the given folder, or else a download of the default version.
pub fn program_source(artifact: &str, bin_path: &Option<String>) -> (r: ProgramSource)
    ensures
        match bin_path {
            Some(dir) => r matches ProgramSource::File(f) && f@ == path_join_spec(dir@, artifact@),
            None => r matches ProgramSource::Download { artifact: a, tag } && a@ == artifact@
                && tag@ == default_guest_version(),
        },
{
    match bin_path {
        Some(dir) => ProgramSource::File(path_join(dir.as_str(), artifact)),
        None => ProgramSource::Download {
            artifact: artifact.to_owned(),
            tag: default_guest_version_tag(),
        },
    }
}

// ---------------------------------------------------------------------------
// Outcomes of guest programs
// ---------------------------------------------------------------------------
/// What a guest's check of its public output says.
#[derive(Debug, Clone, PartialEq, Eq)]
pub enum OutputVerifierResult {
    /// The output is the expected one.
    Match,
    /// It is not; the message says how.
    Mismatch(String),
}

/// The payload of a panic, as far as it can be read: a string slice, an
/// owned string, or something else.
#[derive(Debug, Clone)]
pub enum PanicPayload {
    Str(String),
    Owned(String),
    Other,
}

/// The message of a panic: the payload's text, or "Unknown panic occurred".
pub open spec fn panic_msg_spec(p: PanicPayload) -> Seq<char> {
    match p {
        PanicPayload::Str(s) => s@,
        PanicPayload::Owned(s) => s@,
        PanicPayload::Other => "Unknown panic occurred"@,
    }
}

/// The message of a panic.
pub fn get_panic_msg(panic_info: PanicPayload) -> (r: String)
    ensures
        r@ == panic_msg_spec(panic_info),
{
    match panic_info {
        PanicPayload::Str(s) => s,
        PanicPayload::Owned(s) => s,
        PanicPayload::Other => "Unknown panic occurred".to_owned(),
    }
}

/// The message for a public output that does not match.
pub open spec fn mismatch_msg(io_name: Seq<char>, msg: Seq<char>) -> Seq<char> {
    "Output mismatch for "@ + io_name + ": "@ + msg
}

/// Turns a guest's check of its public output into success or an error
/// message: a mismatch is an error naming the input; a failed check passes
/// its error on.
pub fn verify_public_output(io_name: &str, verdict: Result<OutputVerifierResult, String>) -> (r:
    Result<(), String>)
    ensures
        match verdict {
            Ok(OutputVerifierResult::Match) => r is Ok,
            Ok(OutputVerifierResult::Mismatch(m)) => r matches Err(e) && e@ == mismatch_msg(
                io_name@,
                m@,
            ),
            Err(m) => r matches Err(e) && e@ == m@,
        },
{
    match verdict {
        Ok(OutputVerifierResult::Match) => Ok(()),
        Ok(OutputVerifierResult::Mismatch(m)) => {
            let a = concat_str("Output mismatch for ", io_name);
            let b = concat_str(a.as_str(), ": ");
            Err(concat_str(b.as_str(), m.as_str()))
        },
        Err(m) => Err(m),
    }
}

// ---------------------------------------------------------------------------
// Processing one input
// ---------------------------------------------------------------------------
/// Which public output is being checked.
#[derive(Debug, Clone, Copy, PartialEq, Eq, Structural)]
pub enum VerifyStage {
    /// The output of an execution.
    Execution,
    /// The output that came with a proof.
    Proof,
    /// The output recovered by verifying the proof.
    ProofVerification,
}

/// The context an output check's failure is reported under.
pub open spec fn verify_context(stage: VerifyStage) -> Seq<char> {
    match stage {
        VerifyStage::Execution => "Failed to verify public output from execution"@,
        VerifyStage::Proof => "Failed to verify public output from proof"@,
        VerifyStage::ProofVerification => "Failed to verify public output from proof verification"@,
    }
}

fn verify_context_str(stage: VerifyStage) -> (r: String)
    ensures
        r@ == verify_context(stage),
{
    match stage {
        VerifyStage::Execution => "Failed to verify public output from execution".to_owned(),
        VerifyStage::Proof => "Failed to verify public output from proof".to_owned(),
        VerifyStage::ProofVerification => "Failed to verify public output from proof verification".to_owned(),
    }
}

/// How running the guest on the zkVM ended.
pub enum RunResult {
    /// It ran to the end; the caller holds its public output and report.
    Completed,
    /// The zkVM reported an error.
    Failed(String),
    /// The zkVM panicked.
    Panicked(PanicPayload),
}

/// What the saved report says of the run.
#[derive(Debug, Clone, PartialEq, Eq)]
pub enum RunReport {
    /// The execution succeeded and its output was the expected one.
    ExecutionSuccess,
    /// The execution crashed, for this reason.
    ExecutionCrashed(String),
    /// The proof was made and verified, and both outputs were the expected
    /// ones.
    ProvingSuccess,
    /// Proving crashed, for this reason.
    ProvingCrashed(String),
}

/// A copy of a report.
pub fn copy_report(r: &RunReport) -> (c: RunReport)
    ensures
        c == *r,
{
    match r {
        RunReport::ExecutionSuccess => RunReport::ExecutionSuccess,
        RunReport::ExecutionCrashed(m) => RunReport::ExecutionCrashed(m.clone()),
        RunReport::ProvingSuccess => RunReport::ProvingSuccess,
        RunReport::ProvingCrashed(m) => RunReport::ProvingCrashed(m.clone()),
    }
}

/// An error that stops processing an input: a context, if any, and its
/// cause.
#[derive(Debug, Clone, PartialEq, Eq)]
pub struct RunError {
    pub context: Option<String>,
    pub cause: String,
}

/// How processing an input ended well.
#[derive(Debug, Clone, Copy, PartialEq, Eq, Structural)]
pub enum Processed {
    /// A report existed already; nothing was run.
    Skipped,
    /// The input was run and its report saved.
    Reported,
}

/// What the caller does next.
pub enum RunTask {
    /// Tell whether a file exists at this path (the report).
    CheckReport(String),
    /// Prepare the guest input.
    PrepareInput,
    /// Create this folder and its parents (for the dumped input).
    CreateDumpDir(String),
    /// Tell whether this file exists (the dumped input).
    CheckDumpFile(String),
    /// Write the raw input bytes to this file.
    WriteDumpFile(String),
    /// Run the guest on the zkVM, proving or executing.
    Run(Action),
    /// Check a public output with the guest.
    VerifyOutput(VerifyStage),
    /// Verify the proof with the zkVM.
    VerifyProof,
    /// Save the report with this outcome at this path.
    SaveReport(String, RunReport),
    /// Done.
    Done(Result<Processed, RunError>),
}

/// What happened when the caller performed the last task.
pub enum RunEvent {
    ReportExists(bool),
    InputPrepared(Result<(), String>),
    DumpDirCreated(Result<(), String>),
    DumpFileExists(bool),
    DumpFileWritten(Result<(), String>),
    RunEnded(RunResult),
    OutputVerified(Result<OutputVerifierResult, String>),
    ProofVerified(Result<(), String>),
    ReportSaved(Result<(), String>),
}

/// Where processing an input stands.
#[derive(Debug, Clone, Copy, PartialEq, Eq, Structural)]
pub enum RunStage {
    AwaitReportCheck,
    AwaitInput,
    AwaitDumpDir,
    AwaitDumpCheck,
    AwaitDumpWrite,
    AwaitRun,
    AwaitVerify(VerifyStage),
    AwaitProofVerify,
    AwaitSave,
    Finished,
}

/// The processing of one benchmark input on one zkVM: skip it if its report
/// exists (unless forced), prepare its input, dump the input if asked (once
/// per input), run it, check its public outputs, and save a report. A crash
/// of the zkVM is reported, not raised; a wrong output is raised.
pub struct InputRun {
    pub action: Action,
    pub force_rerun: bool,
    pub io_name: String,
    pub report_path: String,
    /// The dump folder and file, when inputs are dumped.
    pub dump: Option<(String, String)>,
    pub stage: RunStage,
    /// The report to save, once decided.
    pub report: Option<RunReport>,
    /// How many checks of outputs and proofs have passed.
    pub checks_passed: Ghost<nat>,
}

/// The event that fits each stage.
pub open spec fn event_fits(stage: RunStage, ev: RunEvent) -> bool {
    match stage {
        RunStage::AwaitReportCheck => ev is ReportExists,
        RunStage::AwaitInput => ev is InputPrepared,
        RunStage::AwaitDumpDir => ev is DumpDirCreated,
        RunStage::AwaitDumpCheck => ev is DumpFileExists,
        RunStage::AwaitDumpWrite => ev is DumpFileWritten,
        RunStage::AwaitRun => ev is RunEnded,
        RunStage::AwaitVerify(_) => ev is OutputVerified,
        RunStage::AwaitProofVerify => ev is ProofVerified,
        RunStage::AwaitSave => ev is ReportSaved,
        RunStage::Finished => false,
    }
}

/// Whether `r` is the report of a crash of `action` for `reason`.
pub open spec fn is_crash_report(r: RunReport, action: Action, reason: Seq<char>) -> bool {
    match action {
        Action::Execute => r matches RunReport::ExecutionCrashed(m) && m@ == reason,
        Action::Prove => r matches RunReport::ProvingCrashed(m) && m@ == reason,
    }
}

/// The reason a run ended in a crash, if it did.
pub open spec fn crash_reason(res: RunResult) -> Option<Seq<char>> {
    match res {
        RunResult::Completed => None,
        RunResult::Failed(m) => Some(m@),
        RunResult::Panicked(p) => Some(panic_msg_spec(p)),
    }
}

impl InputRun {
    /// The invariant of the processing.
    pub open spec fn wf(&self) -> bool {
        &&& (self.stage matches RunStage::AwaitVerify(VerifyStage::Execution) ==> self.action
            == Action::Execute && self.checks_passed@ == 0)
        &&& (self.stage matches RunStage::AwaitVerify(VerifyStage::Proof) ==> self.action
            == Action::Prove && self.checks_passed@ == 0)
        &&& (self.stage == RunStage::AwaitProofVerify ==> self.action == Action::Prove
            && self.checks_passed@ == 1)
        &&& (self.stage matches RunStage::AwaitVerify(VerifyStage::ProofVerification)
            ==> self.action == Action::Prove && self.checks_passed@ == 2)
        &&& (self.stage == RunStage::AwaitSave ==> self.report is Some)
        &&& (self.stage == RunStage::AwaitSave ==> self.saved_report_earned())
        &&& ((self.stage == RunStage::AwaitDumpDir || self.stage == RunStage::AwaitDumpCheck
            || self.stage == RunStage::AwaitDumpWrite) ==> self.dump is Some)
    }

    /// A success report stands only after every check passed: one for an
    /// execution, three (the output, the proof, the recovered output) for a
    /// proof.
    pub open spec fn saved_report_earned(&self) -> bool {
        match self.report {
            Some(RunReport::ExecutionSuccess) => self.action == Action::Execute
                && self.checks_passed@ == 1,
            Some(RunReport::ProvingSuccess) => self.action == Action::Prove
                && self.checks_passed@ == 3,
            Some(RunReport::ExecutionCrashed(_)) => self.action == Action::Execute,
            Some(RunReport::ProvingCrashed(_)) => self.action == Action::Prove,
            None => false,
        }
    }

    /// The first output check after a completed run.
    pub open spec fn first_check(action: Action) -> VerifyStage {
        match action {
            Action::Execute => VerifyStage::Execution,
            Action::Prove => VerifyStage::Proof,
        }
    }

    /// The stage that event `ev` moves the processing to.
    pub open spec fn next_stage(&self, ev: RunEvent) -> RunStage {
        match ev {
            RunEvent::ReportExists(exists) => if exists && !self.force_rerun {
                RunStage::Finished
            } else {
                RunStage::AwaitInput
            },
            RunEvent::InputPrepared(res) => if res is Err {
                RunStage::Finished
            } else if self.dump is Some {
                RunStage::AwaitDumpDir
            } else {
                RunStage::AwaitRun
            },
            RunEvent::DumpDirCreated(res) => if res is Err {
                RunStage::Finished
            } else {
                RunStage::AwaitDumpCheck
            },
            RunEvent::DumpFileExists(exists) => if exists {
                RunStage::AwaitRun
            } else {
                RunStage::AwaitDumpWrite
            },
            RunEvent::DumpFileWritten(res) => if res is Err {
                RunStage::Finished
            } else {
                RunStage::AwaitRun
            },
            RunEvent::RunEnded(res) => if crash_reason(res) is Some {
                RunStage::AwaitSave
            } else {
                RunStage::AwaitVerify(Self::first_check(self.action))
            },
            RunEvent::OutputVerified(v) => if v matches Ok(OutputVerifierResult::Match) {
                if self.stage == RunStage::AwaitVerify(VerifyStage::Proof) {
                    RunStage::AwaitProofVerify
                } else {
                    RunStage::AwaitSave
                }
            } else {
                RunStage::Finished
            },
            RunEvent::ProofVerified(res) => if res is Err {
                RunStage::Finished
            } else {
                RunStage::AwaitVerify(VerifyStage::ProofVerification)
            },
            RunEvent::ReportSaved(_) => RunStage::Finished,
        }
    }

    /// How many checks have passed after event `ev`.
    pub open spec fn next_checks(&self, ev: RunEvent) -> nat {
        match ev {
            RunEvent::RunEnded(res) => if crash_reason(res) is None {
                0
            } else {
                self.checks_passed@
            },
            RunEvent::OutputVerified(Ok(OutputVerifierResult::Match)) => self.checks_passed@ + 1,
            RunEvent::ProofVerified(Ok(())) => self.checks_passed@ + 1,
            _ => self.checks_passed@,
        }
    }

    /// Starts processing input `io_name` on the zkVM labelled `zkvm`: first
    /// ask whether its report exists.
    pub fn start(config: &RunConfig, zkvm: &str, io_name: &str) -> (r: (Self, RunTask))
        ensures
            r.0.wf(),
            r.0.stage == RunStage::AwaitReportCheck,
            r.0.action == config.action,
            r.0.force_rerun == config.force_rerun,
            r.0.io_name@ == io_name@,
            r.0.report_path@ == report_path_spec(*config, zkvm@, io_name@),
            match config.dump_inputs_folder {
                Some(d) => r.0.dump matches Some((dir, file)) && dir@ == dump_dir_spec(
                    d@,
                    config.sub_folder,
                ) && file@ == dump_file_spec(d@, config.sub_folder, io_name@),
                None => r.0.dump is None,
            },
            r.1 matches RunTask::CheckReport(p) && p@ == r.0.report_path@,
    {
        let path = report_path(config, zkvm, io_name);
        let dump = match &config.dump_inputs_folder {
            Some(d) => {
                let sub = sub_folder_str(&config.sub_folder);
                let dir = path_join(d.as_str(), sub.as_str());
                let file_name = concat_str(io_name, ".bin");
                let file = path_join(dir.as_str(), file_name.as_str());
                Some((dir, file))
            },
            None => None,
        };
        let task = RunTask::CheckReport(path.clone());
        (
            InputRun {
                action: config.action,
                force_rerun: config.force_rerun,
                io_name: io_name.to_owned(),
                report_path: path,
                dump,
                stage: RunStage::AwaitReportCheck,
                report: None,
                checks_passed: Ghost(0),
            },
            task,
        )
    }

    /// Moves to saving the given report.
    fn save(&mut self, report: RunReport) -> (r: RunTask)
        ensures
            final(self).stage == RunStage::AwaitSave,
            final(self).report == Some(report),
            final(self).action == old(self).action,
            final(self).force_rerun == old(self).force_rerun,
            final(self).io_name == old(self).io_name,
            final(self).report_path == old(self).report_path,
            final(self).dump == old(self).dump,
            final(self).checks_passed == old(self).checks_passed,
            r matches RunTask::SaveReport(p, rep) && p == old(self).report_path && rep == report,
    {
        self.stage = RunStage::AwaitSave;
        self.report = Some(copy_report(&report));
        RunTask::SaveReport(self.report_path.clone(), report)
    }

    /// Ends with an error.
    fn fail(&mut self, context: Option<String>, cause: String) -> (r: RunTask)
        ensures
            final(self).stage == RunStage::Finished,
            final(self).action == old(self).action,
            final(self).force_rerun == old(self).force_rerun,
            final(self).io_name == old(self).io_name,
            final(self).report_path == old(self).report_path,
            final(self).dump == old(self).dump,
            final(self).report == old(self).report,
            final(self).checks_passed == old(self).checks_passed,
            r matches RunTask::Done(Err(e)) && e.context == context && e.cause == cause,
    {
        self.stage = RunStage::Finished;
        RunTask::Done(Err(RunError { context, cause }))
    }

    /// After the input is ready (and dumped, if asked): run it.
    fn run(&mut self) -> (r: RunTask)
        ensures
            final(self).stage == RunStage::AwaitRun,
            final(self).action == old(self).action,
            final(self).force_rerun == old(self).force_rerun,
            final(self).io_name == old(self).io_name,
            final(self).report_path == old(self).report_path,
            final(self).dump == old(self).dump,
            final(self).report == old(self).report,
            final(self).checks_passed == old(self).checks_passed,
            r matches RunTask::Run(a) && a == old(self).action,
    {
        self.stage = RunStage::AwaitRun;
        RunTask::Run(self.action)
    }

    /// Takes what happened with the last task and says what to do next.
    pub fn step(&mut self, ev: RunEvent) -> (r: RunTask)
        requires
            old(self).wf(),
            event_fits(old(self).stage, ev),
        ensures
            final(self).wf(),
            // the whole next state
            final(self).stage == old(self).next_stage(ev),
            final(self).checks_passed@ == old(self).next_checks(ev),
            final(self).action == old(self).action,
            final(self).force_rerun == old(self).force_rerun,
            final(self).io_name == old(self).io_name,
            final(self).report_path == old(self).report_path,
            final(self).dump == old(self).dump,
            !(r is SaveReport) ==> final(self).report == old(self).report,
            // a run that panicked is reported as a crash with the panic's message
            ev matches RunEvent::RunEnded(RunResult::Panicked(p)) ==> (r matches RunTask::SaveReport(
                path,
                rep,
            ) && path == old(self).report_path && is_crash_report(rep, old(self).action, panic_msg_spec(p))),
            ev matches RunEvent::RunEnded(RunResult::Failed(m)) ==> (r matches RunTask::SaveReport(
                path,
                rep,
            ) && path == old(self).report_path && is_crash_report(rep, old(self).action, m@)),
            // the input is dumped only to its dump file, and only when it is absent
            r matches RunTask::WriteDumpFile(f) ==> (ev matches RunEvent::DumpFileExists(e) && !e)
                && (old(self).dump matches Some((_, df)) && f == df),
            r is Done <==> final(self).stage == RunStage::Finished,
            // an existing report is kept unless a rerun is forced
            old(self).stage == RunStage::AwaitReportCheck ==> match ev {
                RunEvent::ReportExists(exists) => if exists && !old(self).force_rerun {
                    r matches RunTask::Done(Ok(Processed::Skipped))
                } else {
                    r is PrepareInput && final(self).stage == RunStage::AwaitInput
                },
                _ => true,
            },
            // a failure to prepare the input is passed on; then the input is
            // dumped if asked, else run
            old(self).stage == RunStage::AwaitInput ==> match ev {
                RunEvent::InputPrepared(Err(m)) => r matches RunTask::Done(Err(e)) && e.context
                    is None && e.cause@ == m@,
                RunEvent::InputPrepared(Ok(())) => match old(self).dump {
                    Some((dir, _)) => r matches RunTask::CreateDumpDir(d) && d == dir,
                    None => r matches RunTask::Run(a) && a == old(self).action,
                },
                _ => true,
            },
            old(self).stage == RunStage::AwaitDumpDir ==> match ev {
                RunEvent::DumpDirCreated(Err(m)) => r matches RunTask::Done(Err(e)) && e.context
                    matches Some(c) && c@ == "Failed to create directory: "@ + old(
                    self,
                ).dump.unwrap().0@ && e.cause@ == m@,
                RunEvent::DumpFileExists(_) => true,
                _ => r matches RunTask::CheckDumpFile(f) && f == old(self).dump.unwrap().1,
            },
            // the dumped input is written only when its file is absent
            old(self).stage == RunStage::AwaitDumpCheck ==> match ev {
                RunEvent::DumpFileExists(true) => r matches RunTask::Run(a) && a == old(
                    self,
                ).action,
                RunEvent::DumpFileExists(false) => r matches RunTask::WriteDumpFile(f) && f == old(
                    self,
                ).dump.unwrap().1,
                _ => true,
            },
            old(self).stage == RunStage::AwaitDumpWrite ==> match ev {
                RunEvent::DumpFileWritten(Err(m)) => r matches RunTask::Done(Err(e)) && e.context
                    matches Some(c) && c@ == "Failed to write input to "@ + old(
                    self,
                ).dump.unwrap().1@ && e.cause@ == m@,
                RunEvent::DumpFileWritten(Ok(())) => r matches RunTask::Run(a) && a == old(
                    self,
                ).action,
                _ => true,
            },
            // a crash is reported, not raised; a completed run is checked
            old(self).stage == RunStage::AwaitRun ==> match ev {
                RunEvent::RunEnded(res) => match crash_reason(res) {
                    Some(reason) => r matches RunTask::SaveReport(p, rep) && p
                        == old(self).report_path && is_crash_report(rep, old(self).action, reason),
                    None => r matches RunTask::VerifyOutput(s) && s == (match old(self).action {
                        Action::Execute => VerifyStage::Execution,
                        Action::Prove => VerifyStage::Proof,
                    }),
                },
                _ => true,
            },
            // a wrong or uncheckable output is raised under the stage's context
            old(self).stage matches RunStage::AwaitVerify(stage) ==> match ev {
                RunEvent::OutputVerified(Ok(OutputVerifierResult::Match)) => match stage {
                    VerifyStage::Execution => r matches RunTask::SaveReport(p, rep) && p == old(
                        self,
                    ).report_path && rep == RunReport::ExecutionSuccess,
                    VerifyStage::Proof => r is VerifyProof,
                    VerifyStage::ProofVerification => r matches RunTask::SaveReport(p, rep) && p
                        == old(self).report_path && rep == RunReport::ProvingSuccess,
                },
                RunEvent::OutputVerified(Ok(OutputVerifierResult::Mismatch(m))) => r matches
                RunTask::Done(Err(e)) && e.context matches Some(c) && c@ == verify_context(stage)
                    && e.cause@ == mismatch_msg(old(self).io_name@, m@),
                RunEvent::OutputVerified(Err(m)) => r matches RunTask::Done(Err(e))
                    && e.context matches Some(c) && c@ == verify_context(stage) && e.cause@ == m@,
                _ => true,
            },
            old(self).stage == RunStage::AwaitProofVerify ==> match ev {
                RunEvent::ProofVerified(Err(m)) => r matches RunTask::Done(Err(e)) && e.context
                    matches Some(c) && c@ == "Failed to verify proof"@ && e.cause@ == m@,
                RunEvent::ProofVerified(Ok(())) => r matches RunTask::VerifyOutput(s) && s
                    == VerifyStage::ProofVerification,
                _ => true,
            },
            old(self).stage == RunStage::AwaitSave ==> match ev {
                RunEvent::ReportSaved(Ok(())) => r matches RunTask::Done(Ok(Processed::Reported)),
                RunEvent::ReportSaved(Err(m)) => r matches RunTask::Done(Err(e)) && e.context is None
                    && e.cause@ == m@,
                _ => true,
            },
            // a success report is saved only after every check passed
            r matches RunTask::SaveReport(_, rep) ==> final(self).report == Some(rep)
                && final(self).saved_report_earned(),
    {
        match ev {
            RunEvent::ReportExists(exists) => {
                if exists && !self.force_rerun {
                    self.stage = RunStage::Finished;
                    RunTask::Done(Ok(Processed::Skipped))
                } else {
                    self.stage = RunStage::AwaitInput;
                    RunTask::PrepareInput
                }
            },
            RunEvent::InputPrepared(Err(m)) => self.fail(None, m),
            RunEvent::InputPrepared(Ok(())) => {
                match &self.dump {
                    Some((dir, _)) => {
                        let d = dir.clone();
                        self.stage = RunStage::AwaitDumpDir;
                        RunTask::CreateDumpDir(d)
                    },
                    None => self.run(),
                }
            },
            RunEvent::DumpDirCreated(res) => {
                let (dir, file) = match &self.dump {
                    Some((d, f)) => (d.clone(), f.clone()),
                    None => (String::new(), String::new()),
                };
                match res {
                    Err(m) => {
                        let ctx = concat_str("Failed to create directory: ", dir.as_str());
                        self.fail(Some(ctx), m)
                    },
                    Ok(()) => {
                        self.stage = RunStage::AwaitDumpCheck;
                        RunTask::CheckDumpFile(file)
                    },
                }
            },
            RunEvent::DumpFileExists(exists) => {
                if exists {
                    self.run()
                } else {
                    let file = match &self.dump {
                        Some((_, f)) => f.clone(),
                        None => String::new(),
                    };
                    self.stage = RunStage::AwaitDumpWrite;
                    RunTask::WriteDumpFile(file)
                }
            },
            RunEvent::DumpFileWritten(res) => {
                match res {
                    Err(m) => {
                        let file = match &self.dump {
                            Some((_, f)) => f.clone(),
                            None => String::new(),
                        };
                        let ctx = concat_str("Failed to write input to ", file.as_str());
                        self.fail(Some(ctx), m)
                    },
                    Ok(()) => self.run(),
                }
            },
            RunEvent::RunEnded(res) => {
                let reason = match res {
                    RunResult::Completed => None,
                    RunResult::Failed(m) => Some(m),
                    RunResult::Panicked(p) => Some(get_panic_msg(p)),
                };
                match reason {
                    Some(m) => {
                        let report = match self.action {
                            Action::Execute => RunReport::ExecutionCrashed(m),
                            Action::Prove => RunReport::ProvingCrashed(m),
                        };
                        self.save(report)
                    },
                    None => {
                        let stage = match self.action {
                            Action::Execute => VerifyStage::Execution,
                            Action::Prove => VerifyStage::Proof,
                        };
                        self.checks_passed = Ghost(0);
                        self.stage = RunStage::AwaitVerify(stage);
                        RunTask::VerifyOutput(stage)
                    },
                }
            },
            RunEvent::OutputVerified(verdict) => {
                let stage = match self.stage {
                    RunStage::AwaitVerify(s) => s,
                    _ => VerifyStage::Execution,
                };
                match verify_public_output(self.io_name.as_str(), verdict) {
                    Err(m) => self.fail(Some(verify_context_str(stage)), m),
                    Ok(()) => {
                        let ghost passed = self.checks_passed@ + 1;
                        self.checks_passed = Ghost(passed);
                        match stage {
                            VerifyStage::Execution => self.save(RunReport::ExecutionSuccess),
                            VerifyStage::Proof => {
                                self.stage = RunStage::AwaitProofVerify;
                                RunTask::VerifyProof
                            },
                            VerifyStage::ProofVerification => self.save(RunReport::ProvingSuccess),
                        }
                    },
                }
            },
            RunEvent::ProofVerified(res) => {
                match res {
                    Err(m) => self.fail(Some("Failed to verify proof".to_owned()), m),
                    Ok(()) => {
                        let ghost passed = self.checks_passed@ + 1;
                        self.checks_passed = Ghost(passed);
                        self.stage = RunStage::AwaitVerify(VerifyStage::ProofVerification);
                        RunTask::VerifyOutput(VerifyStage::ProofVerification)
                    },
                }
            },
            RunEvent::ReportSaved(res) => {
                match res {
                    Ok(()) => {
                        self.stage = RunStage::Finished;
                        RunTask::Done(Ok(Processed::Reported))
                    },
                    Err(m) => self.fail(None, m),
                }
            },
        }
    }
}

/// The dumped input of a benchmark input is written once, whatever zkVMs it
/// runs on: the file it is dumped to depends on the configuration and the
/// input's name alone, not on the zkVM (see `InputRun::start`), and the
/// processing moves to writing it only when told that the file is absent;
/// told that it exists, it runs the input without writing.
pub proof fn lemma_dump_written_once(run: InputRun, ev: RunEvent)
    requires
        run.wf(),
        event_fits(run.stage, ev),
    ensures
        run.next_stage(ev) == RunStage::AwaitDumpWrite <==> (ev matches RunEvent::DumpFileExists(e)
            && !e),
        (ev matches RunEvent::DumpFileExists(e) && e) ==> run.next_stage(ev) == RunStage::AwaitRun,
{
}

/// A run that panicked or failed is saved as a crash report, whatever the
/// panic's payload, and never has its output checked; the crash's reason is
/// the panic's text, "Unknown panic occurred" for a payload without text, or
/// the failure's message. Only a completed run goes on to the output checks.
pub proof fn lemma_crash_is_reported(run: InputRun, res: RunResult)
    requires
        run.wf(),
        run.stage == RunStage::AwaitRun,
    ensures
        !(res is Completed) ==> run.next_stage(RunEvent::RunEnded(res)) == RunStage::AwaitSave,
        res is Completed ==> run.next_stage(RunEvent::RunEnded(res)) matches RunStage::AwaitVerify(
            _,
        ),
        res matches RunResult::Panicked(PanicPayload::Str(s)) ==> crash_reason(res) == Some(s@),
        res matches RunResult::Panicked(PanicPayload::Owned(s)) ==> crash_reason(res) == Some(s@),
        res matches RunResult::Panicked(PanicPayload::Other) ==> crash_reason(res) == Some(
            "Unknown panic occurred"@,
        ),
        res matches RunResult::Failed(m) ==> crash_reason(res) == Some(m@),
{
}

} // verus!
