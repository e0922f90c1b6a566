use zkevm_bench::runner::{
    artifact_name, el_artifact_prefix, get_panic_msg, hardware_report_path, program_source,
    report_path, runs_in_parallel, verify_public_output, zkvm_label, Action, InputRun,
    OutputVerifierResult, PanicPayload, Processed, ProgramSource, RunConfig, RunEvent, RunReport,
    RunResult, RunTask, VerifyStage,
};

fn config(action: Action, force: bool, dump: Option<&str>, sub: Option<&str>) -> RunConfig {
    RunConfig {
        output_folder: "out".to_string(),
        sub_folder: sub.map(|s| s.to_string()),
        action,
        force_rerun: force,
        dump_inputs_folder: dump.map(|s| s.to_string()),
    }
}

#[test]
fn paths_and_names() {
    let c = config(Action::Execute, false, None, Some("reth"));
    assert_eq!(report_path(&c, "sp1-v5.0.0", "block-1"), "out/reth/sp1-v5.0.0/block-1.json");
    let c = config(Action::Execute, false, None, None);
    assert_eq!(report_path(&c, "sp1-v5.0.0", "block-1"), "out/sp1-v5.0.0/block-1.json");
    assert_eq!(hardware_report_path(&c), "out/hardware.json");
    assert_eq!(zkvm_label("risc0", "2.1"), "risc0-v2.1");
    assert_eq!(el_artifact_prefix("reth"), "stateless-validator-reth");
    assert_eq!(artifact_name("stateless-validator-reth", "sp1"), "stateless-validator-reth-sp1");
    assert!(runs_in_parallel(Action::Execute));
    assert!(!runs_in_parallel(Action::Prove));
}

#[test]
fn program_comes_from_folder_or_download() {
    match program_source("empty-sp1", &Some("bins".to_string())) {
        ProgramSource::File(f) => assert_eq!(f, "bins/empty-sp1"),
        _ => panic!("expected a file"),
    }
    match program_source("empty-sp1", &None) {
        ProgramSource::Download { artifact, tag } => {
            assert_eq!(artifact, "empty-sp1");
            assert_eq!(tag, "v0.1.0");
        }
        _ => panic!("expected a download"),
    }
}

#[test]
fn panic_messages() {
    assert_eq!(get_panic_msg(PanicPayload::Str("boom".to_string())), "boom");
    assert_eq!(get_panic_msg(PanicPayload::Owned("bang".to_string())), "bang");
    assert_eq!(get_panic_msg(PanicPayload::Other), "Unknown panic occurred");
}

#[test]
fn public_output_verification() {
    assert_eq!(verify_public_output("b1", Ok(OutputVerifierResult::Match)), Ok(()));
    assert_eq!(
        verify_public_output("b1", Ok(OutputVerifierResult::Mismatch("hash differs".to_string()))),
        Err("Output mismatch for b1: hash differs".to_string())
    );
    assert_eq!(verify_public_output("b1", Err("decode".to_string())), Err("decode".to_string()));
}

#[test]
fn existing_report_is_skipped_unless_forced() {
    let c = config(Action::Execute, false, None, None);
    let (mut run, task) = InputRun::start(&c, "sp1-v1", "io");
    assert!(matches!(task, RunTask::CheckReport(p) if p == "out/sp1-v1/io.json"));
    assert!(matches!(run.step(RunEvent::ReportExists(true)), RunTask::Done(Ok(Processed::Skipped))));

    let c = config(Action::Execute, true, None, None);
    let (mut run, _) = InputRun::start(&c, "sp1-v1", "io");
    assert!(matches!(run.step(RunEvent::ReportExists(true)), RunTask::PrepareInput));
}

#[test]
fn execution_success_is_reported_after_the_output_check() {
    let c = config(Action::Execute, false, None, None);
    let (mut run, _) = InputRun::start(&c, "sp1-v1", "io");
    assert!(matches!(run.step(RunEvent::ReportExists(false)), RunTask::PrepareInput));
    assert!(matches!(run.step(RunEvent::InputPrepared(Ok(()))), RunTask::Run(Action::Execute)));
    assert!(matches!(
        run.step(RunEvent::RunEnded(RunResult::Completed)),
        RunTask::VerifyOutput(VerifyStage::Execution)
    ));
    match run.step(RunEvent::OutputVerified(Ok(OutputVerifierResult::Match))) {
        RunTask::SaveReport(p, r) => {
            assert_eq!(p, "out/sp1-v1/io.json");
            assert_eq!(r, RunReport::ExecutionSuccess);
        }
        _ => panic!("expected the report to be saved"),
    }
    assert!(matches!(run.step(RunEvent::ReportSaved(Ok(()))), RunTask::Done(Ok(Processed::Reported))));
}

#[test]
fn crashes_are_reported_not_raised() {
    let c = config(Action::Execute, false, None, None);
    let (mut run, _) = InputRun::start(&c, "z", "io");
    run.step(RunEvent::ReportExists(false));
    run.step(RunEvent::InputPrepared(Ok(())));
    match run.step(RunEvent::RunEnded(RunResult::Failed("out of cycles".to_string()))) {
        RunTask::SaveReport(_, r) => assert_eq!(r, RunReport::ExecutionCrashed("out of cycles".to_string())),
        _ => panic!("expected a crash report"),
    }
    let c = config(Action::Prove, false, None, None);
    let (mut run, _) = InputRun::start(&c, "z", "io");
    run.step(RunEvent::ReportExists(false));
    assert!(matches!(run.step(RunEvent::InputPrepared(Ok(()))), RunTask::Run(Action::Prove)));
    match run.step(RunEvent::RunEnded(RunResult::Panicked(PanicPayload::Other))) {
        RunTask::SaveReport(_, r) => {
            assert_eq!(r, RunReport::ProvingCrashed("Unknown panic occurred".to_string()))
        }
        _ => panic!("expected a crash report"),
    }
}

#[test]
fn proving_checks_output_proof_and_recovered_output() {
    let c = config(Action::Prove, false, None, Some("ethrex"));
    let (mut run, _) = InputRun::start(&c, "z", "io");
    run.step(RunEvent::ReportExists(false));
    run.step(RunEvent::InputPrepared(Ok(())));
    assert!(matches!(run.step(RunEvent::RunEnded(RunResult::Completed)), RunTask::VerifyOutput(VerifyStage::Proof)));
    assert!(matches!(run.step(RunEvent::OutputVerified(Ok(OutputVerifierResult::Match))), RunTask::VerifyProof));
    assert!(matches!(
        run.step(RunEvent::ProofVerified(Ok(()))),
        RunTask::VerifyOutput(VerifyStage::ProofVerification)
    ));
    match run.step(RunEvent::OutputVerified(Ok(OutputVerifierResult::Match))) {
        RunTask::SaveReport(p, r) => {
            assert_eq!(p, "out/ethrex/z/io.json");
            assert_eq!(r, RunReport::ProvingSuccess);
        }
        _ => panic!("expected the report to be saved"),
    }
}

#[test]
fn wrong_output_and_bad_proof_are_raised() {
    let c = config(Action::Prove, false, None, None);
    let (mut run, _) = InputRun::start(&c, "z", "io");
    run.step(RunEvent::ReportExists(false));
    run.step(RunEvent::InputPrepared(Ok(())));
    run.step(RunEvent::RunEnded(RunResult::Completed));
    match run.step(RunEvent::OutputVerified(Ok(OutputVerifierResult::Mismatch("x".to_string())))) {
        RunTask::Done(Err(e)) => {
            assert_eq!(e.context, Some("Failed to verify public output from proof".to_string()));
            assert_eq!(e.cause, "Output mismatch for io: x");
        }
        _ => panic!("expected an error"),
    }
    let (mut run, _) = InputRun::start(&c, "z", "io");
    run.step(RunEvent::ReportExists(false));
    run.step(RunEvent::InputPrepared(Ok(())));
    run.step(RunEvent::RunEnded(RunResult::Completed));
    run.step(RunEvent::OutputVerified(Ok(OutputVerifierResult::Match)));
    match run.step(RunEvent::ProofVerified(Err("invalid proof".to_string()))) {
        RunTask::Done(Err(e)) => {
            assert_eq!(e.context, Some("Failed to verify proof".to_string()));
            assert_eq!(e.cause, "invalid proof");
        }
        _ => panic!("expected an error"),
    }
}

#[test]
fn dumped_input_is_written_once() {
    let c = config(Action::Execute, false, Some("dumps"), Some("reth"));
    let (mut run, _) = InputRun::start(&c, "z", "block-1");
    run.step(RunEvent::ReportExists(false));
    assert!(matches!(run.step(RunEvent::InputPrepared(Ok(()))), RunTask::CreateDumpDir(d) if d == "dumps/reth"));
    assert!(matches!(run.step(RunEvent::DumpDirCreated(Ok(()))), RunTask::CheckDumpFile(f) if f == "dumps/reth/block-1.bin"));
    assert!(matches!(run.step(RunEvent::DumpFileExists(false)), RunTask::WriteDumpFile(f) if f == "dumps/reth/block-1.bin"));
    assert!(matches!(run.step(RunEvent::DumpFileWritten(Ok(()))), RunTask::Run(Action::Execute)));

    let (mut run, _) = InputRun::start(&c, "z", "block-1");
    run.step(RunEvent::ReportExists(false));
    run.step(RunEvent::InputPrepared(Ok(())));
    run.step(RunEvent::DumpDirCreated(Ok(())));
    assert!(matches!(run.step(RunEvent::DumpFileExists(true)), RunTask::Run(Action::Execute)));
}

#[test]
fn dump_failures_are_raised_with_context() {
    let c = config(Action::Execute, false, Some("dumps"), None);
    let (mut run, _) = InputRun::start(&c, "z", "b");
    run.step(RunEvent::ReportExists(false));
    assert!(matches!(run.step(RunEvent::InputPrepared(Ok(()))), RunTask::CreateDumpDir(d) if d == "dumps/"));
    match run.step(RunEvent::DumpDirCreated(Err("read-only".to_string()))) {
        RunTask::Done(Err(e)) => {
            assert_eq!(e.context, Some("Failed to create directory: dumps/".to_string()));
            assert_eq!(e.cause, "read-only");
        }
        _ => panic!("expected an error"),
    }
    let (mut run, _) = InputRun::start(&c, "z", "b");
    run.step(RunEvent::ReportExists(false));
    match run.step(RunEvent::InputPrepared(Err("no input".to_string()))) {
        RunTask::Done(Err(e)) => {
            assert_eq!(e.context, None);
            assert_eq!(e.cause, "no input");
        }
        _ => panic!("expected an error"),
    }
}
