use localforge::build::{
    expected_binaries_list, parallel_jobs_for, BuildAction, BuildEvent, BuildLog, BuildPhase,
    BuildRun, BuildStage,
};

#[test]
fn fresh_clone_to_finish() {
    let mut run = BuildRun::new("/src".into(), "/src/build".into(), 8);
    assert!(matches!(run.advance(BuildEvent::SourceChecked(false)), BuildAction::CloneRepo));
    assert_eq!(run.stage, BuildStage::Cloning);
    assert!(matches!(run.advance(BuildEvent::StepSucceeded), BuildAction::RunCmake));
    assert_eq!(run.log.phase, BuildPhase::Configure);
    assert!(matches!(run.advance(BuildEvent::StepSucceeded), BuildAction::Compile(8)));
    assert!(matches!(run.advance(BuildEvent::StepSucceeded), BuildAction::LocateBinaries));
    assert_eq!(run.log.phase, BuildPhase::Verify);
    let found = vec!["llama-cli".to_string(), "llama-server".to_string()];
    assert!(matches!(run.advance(BuildEvent::BinariesFound(found)), BuildAction::Complete));
    assert_eq!(run.stage, BuildStage::Finished);
    assert_eq!(run.log.phase, BuildPhase::Done);
    assert!(run.log.success);
    assert_eq!(
        run.log.lines,
        vec![
            "Cloning llama.cpp repository...",
            "Clone complete.",
            "Running CMake configuration...",
            "CMake configuration successful.",
            "Building with 8 parallel jobs...",
            "Build successful.",
            "Found binaries: llama-cli, llama-server",
            "Build complete. Binaries in /src/build/bin/",
        ]
    );
}

#[test]
fn existing_source_skips_clone() {
    let mut run = BuildRun::new("/src".into(), "/b".into(), 2);
    assert!(matches!(run.advance(BuildEvent::SourceChecked(true)), BuildAction::RunCmake));
    assert_eq!(run.stage, BuildStage::Configuring);
    assert_eq!(
        run.log.lines,
        vec!["Source already exists at /src, skipping clone.", "Running CMake configuration..."]
    );
}

#[test]
fn failure_aborts_and_is_final() {
    let mut run = BuildRun::new("/s".into(), "/b".into(), 1);
    run.advance(BuildEvent::SourceChecked(true));
    match run.advance(BuildEvent::StepFailed("cmake exited 1".into())) {
        BuildAction::Abort(m) => assert_eq!(m, "cmake exited 1"),
        other => panic!("unexpected {:?}", other),
    }
    assert_eq!(run.stage, BuildStage::Failed);
    assert!(!run.log.success);
    assert!(matches!(run.advance(BuildEvent::StepSucceeded), BuildAction::Ignore));
    assert_eq!(run.stage, BuildStage::Failed);
}

#[test]
fn no_binaries_warns() {
    let mut run = BuildRun::new("/s".into(), "/b".into(), 1);
    run.advance(BuildEvent::SourceChecked(true));
    run.advance(BuildEvent::StepSucceeded);
    run.advance(BuildEvent::StepSucceeded);
    run.advance(BuildEvent::BinariesFound(vec![]));
    let n = run.log.lines.len();
    assert_eq!(run.log.lines[n - 2], "Warning: could not locate built binaries.");
    assert!(run.log.success);
}

#[test]
fn unexpected_event_is_ignored() {
    let mut run = BuildRun::new("/s".into(), "/b".into(), 1);
    assert!(matches!(run.advance(BuildEvent::StepSucceeded), BuildAction::Ignore));
    assert_eq!(run.stage, BuildStage::Start);
    assert!(run.log.lines.is_empty());
}

#[test]
fn jobs_and_binaries() {
    assert_eq!(parallel_jobs_for(0), 1);
    assert_eq!(parallel_jobs_for(1), 1);
    assert_eq!(parallel_jobs_for(12), 12);
    assert_eq!(
        expected_binaries_list(),
        vec!["llama-cli", "llama-server", "llama-quantize", "llama-bench"]
    );
    assert_eq!(BuildPhase::Compile.label(), "Compiling");
    let mut log = BuildLog::new();
    log.log("x".into());
    assert_eq!(log.lines, vec!["x"]);
    assert_eq!(log.phase, BuildPhase::Clone);
}
