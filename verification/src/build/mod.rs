//! The llama.cpp build pipeline: clone, configure, compile, verify. The
//! steps themselves run outside; this module decides what runs next and
//! what the build log says.

use crate::text::{decimal, join_strings, joined, push_decimal, strings_view};
use vstd::prelude::*;
use vstd::string::*;

verus! {

/// Phases of the build pipeline, used to report progress to the TUI.
#[derive(Debug, Clone, Copy, PartialEq, Eq, Structural)]
pub enum BuildPhase {
    Clone,
    Configure,
    Compile,
    Verify,
    Done,
}

impl BuildPhase {
    pub fn label(&self) -> (r: &'static str)
        ensures
            r@ == match *self {
                BuildPhase::Clone => "Cloning llama.cpp"@,
                BuildPhase::Configure => "CMake configuration"@,
                BuildPhase::Compile => "Compiling"@,
                BuildPhase::Verify => "Verifying build"@,
                BuildPhase::Done => "Complete"@,
            },
    {
        match self {
            BuildPhase::Clone => "Cloning llama.cpp",
            BuildPhase::Configure => "CMake configuration",
            BuildPhase::Compile => "Compiling",
            BuildPhase::Verify => "Verifying build",
            BuildPhase::Done => "Complete",
        }
    }
}

/// Position of a phase in the pipeline.
pub open spec fn phase_rank(p: BuildPhase) -> int {
    match p {
        BuildPhase::Clone => 0,
        BuildPhase::Configure => 1,
        BuildPhase::Compile => 2,
        BuildPhase::Verify => 3,
        BuildPhase::Done => 4,
    }
}

/// Accumulated build log lines.
pub struct BuildLog {
    pub lines: Vec<String>,
    pub phase: BuildPhase,
    pub success: bool,
}

impl BuildLog {
    pub fn new() -> (r: Self)
        ensures
            r.lines@.len() == 0,
            r.phase == BuildPhase::Clone,
            !r.success,
    {
        BuildLog { lines: Vec::new(), phase: BuildPhase::Clone, success: false }
    }

    /// Append a line to the log.
    pub fn log(&mut self, msg: String)
        ensures
            final(self).lines@ == old(self).lines@.push(msg),
            final(self).phase == old(self).phase,
            final(self).success == old(self).success,
    {
        self.lines.push(msg);
    }
}

/// The binaries a successful build should produce, in the order reported.
pub open spec fn expected_binaries() -> Seq<Seq<char>> {
    seq!["llama-cli"@, "llama-server"@, "llama-quantize"@, "llama-bench"@]
}

/// Names of the binaries to look for in the build's `bin` directory.
pub fn expected_binaries_list() -> (r: Vec<String>)
    ensures
        strings_view(r@) == expected_binaries(),
{
    let mut v: Vec<String> = Vec::new();
    v.push(String::from_str("llama-cli"));
    v.push(String::from_str("llama-server"));
    v.push(String::from_str("llama-quantize"));
    v.push(String::from_str("llama-bench"));
    assert(strings_view(v@) =~= expected_binaries());
    v
}

/// Number of parallel build jobs for a machine with `cpus` logical CPUs:
/// all of them, and at least one.
pub fn parallel_jobs_for(cpus: usize) -> (r: usize)
    ensures
        r == if cpus > 1 { cpus } else { 1 },
        r >= 1,
{
    if cpus > 1 {
        cpus
    } else {
        1
    }
}

/// Where a build run stands.
#[derive(Debug, Clone, Copy, PartialEq, Eq, Structural)]
pub enum BuildStage {
    Start,
    Cloning,
    Configuring,
    Compiling,
    Verifying,
    Finished,
    Failed,
}

/// What the outside world reports back to a build run.
#[derive(Debug)]
pub enum BuildEvent {
    /// Whether the llama.cpp source directory already exists.
    SourceChecked(bool),
    /// The last requested step completed.
    StepSucceeded,
    /// The last requested step failed with this message.
    StepFailed(String),
    /// The expected binaries found in the build's `bin` directory.
    BinariesFound(Vec<String>),
}

/// What a build run asks the outside world to do next.
#[derive(Debug)]
pub enum BuildAction {
    CloneRepo,
    RunCmake,
    Compile(usize),
    LocateBinaries,
    Complete,
    Abort(String),
    /// The event did not fit the stage; nothing to do.
    Ignore,
}

/// A build in progress: its log and stage, and the directories and job
/// count it was started with.
pub struct BuildRun {
    pub log: BuildLog,
    pub stage: BuildStage,
    pub source_dir: String,
    pub build_dir: String,
    pub jobs: usize,
}

/// The line reporting which binaries were found.
pub open spec fn found_line(found: Seq<Seq<char>>) -> Seq<char> {
    if found.len() == 0 {
        "Warning: could not locate built binaries."@
    } else {
        "Found binaries: "@ + joined(found, ", "@)
    }
}

/// The stage a run moves to on an event.
pub open spec fn next_stage(stage: BuildStage, event: BuildEvent) -> BuildStage {
    match (stage, event) {
        (BuildStage::Start, BuildEvent::SourceChecked(exists)) => if exists {
            BuildStage::Configuring
        } else {
            BuildStage::Cloning
        },
        (BuildStage::Cloning, BuildEvent::StepSucceeded) => BuildStage::Configuring,
        (BuildStage::Configuring, BuildEvent::StepSucceeded) => BuildStage::Compiling,
        (BuildStage::Compiling, BuildEvent::StepSucceeded) => BuildStage::Verifying,
        (BuildStage::Verifying, BuildEvent::BinariesFound(_)) => BuildStage::Finished,
        (BuildStage::Cloning, BuildEvent::StepFailed(_)) => BuildStage::Failed,
        (BuildStage::Configuring, BuildEvent::StepFailed(_)) => BuildStage::Failed,
        (BuildStage::Compiling, BuildEvent::StepFailed(_)) => BuildStage::Failed,
        _ => stage,
    }
}

/// The lines a run appends to its log on an event.
pub open spec fn new_lines(run: BuildRun, event: BuildEvent) -> Seq<Seq<char>> {
    match (run.stage, event) {
        (BuildStage::Start, BuildEvent::SourceChecked(exists)) => if exists {
            seq![
                "Source already exists at "@ + run.source_dir@ + ", skipping clone."@,
                "Running CMake configuration..."@,
            ]
        } else {
            seq!["Cloning llama.cpp repository..."@]
        },
        (BuildStage::Cloning, BuildEvent::StepSucceeded) => seq![
            "Clone complete."@,
            "Running CMake configuration..."@,
        ],
        (BuildStage::Configuring, BuildEvent::StepSucceeded) => seq![
            "CMake configuration successful."@,
            "Building with "@ + decimal(run.jobs as nat) + " parallel jobs..."@,
        ],
        (BuildStage::Compiling, BuildEvent::StepSucceeded) => seq!["Build successful."@],
        (BuildStage::Verifying, BuildEvent::BinariesFound(found)) => seq![
            found_line(strings_view(found@)),
            "Build complete. Binaries in "@ + run.build_dir@ + "/bin/"@,
        ],
        _ => seq![],
    }
}

/// The phase shown for a stage.
pub open spec fn stage_phase(stage: BuildStage, current: BuildPhase) -> BuildPhase {
    match stage {
        BuildStage::Start => BuildPhase::Clone,
        BuildStage::Cloning => BuildPhase::Clone,
        BuildStage::Configuring => BuildPhase::Configure,
        BuildStage::Compiling => BuildPhase::Compile,
        BuildStage::Verifying => BuildPhase::Verify,
        BuildStage::Finished => BuildPhase::Done,
        BuildStage::Failed => current,
    }
}

/// The phase shown after an event: that of the new stage, or the old one
/// when the event changed nothing.
pub open spec fn next_phase(stage: BuildStage, event: BuildEvent, phase: BuildPhase) -> BuildPhase {
    if next_stage(stage, event) == stage {
        phase
    } else {
        stage_phase(next_stage(stage, event), phase)
    }
}

/// Whether the run counts as successful after an event: it did already, or
/// the event completed verification.
pub open spec fn success_after(run: BuildRun, event: BuildEvent) -> bool {
    run.log.success || (run.stage == BuildStage::Verifying && next_stage(run.stage, event)
        == BuildStage::Finished)
}

/// Position of a stage in the pipeline; failing ends it.
pub open spec fn stage_rank(s: BuildStage) -> int {
    match s {
        BuildStage::Start => 0,
        BuildStage::Cloning => 1,
        BuildStage::Configuring => 2,
        BuildStage::Compiling => 3,
        BuildStage::Verifying => 4,
        BuildStage::Finished => 5,
        BuildStage::Failed => 5,
    }
}

/// The phase a run shows matches its stage.
pub open spec fn phase_consistent(run: BuildRun) -> bool {
    run.stage != BuildStage::Failed ==> run.log.phase == stage_phase(run.stage, run.log.phase)
}

impl BuildRun {
    pub fn new(source_dir: String, build_dir: String, jobs: usize) -> (r: Self)
        ensures
            r.stage == BuildStage::Start,
            r.log.lines@.len() == 0,
            r.log.phase == BuildPhase::Clone,
            !r.log.success,
            r.source_dir == source_dir,
            r.build_dir == build_dir,
            r.jobs == jobs,
    {
        BuildRun { log: BuildLog::new(), stage: BuildStage::Start, source_dir, build_dir, jobs }
    }

    /// Take in what the last step reported and say what to do next.
    pub fn advance(&mut self, event: BuildEvent) -> (r: BuildAction)
        ensures
            final(self).stage == next_stage(old(self).stage, event),
            strings_view(final(self).log.lines@) == strings_view(old(self).log.lines@) + new_lines(
                *old(self),
                event,
            ),
            final(self).log.phase == next_phase(old(self).stage, event, old(self).log.phase),
            final(self).log.success == success_after(*old(self), event),
            final(self).source_dir == old(self).source_dir,
            final(self).build_dir == old(self).build_dir,
            final(self).jobs == old(self).jobs,
            match (old(self).stage, event) {
                (BuildStage::Start, BuildEvent::SourceChecked(exists)) => if exists {
                    r is RunCmake
                } else {
                    r is CloneRepo
                },
                (BuildStage::Cloning, BuildEvent::StepSucceeded) => r is RunCmake,
                (BuildStage::Configuring, BuildEvent::StepSucceeded) => r == BuildAction::Compile(
                    old(self).jobs,
                ),
                (BuildStage::Compiling, BuildEvent::StepSucceeded) => r is LocateBinaries,
                (BuildStage::Verifying, BuildEvent::BinariesFound(_)) => r is Complete,
                (BuildStage::Cloning, BuildEvent::StepFailed(m)) => r == BuildAction::Abort(m),
                (BuildStage::Configuring, BuildEvent::StepFailed(m)) => r == BuildAction::Abort(m),
                (BuildStage::Compiling, BuildEvent::StepFailed(m)) => r == BuildAction::Abort(m),
                _ => r is Ignore,
            },
    {
        let ghost lines0 = strings_view(self.log.lines@);
        let ghost run0 = *self;
        match (self.stage, event) {
            (BuildStage::Start, BuildEvent::SourceChecked(exists)) => {
                if exists {
                    let mut m = String::from_str("Source already exists at ");
                    m.append(self.source_dir.as_str());
                    m.append(", skipping clone.");
                    self.log.log(m);
                    self.log.log(String::from_str("Running CMake configuration..."));
                    self.log.phase = BuildPhase::Configure;
                    self.stage = BuildStage::Configuring;
                    assert(strings_view(self.log.lines@) =~= lines0 + new_lines(
                        run0,
                        BuildEvent::SourceChecked(exists),
                    ));
                    BuildAction::RunCmake
                } else {
                    self.log.log(String::from_str("Cloning llama.cpp repository..."));
                    self.log.phase = BuildPhase::Clone;
                    self.stage = BuildStage::Cloning;
                    assert(strings_view(self.log.lines@) =~= lines0 + new_lines(
                        run0,
                        BuildEvent::SourceChecked(exists),
                    ));
                    BuildAction::CloneRepo
                }
            },
            (BuildStage::Cloning, BuildEvent::StepSucceeded) => {
                self.log.log(String::from_str("Clone complete."));
                self.log.log(String::from_str("Running CMake configuration..."));
                self.log.phase = BuildPhase::Configure;
                self.stage = BuildStage::Configuring;
                assert(strings_view(self.log.lines@) =~= lines0 + new_lines(
                    run0,
                    BuildEvent::StepSucceeded,
                ));
                BuildAction::RunCmake
            },
            (BuildStage::Configuring, BuildEvent::StepSucceeded) => {
                self.log.log(String::from_str("CMake configuration successful."));
                let mut m = String::from_str("Building with ");
                push_decimal(&mut m, self.jobs as u64);
                m.append(" parallel jobs...");
                self.log.log(m);
                self.log.phase = BuildPhase::Compile;
                self.stage = BuildStage::Compiling;
                assert(strings_view(self.log.lines@) =~= lines0 + new_lines(
                    run0,
                    BuildEvent::StepSucceeded,
                ));
                BuildAction::Compile(self.jobs)
            },
            (BuildStage::Compiling, BuildEvent::StepSucceeded) => {
                self.log.log(String::from_str("Build successful."));
                self.log.phase = BuildPhase::Verify;
                self.stage = BuildStage::Verifying;
                assert(strings_view(self.log.lines@) =~= lines0 + new_lines(
                    run0,
                    BuildEvent::StepSucceeded,
                ));
                BuildAction::LocateBinaries
            },
            (BuildStage::Verifying, BuildEvent::BinariesFound(found)) => {
                let ghost fv = strings_view(found@);
                if found.len() == 0 {
                    self.log.log(String::from_str("Warning: could not locate built binaries."));
                } else {
                    let mut m = String::from_str("Found binaries: ");
                    let list = join_strings(found.as_slice(), ", ");
                    m.append(list.as_str());
                    self.log.log(m);
                }
                let mut m2 = String::from_str("Build complete. Binaries in ");
                m2.append(self.build_dir.as_str());
                m2.append("/bin/");
                self.log.log(m2);
                self.log.phase = BuildPhase::Done;
                self.log.success = true;
                self.stage = BuildStage::Finished;
                assert(strings_view(self.log.lines@) =~= lines0 + new_lines(
                    run0,
                    BuildEvent::BinariesFound(found),
                ));
                BuildAction::Complete
            },
            (BuildStage::Cloning, BuildEvent::StepFailed(m)) => {
                self.stage = BuildStage::Failed;
                assert(strings_view(self.log.lines@) =~= lines0 + new_lines(
                    run0,
                    BuildEvent::StepFailed(m),
                ));
                BuildAction::Abort(m)
            },
            (BuildStage::Configuring, BuildEvent::StepFailed(m)) => {
                self.stage = BuildStage::Failed;
                assert(strings_view(self.log.lines@) =~= lines0 + new_lines(
                    run0,
                    BuildEvent::StepFailed(m),
                ));
                BuildAction::Abort(m)
            },
            (BuildStage::Compiling, BuildEvent::StepFailed(m)) => {
                self.stage = BuildStage::Failed;
                assert(strings_view(self.log.lines@) =~= lines0 + new_lines(
                    run0,
                    BuildEvent::StepFailed(m),
                ));
                BuildAction::Abort(m)
            },
            (_, ev) => {
                assert(strings_view(self.log.lines@) =~= lines0 + new_lines(run0, ev));
                BuildAction::Ignore
            },
        }
    }
}

/// A build only moves forward: its stage rank never decreases, the phase
/// it shows never goes back, and the log only grows.
pub proof fn lemma_build_progress(run: BuildRun, event: BuildEvent)
    requires
        phase_consistent(run),
    ensures
        stage_rank(next_stage(run.stage, event)) >= stage_rank(run.stage),
        phase_rank(next_phase(run.stage, event, run.log.phase)) >= phase_rank(run.log.phase),
        new_lines(run, event).len() <= 2,
{
}

/// A run reports success only by reaching the end of the pipeline.
pub proof fn lemma_success_only_when_finished(run: BuildRun, event: BuildEvent)
    requires
        !run.log.success,
    ensures
        success_after(run, event) ==> run.stage == BuildStage::Verifying && (event is BinariesFound)
            && next_stage(run.stage, event) == BuildStage::Finished,
{
}

} // verus!
