//! The build pipeline's orchestration.
//!
//! One build run: invoke the compiler with the composed arguments, parse its
//! captured output into the produced module paths, resolve the
//! post-processing tool once, then run the tool over each module in input
//! order, rewriting it in place. A missing tool degrades gracefully — the
//! build still succeeds, unoptimized; a found-but-failing tool invocation,
//! a compiler failure and malformed compiler output are fatal.
//!
//! The orchestrator performs no process or file work itself: `build` opens a
//! run as a state machine, and each `step` takes the outcome of the last
//! action and decides the next one. The surrounding program runs the loop.

use vstd::prelude::*;
use vstd::string::StringExecFns;
use crate::artifacts::{
    ParseError, first_malformed, lemma_first_malformed, lines_of, parse_executables,
    parsed_modules, records_well_formed,
};
use crate::request::{BuildRequest, composed_args};
use crate::resolver::{
    ResolverAction, ResolverActionModel, ResolverError, ResolverEvent, ResolverEventModel,
    ResolverModel, ResolverState, ResolverStateModel, ToolHandle, ToolResolver, resolver_step,
    Arch, Platform,
};

verus! {

/// The flags the post-processing tool is invoked with, around a module path:
/// maximum size reduction, stripped debug and producer metadata, zero-filled
/// uninitialized memory, and an in-place rewrite — the module path stands as
/// both the input and the `--output` argument.
pub open spec fn optimizer_args_spec(module: Seq<char>) -> Seq<Seq<char>> {
    seq![
        "-Oz"@,
        "--strip-debug"@,
        "--strip-producers"@,
        "--zero-filled-memory"@,
        module,
        "--output"@,
        module,
    ]
}

/// The in-place rewrite, spelled out: the module path stands in the tool's
/// arguments exactly twice, as the input and as the output.
pub proof fn lemma_optimizer_rewrites_in_place(module: Seq<char>)
    ensures
        optimizer_args_spec(module).len() == 7,
        optimizer_args_spec(module)[4] == module,
        optimizer_args_spec(module)[6] == module,
{
}

/// Builds the post-processing invocation for one module.
pub fn optimizer_args(module: &String) -> (r: Vec<String>)
    ensures
        r.deep_view() == optimizer_args_spec(module@),
{
    let mut r: Vec<String> = Vec::new();
    r.push(String::from_str("-Oz"));
    r.push(String::from_str("--strip-debug"));
    r.push(String::from_str("--strip-producers"));
    r.push(String::from_str("--zero-filled-memory"));
    r.push(module.clone());
    r.push(String::from_str("--output"));
    r.push(module.clone());
    proof {
        assert(r.deep_view() =~~= optimizer_args_spec(module@));
    }
    r
}

/// How a build run ended.
#[derive(Debug)]
pub enum BuildOutcome {
    /// The build succeeded; `optimized` says whether the post-processing
    /// tool was found and applied.
    Succeeded { optimized: bool },
    /// The compiler exited with a non-zero status.
    CompilerFailed,
    /// A record of the compiler's output failed to decode; `line` is the
    /// index of the first malformed line.
    MalformedOutput { line: usize },
    /// Tool resolution failed fatally.
    ResolutionFailed(ResolverError),
    /// The post-processing tool was found and then failed on this module.
    OptimizerFailed { module: String },
    /// An event arrived that the machine's state does not expect.
    UnexpectedEvent,
}

/// The mathematical value of a build outcome.
#[verifier::ext_equal]
pub enum BuildOutcomeModel {
    Succeeded { optimized: bool },
    CompilerFailed,
    MalformedOutput { line: int },
    ResolutionFailed(ResolverError),
    OptimizerFailed { module: Seq<char> },
    UnexpectedEvent,
}

impl View for BuildOutcome {
    type V = BuildOutcomeModel;

    open spec fn view(&self) -> BuildOutcomeModel {
        match self {
            BuildOutcome::Succeeded { optimized } => BuildOutcomeModel::Succeeded {
                optimized: *optimized,
            },
            BuildOutcome::CompilerFailed => BuildOutcomeModel::CompilerFailed,
            BuildOutcome::MalformedOutput { line } => BuildOutcomeModel::MalformedOutput {
                line: *line as int,
            },
            BuildOutcome::ResolutionFailed(e) => BuildOutcomeModel::ResolutionFailed(*e),
            BuildOutcome::OptimizerFailed { module } => BuildOutcomeModel::OptimizerFailed {
                module: module@,
            },
            BuildOutcome::UnexpectedEvent => BuildOutcomeModel::UnexpectedEvent,
        }
    }
}

/// Where a build run stands.
#[derive(Debug)]
pub enum BuildPhase {
    /// The compiler invocation is underway.
    Compiling,
    /// The produced modules are known; tool resolution is underway.
    Resolving { modules: Vec<String> },
    /// The tool is present; modules before `next` are already optimized and
    /// the invocation for `modules[next]` is underway.
    Optimizing { tool: String, modules: Vec<String>, next: usize },
    /// The run is over.
    Finished { outcome: BuildOutcome },
}

/// The mathematical value of a build phase.
#[verifier::ext_equal]
pub enum BuildPhaseModel {
    Compiling,
    Resolving { modules: Seq<Seq<char>> },
    Optimizing { tool: Seq<char>, modules: Seq<Seq<char>>, next: int },
    Finished { outcome: BuildOutcomeModel },
}

impl View for BuildPhase {
    type V = BuildPhaseModel;

    open spec fn view(&self) -> BuildPhaseModel {
        match self {
            BuildPhase::Compiling => BuildPhaseModel::Compiling,
            BuildPhase::Resolving { modules } => BuildPhaseModel::Resolving {
                modules: modules.deep_view(),
            },
            BuildPhase::Optimizing { tool, modules, next } => BuildPhaseModel::Optimizing {
                tool: tool@,
                modules: modules.deep_view(),
                next: *next as int,
            },
            BuildPhase::Finished { outcome } => BuildPhaseModel::Finished { outcome: outcome@ },
        }
    }
}

/// What the surrounding program observed, handed to the machine as the
/// answer to its last action.
#[derive(Debug)]
pub enum HostEvent {
    /// The compiler finished: its exit status and its captured standard
    /// output, byte for byte.
    CompilerFinished { success: bool, stdout: Vec<u8> },
    /// The outcome of a tool-resolution action.
    Tool(ResolverEvent),
    /// One post-processing invocation finished with this exit status.
    OptimizerFinished { success: bool },
}

/// The mathematical value of a host event.
#[verifier::ext_equal]
pub enum HostEventModel {
    CompilerFinished { success: bool, stdout: Seq<u8> },
    Tool(ResolverEventModel),
    OptimizerFinished { success: bool },
}

impl View for HostEvent {
    type V = HostEventModel;

    open spec fn view(&self) -> HostEventModel {
        match self {
            HostEvent::CompilerFinished { success, stdout } => HostEventModel::CompilerFinished {
                success: *success,
                stdout: stdout@,
            },
            HostEvent::Tool(ev) => HostEventModel::Tool(ev@),
            HostEvent::OptimizerFinished { success } => HostEventModel::OptimizerFinished {
                success: *success,
            },
        }
    }
}

/// What the surrounding program must do next.
#[derive(Debug)]
pub enum BuildAction {
    /// Run the compiler with these arguments, capture its standard output,
    /// stream its standard error through.
    RunCompiler { args: Vec<String> },
    /// Perform a tool-resolution action.
    Tool(ResolverAction),
    /// Run the post-processing tool at `program` with these arguments.
    RunOptimizer { program: String, args: Vec<String> },
    /// The run is over with this outcome.
    Finish(BuildOutcome),
}

/// The mathematical value of a build action.
#[verifier::ext_equal]
pub enum BuildActionModel {
    RunCompiler { args: Seq<Seq<char>> },
    Tool(ResolverActionModel),
    RunOptimizer { program: Seq<char>, args: Seq<Seq<char>> },
    Finish(BuildOutcomeModel),
}

impl View for BuildAction {
    type V = BuildActionModel;

    open spec fn view(&self) -> BuildActionModel {
        match self {
            BuildAction::RunCompiler { args } => BuildActionModel::RunCompiler {
                args: args.deep_view(),
            },
            BuildAction::Tool(a) => BuildActionModel::Tool(a@),
            BuildAction::RunOptimizer { program, args } => BuildActionModel::RunOptimizer {
                program: program@,
                args: args.deep_view(),
            },
            BuildAction::Finish(o) => BuildActionModel::Finish(o@),
        }
    }
}

/// One build run: its phase, its tool resolver, and the working directory
/// produced paths are normalized against.
pub struct BuildOrchestrator {
    phase: BuildPhase,
    resolver: ToolResolver,
    cwd: String,
}

/// The mathematical value of a build run.
#[verifier::ext_equal]
pub struct OrchestratorModel {
    pub phase: BuildPhaseModel,
    pub resolver: ResolverModel,
    pub cwd: Seq<char>,
}

impl View for BuildOrchestrator {
    type V = OrchestratorModel;

    closed spec fn view(&self) -> OrchestratorModel {
        OrchestratorModel { phase: self.phase@, resolver: self.resolver@, cwd: self.cwd@ }
    }
}

/// The machine after a run ends with outcome `o`.
pub open spec fn finished(m: OrchestratorModel, o: BuildOutcomeModel) -> (OrchestratorModel, BuildActionModel) {
    (
        OrchestratorModel { phase: BuildPhaseModel::Finished { outcome: o }, ..m },
        BuildActionModel::Finish(o),
    )
}

/// One step of a build run: from the machine and the event answering its
/// last action to the next machine and the next action.
///
/// A failed compiler invocation is fatal. A successful one has its output
/// parsed: a malformed record is fatal; otherwise the produced modules are
/// recorded and tool resolution begins with the probe. Resolution events
/// drive the resolver sub-machine; when it settles: a present tool starts
/// one post-processing invocation per module in input order (none, and
/// immediate success, when no module was produced); an absent tool is
/// success without optimization; a resolution failure is fatal. A failed
/// post-processing invocation is fatal; a successful one starts the next
/// module's, or ends the run successfully after the last. A finished run
/// answers every further event with its outcome, and an event the state
/// does not expect ends the run as unexpected.
pub open spec fn step_model(m: OrchestratorModel, ev: HostEventModel) -> (OrchestratorModel, BuildActionModel) {
    match (m.phase, ev) {
        (BuildPhaseModel::Compiling, HostEventModel::CompilerFinished { success, stdout }) => {
            if !success {
                finished(m, BuildOutcomeModel::CompilerFailed)
            } else if !records_well_formed(lines_of(stdout)) {
                finished(
                    m,
                    BuildOutcomeModel::MalformedOutput { line: first_malformed(lines_of(stdout)) },
                )
            } else {
                (
                    OrchestratorModel {
                        phase: BuildPhaseModel::Resolving { modules: parsed_modules(stdout, m.cwd) },
                        resolver: ResolverModel { state: ResolverStateModel::Probing, ..m.resolver },
                        ..m
                    },
                    BuildActionModel::Tool(ResolverActionModel::Probe),
                )
            }
        },
        (BuildPhaseModel::Resolving { modules }, HostEventModel::Tool(rev)) => {
            let (rm, ra) = resolver_step(m.resolver, rev);
            let m2 = OrchestratorModel { resolver: rm, ..m };
            match rm.state {
                ResolverStateModel::Resolved(handle) => match handle {
                    Some(tool) => if modules.len() == 0 {
                        finished(m2, BuildOutcomeModel::Succeeded { optimized: true })
                    } else {
                        (
                            OrchestratorModel {
                                phase: BuildPhaseModel::Optimizing { tool, modules, next: 0 },
                                ..m2
                            },
                            BuildActionModel::RunOptimizer {
                                program: tool,
                                args: optimizer_args_spec(modules[0]),
                            },
                        )
                    },
                    None => finished(m2, BuildOutcomeModel::Succeeded { optimized: false }),
                },
                ResolverStateModel::Failed(e) => finished(
                    m2,
                    BuildOutcomeModel::ResolutionFailed(e),
                ),
                _ => (
                    OrchestratorModel { phase: BuildPhaseModel::Resolving { modules }, ..m2 },
                    BuildActionModel::Tool(ra),
                ),
            }
        },
        (
            BuildPhaseModel::Optimizing { tool, modules, next },
            HostEventModel::OptimizerFinished { success },
        ) => {
            if !(0 <= next < modules.len()) {
                finished(m, BuildOutcomeModel::UnexpectedEvent)
            } else if !success {
                finished(m, BuildOutcomeModel::OptimizerFailed { module: modules[next] })
            } else if next + 1 < modules.len() {
                (
                    OrchestratorModel {
                        phase: BuildPhaseModel::Optimizing { tool, modules, next: next + 1 },
                        ..m
                    },
                    BuildActionModel::RunOptimizer {
                        program: tool,
                        args: optimizer_args_spec(modules[next + 1]),
                    },
                )
            } else {
                finished(m, BuildOutcomeModel::Succeeded { optimized: true })
            }
        },
        (BuildPhaseModel::Finished { outcome }, _) => (m, BuildActionModel::Finish(outcome)),
        _ => finished(m, BuildOutcomeModel::UnexpectedEvent),
    }
}

/// Clones a build outcome.
fn clone_outcome(o: &BuildOutcome) -> (r: BuildOutcome)
    ensures
        r@ == o@,
{
    match o {
        BuildOutcome::Succeeded { optimized } => BuildOutcome::Succeeded { optimized: *optimized },
        BuildOutcome::CompilerFailed => BuildOutcome::CompilerFailed,
        BuildOutcome::MalformedOutput { line } => BuildOutcome::MalformedOutput { line: *line },
        BuildOutcome::ResolutionFailed(e) => BuildOutcome::ResolutionFailed(*e),
        BuildOutcome::OptimizerFailed { module } => BuildOutcome::OptimizerFailed {
            module: module.clone(),
        },
        BuildOutcome::UnexpectedEvent => BuildOutcome::UnexpectedEvent,
    }
}

impl BuildOrchestrator {
    /// The machine's phase, read-only.
    pub fn phase(&self) -> (r: &BuildPhase)
        ensures
            r@ == self@.phase,
    {
        &self.phase
    }

    /// One step of the build run, as `step_model` states it.
    pub fn step(&mut self, ev: HostEvent) -> (a: BuildAction)
        ensures
            (final(self)@, a@) == step_model(old(self)@, ev@),
    {
        let mut phase = BuildPhase::Compiling;
        core::mem::swap(&mut self.phase, &mut phase);
        match (phase, ev) {
            (BuildPhase::Compiling, HostEvent::CompilerFinished { success, stdout }) => {
                if !success {
                    self.phase = BuildPhase::Finished { outcome: BuildOutcome::CompilerFailed };
                    BuildAction::Finish(BuildOutcome::CompilerFailed)
                } else {
                    match parse_executables(stdout.as_slice(), self.cwd.as_str()) {
                        Err(e) => {
                            proof {
                                lemma_first_malformed(lines_of(stdout@));
                                assert(!records_well_formed(lines_of(stdout@)));
                                assert(first_malformed(lines_of(stdout@)) == e.line as int);
                            }
                            let line = e.line;
                            self.phase = BuildPhase::Finished {
                                outcome: BuildOutcome::MalformedOutput { line },
                            };
                            BuildAction::Finish(BuildOutcome::MalformedOutput { line })
                        },
                        Ok(modules) => {
                            let a = self.resolver.resolve();
                            self.phase = BuildPhase::Resolving { modules };
                            BuildAction::Tool(a)
                        },
                    }
                }
            },
            (BuildPhase::Resolving { modules }, HostEvent::Tool(rev)) => {
                let ra = self.resolver.step(rev);
                match self.resolver.state() {
                    ResolverState::Resolved(handle) => match handle {
                        ToolHandle::Present(p) => {
                            if modules.len() == 0 {
                                let o = BuildOutcome::Succeeded { optimized: true };
                                self.phase = BuildPhase::Finished { outcome: o };
                                BuildAction::Finish(BuildOutcome::Succeeded { optimized: true })
                            } else {
                                let program = p.clone();
                                let tool = p.clone();
                                let args = optimizer_args(&modules[0]);
                                proof {
                                    assert(modules.deep_view()[0] == modules@[0]@);
                                }
                                self.phase = BuildPhase::Optimizing { tool, modules, next: 0 };
                                BuildAction::RunOptimizer { program, args }
                            }
                        },
                        ToolHandle::Absent => {
                            let o = BuildOutcome::Succeeded { optimized: false };
                            self.phase = BuildPhase::Finished { outcome: o };
                            BuildAction::Finish(BuildOutcome::Succeeded { optimized: false })
                        },
                    },
                    ResolverState::Failed(e) => {
                        let err = *e;
                        self.phase = BuildPhase::Finished {
                            outcome: BuildOutcome::ResolutionFailed(err),
                        };
                        BuildAction::Finish(BuildOutcome::ResolutionFailed(err))
                    },
                    _ => {
                        self.phase = BuildPhase::Resolving { modules };
                        BuildAction::Tool(ra)
                    },
                }
            },
            (BuildPhase::Optimizing { tool, modules, next }, HostEvent::OptimizerFinished {
                success,
            }) => {
                if next >= modules.len() {
                    self.phase = BuildPhase::Finished { outcome: BuildOutcome::UnexpectedEvent };
                    BuildAction::Finish(BuildOutcome::UnexpectedEvent)
                } else if !success {
                    let module = modules[next].clone();
                    proof {
                        assert(modules.deep_view()[next as int] == modules@[next as int]@);
                    }
                    let failed = BuildOutcome::OptimizerFailed { module };
                    let reported = clone_outcome(&failed);
                    self.phase = BuildPhase::Finished { outcome: failed };
                    BuildAction::Finish(reported)
                } else if next < modules.len() - 1 {
                    let args = optimizer_args(&modules[next + 1]);
                    let program = tool.clone();
                    proof {
                        assert(modules.deep_view()[next + 1] == modules@[next + 1]@);
                    }
                    self.phase = BuildPhase::Optimizing { tool, modules, next: next + 1 };
                    BuildAction::RunOptimizer { program, args }
                } else {
                    let o = BuildOutcome::Succeeded { optimized: true };
                    self.phase = BuildPhase::Finished { outcome: o };
                    BuildAction::Finish(BuildOutcome::Succeeded { optimized: true })
                }
            },
            (BuildPhase::Finished { outcome }, _) => {
                let reported = clone_outcome(&outcome);
                self.phase = BuildPhase::Finished { outcome };
                BuildAction::Finish(reported)
            },
            _ => {
                self.phase = BuildPhase::Finished { outcome: BuildOutcome::UnexpectedEvent };
                BuildAction::Finish(BuildOutcome::UnexpectedEvent)
            },
        }
    }
}

/// Opens a build run for a request: the machine starts compiling, and the
/// first action is the compiler invocation with the composed arguments.
/// `version`, `no_install`, `arch` and `platform` configure tool resolution;
/// `cwd` is the working directory produced paths are normalized against.
pub fn build(
    request: &BuildRequest,
    version: String,
    no_install: bool,
    arch: Arch,
    platform: Platform,
    cwd: String,
) -> (r: (BuildOrchestrator, BuildAction))
    ensures
        r.0@ == (OrchestratorModel {
            phase: BuildPhaseModel::Compiling,
            resolver: ResolverModel {
                state: ResolverStateModel::Start,
                version: version@,
                no_install,
                arch,
                platform,
            },
            cwd: cwd@,
        }),
        r.1@ == (BuildActionModel::RunCompiler { args: composed_args(request@) }),
{
    let args = request.compiler_invocation();
    let orchestrator = BuildOrchestrator {
        phase: BuildPhase::Compiling,
        resolver: ToolResolver::new(version, no_install, arch, platform),
        cwd,
    };
    (orchestrator, BuildAction::RunCompiler { args })
}

} // verus!
