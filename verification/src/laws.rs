//! Laws of the build machine, stated over whole runs.
//!
//! A run is the sequence of actions the machine emits while a sequence of
//! events drives it. The laws here pin down the machine's global behaviour:
//! tool resolution begins at most once per run; an absent tool means zero
//! post-processing invocations and a successful end; a present tool means
//! exactly one post-processing invocation per produced module, in input
//! order, each rewriting its module in place.

use vstd::prelude::*;
use crate::orchestrator::{
    BuildActionModel, BuildOutcomeModel, BuildPhaseModel, HostEventModel, OrchestratorModel,
    optimizer_args_spec, step_model,
};
use crate::resolver::{ResolverActionModel, ResolverEventModel, ResolverModel, ResolverStateModel, resolver_step};

verus! {

/// The actions a run emits: the machine starts at `m` and takes the events
/// of `evs` in order.
pub open spec fn run_actions(m: OrchestratorModel, evs: Seq<HostEventModel>) -> Seq<BuildActionModel>
    decreases evs.len(),
{
    if evs.len() == 0 {
        Seq::empty()
    } else {
        let s = step_model(m, evs[0]);
        seq![s.1] + run_actions(s.0, evs.drop_first())
    }
}

/// Whether an action begins tool resolution: the probe of the tool on the
/// search path, the first thing resolution does.
pub open spec fn is_resolution_start(a: BuildActionModel) -> bool {
    a == BuildActionModel::Tool(ResolverActionModel::Probe)
}

/// Whether an action is a post-processing invocation.
pub open spec fn is_optimizer_run(a: BuildActionModel) -> bool {
    a is RunOptimizer
}

/// How many actions of a run begin tool resolution.
pub open spec fn resolution_starts(actions: Seq<BuildActionModel>) -> int
    decreases actions.len(),
{
    if actions.len() == 0 {
        0
    } else {
        (if is_resolution_start(actions[0]) {
            1int
        } else {
            0int
        }) + resolution_starts(actions.drop_first())
    }
}

/// How many actions of a run are post-processing invocations.
pub open spec fn optimizer_runs(actions: Seq<BuildActionModel>) -> int
    decreases actions.len(),
{
    if actions.len() == 0 {
        0
    } else {
        (if is_optimizer_run(actions[0]) {
            1int
        } else {
            0int
        }) + optimizer_runs(actions.drop_first())
    }
}

/// The resolver sub-machine never re-issues the probe: whatever state it is
/// in and whatever event arrives, its next action is not the probe.
pub proof fn lemma_resolver_never_reprobes(rm: ResolverModel, ev: ResolverEventModel)
    ensures
        resolver_step(rm, ev).1 != ResolverActionModel::Probe,
{
}

/// No step of the machine re-enters the compiling phase.
pub proof fn lemma_step_leaves_compiling(m: OrchestratorModel, ev: HostEventModel)
    ensures
        !(step_model(m, ev).0.phase is Compiling),
{
}

/// Counting over the one-step unfolding of a run.
proof fn lemma_run_unfold(m: OrchestratorModel, evs: Seq<HostEventModel>)
    requires
        evs.len() > 0,
    ensures
        ({
            let s = step_model(m, evs[0]);
            let actions = run_actions(m, evs);
            &&& actions == seq![s.1] + run_actions(s.0, evs.drop_first())
            &&& resolution_starts(actions) == (if is_resolution_start(s.1) {
                1int
            } else {
                0int
            }) + resolution_starts(run_actions(s.0, evs.drop_first()))
            &&& optimizer_runs(actions) == (if is_optimizer_run(s.1) {
                1int
            } else {
                0int
            }) + optimizer_runs(run_actions(s.0, evs.drop_first()))
        }),
{
    let s = step_model(m, evs[0]);
    let rest = run_actions(s.0, evs.drop_first());
    let actions = run_actions(m, evs);
    assert(actions == seq![s.1] + rest);
    assert(actions.len() > 0);
    assert(actions[0] == s.1);
    assert(actions.drop_first() =~= rest);
}

/// Tool resolution happens at most once per build run: however many modules
/// the build produced and however the events go, a run from the compiling
/// phase begins resolution at most once, and a run from any later phase
/// never does.
pub proof fn lemma_resolution_at_most_once(m: OrchestratorModel, evs: Seq<HostEventModel>)
    ensures
        resolution_starts(run_actions(m, evs)) <= if m.phase is Compiling {
            1int
        } else {
            0int
        },
    decreases evs.len(),
{
    if evs.len() > 0 {
        let s = step_model(m, evs[0]);
        lemma_run_unfold(m, evs);
        lemma_step_leaves_compiling(m, evs[0]);
        lemma_resolution_at_most_once(s.0, evs.drop_first());
        if !(m.phase is Compiling) {
            assert(!is_resolution_start(s.1)) by {
                if m.phase matches BuildPhaseModel::Resolving { modules }
                    && ev_is_tool(evs[0]) {
                    lemma_resolver_never_reprobes(m.resolver, evs[0]->Tool_0);
                }
            }
        }
    }
}

/// Whether an event answers a tool-resolution action.
pub open spec fn ev_is_tool(ev: HostEventModel) -> bool {
    ev is Tool
}

/// A finished run answers every event with its outcome: it never begins
/// resolution and never runs the optimizer again.
pub proof fn lemma_finished_absorbs(m: OrchestratorModel, evs: Seq<HostEventModel>)
    requires
        m.phase is Finished,
    ensures
        resolution_starts(run_actions(m, evs)) == 0,
        optimizer_runs(run_actions(m, evs)) == 0,
    decreases evs.len(),
{
    if evs.len() > 0 {
        let s = step_model(m, evs[0]);
        lemma_run_unfold(m, evs);
        lemma_finished_absorbs(s.0, evs.drop_first());
    }
}

/// With an absent tool, post-processing is skipped and the build still
/// succeeds: when resolution settles on no handle, the machine finishes at
/// once with an unoptimized success, and the whole remaining run performs
/// zero post-processing invocations, however many modules were produced.
pub proof fn lemma_absent_tool_runs_no_optimizer(
    m: OrchestratorModel,
    rev: ResolverEventModel,
    modules: Seq<Seq<char>>,
    evs: Seq<HostEventModel>,
)
    requires
        m.phase == (BuildPhaseModel::Resolving { modules }),
        resolver_step(m.resolver, rev).0.state == ResolverStateModel::Resolved(None::<Seq<char>>),
    ensures
        step_model(m, HostEventModel::Tool(rev)).1 == BuildActionModel::Finish(
            BuildOutcomeModel::Succeeded { optimized: false },
        ),
        optimizer_runs(run_actions(m, seq![HostEventModel::Tool(rev)] + evs)) == 0,
{
    let ev = HostEventModel::Tool(rev);
    let s = step_model(m, ev);
    let all = seq![ev] + evs;
    assert(all[0] == ev);
    assert(all.len() == evs.len() + 1);
    lemma_run_unfold(m, all);
    assert(all.drop_first() =~= evs);
    lemma_finished_absorbs(s.0, evs);
}

/// The actions that follow a successful post-processing invocation for
/// `modules[next]`: one invocation per later module, in order, then the
/// successful end of the run.
pub open spec fn optimizing_plan(tool: Seq<char>, modules: Seq<Seq<char>>, next: int) -> Seq<BuildActionModel>
    decreases modules.len() - next,
{
    if next + 1 < modules.len() {
        seq![
            BuildActionModel::RunOptimizer {
                program: tool,
                args: optimizer_args_spec(modules[next + 1]),
            },
        ] + optimizing_plan(tool, modules, next + 1)
    } else {
        seq![BuildActionModel::Finish(BuildOutcomeModel::Succeeded { optimized: true })]
    }
}

/// From the optimizing phase, a run whose events all report success follows
/// the plan exactly.
proof fn lemma_optimizing_trace(
    m: OrchestratorModel,
    tool: Seq<char>,
    modules: Seq<Seq<char>>,
    next: int,
    evs: Seq<HostEventModel>,
)
    requires
        m.phase == (BuildPhaseModel::Optimizing { tool, modules, next }),
        0 <= next < modules.len(),
        evs.len() == modules.len() - next,
        forall|i: int|
            0 <= i < evs.len() ==> evs[i] == (HostEventModel::OptimizerFinished { success: true }),
    ensures
        run_actions(m, evs) == optimizing_plan(tool, modules, next),
    decreases evs.len(),
{
    assert(evs[0] == (HostEventModel::OptimizerFinished { success: true }));
    let s = step_model(m, evs[0]);
    lemma_run_unfold(m, evs);
    if next + 1 < modules.len() {
        lemma_optimizing_trace(s.0, tool, modules, next + 1, evs.drop_first());
        assert(run_actions(m, evs) =~= optimizing_plan(tool, modules, next));
    } else {
        assert(evs.len() == 1);
        assert(run_actions(s.0, evs.drop_first()) =~= Seq::<BuildActionModel>::empty());
        assert(run_actions(m, evs) =~= optimizing_plan(tool, modules, next));
    }
}

/// The plan's shape: one invocation per remaining module, in order, each
/// over that module's path, and the successful end last.
proof fn lemma_optimizing_plan_shape(tool: Seq<char>, modules: Seq<Seq<char>>, next: int)
    requires
        0 <= next < modules.len(),
    ensures
        ({
            let plan = optimizing_plan(tool, modules, next);
            &&& plan.len() == modules.len() - next
            &&& plan.last() == BuildActionModel::Finish(
                BuildOutcomeModel::Succeeded { optimized: true },
            )
            &&& forall|i: int|
                0 <= i < modules.len() - next - 1 ==> plan[i] == (BuildActionModel::RunOptimizer {
                    program: tool,
                    args: optimizer_args_spec(modules[next + 1 + i]),
                })
        }),
    decreases modules.len() - next,
{
    if next + 1 < modules.len() {
        lemma_optimizing_plan_shape(tool, modules, next + 1);
        let plan = optimizing_plan(tool, modules, next);
        let rest = optimizing_plan(tool, modules, next + 1);
        assert(plan.last() == rest.last());
        assert(forall|i: int|
            1 <= i < modules.len() - next - 1 ==> plan[i] == rest[i - 1]);
    }
}

/// With a present tool and `N` produced modules, a run whose events all
/// report success performs exactly `N` post-processing invocations, the
/// `i`-th invoking the tool over `modules[i]` as both its input and its
/// output, in input order, and then ends the run successfully.
pub proof fn lemma_present_tool_optimizes_each_module(
    m: OrchestratorModel,
    rev: ResolverEventModel,
    tool: Seq<char>,
    modules: Seq<Seq<char>>,
    evs: Seq<HostEventModel>,
)
    requires
        m.phase == (BuildPhaseModel::Resolving { modules }),
        resolver_step(m.resolver, rev).0.state == ResolverStateModel::Resolved(Some(tool)),
        evs.len() == modules.len(),
        forall|i: int|
            0 <= i < evs.len() ==> evs[i] == (HostEventModel::OptimizerFinished { success: true }),
    ensures
        ({
            let actions = run_actions(m, seq![HostEventModel::Tool(rev)] + evs);
            &&& actions.len() == modules.len() + 1
            &&& forall|i: int|
                0 <= i < modules.len() ==> actions[i] == (BuildActionModel::RunOptimizer {
                    program: tool,
                    args: optimizer_args_spec(modules[i]),
                })
            &&& actions.last() == BuildActionModel::Finish(
                BuildOutcomeModel::Succeeded { optimized: true },
            )
        }),
{
    let ev = HostEventModel::Tool(rev);
    let all = seq![ev] + evs;
    assert(all[0] == ev);
    let s = step_model(m, ev);
    lemma_run_unfold(m, all);
    assert(all.drop_first() =~= evs);
    let actions = run_actions(m, all);
    if modules.len() == 0 {
        assert(s.0.phase is Finished);
        lemma_finished_absorbs(s.0, evs);
        assert(run_actions(s.0, evs) =~= Seq::<BuildActionModel>::empty()) by {
            assert(evs.len() == 0);
        }
        assert(actions =~= seq![s.1]);
    } else {
        assert(s.0.phase == (BuildPhaseModel::Optimizing { tool, modules, next: 0 }));
        assert(s.1 == (BuildActionModel::RunOptimizer {
            program: tool,
            args: optimizer_args_spec(modules[0]),
        }));
        lemma_optimizing_trace(s.0, tool, modules, 0, evs);
        lemma_optimizing_plan_shape(tool, modules, 0);
        let plan = optimizing_plan(tool, modules, 0);
        assert(actions == seq![s.1] + plan);
        assert(actions.len() == modules.len() + 1);
        assert(forall|i: int| 1 <= i < modules.len() ==> actions[i] == plan[i - 1]);
        assert(actions.last() == plan.last());
    }
}

} // verus!
