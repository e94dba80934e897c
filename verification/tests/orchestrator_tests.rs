use cart_build::orchestrator::{
    build, BuildAction, BuildOrchestrator, BuildOutcome, BuildPhase, HostEvent,
};
use cart_build::request::BuildRequest;
use cart_build::resolver::{
    Arch, Platform, ProbeOutcome, ResolverAction, ResolverEvent, default_version,
};

fn args(v: &[&str]) -> Vec<String> {
    v.iter().map(|s| s.to_string()).collect()
}

fn artifact_line(executable: &str) -> String {
    format!(
        "{{\"reason\":\"compiler-artifact\",\
         \"package_id\":\"cart 0.1.0 (path+file:///work/cart)\",\
         \"target\":{{\"name\":\"cart\",\"kind\":[\"bin\"],\"src_path\":\"/work/cart/src/main.rs\"}},\
         \"profile\":{{\"opt_level\":\"z\",\"debug_assertions\":false,\"overflow_checks\":false,\"test\":false}},\
         \"features\":[],\"filenames\":[\"{e}\"],\"executable\":\"{e}\",\"fresh\":false}}",
        e = executable
    )
}

fn start(extra: &[&str]) -> (BuildOrchestrator, BuildAction) {
    build(
        &BuildRequest::new(args(extra)),
        default_version(),
        false,
        Arch::X86_64,
        Platform::Linux,
        "/work/cart".to_string(),
    )
}

fn compiler_finished(success: bool, stdout: &str) -> HostEvent {
    HostEvent::CompilerFinished { success, stdout: stdout.as_bytes().to_vec() }
}

#[test]
fn build_opens_with_the_composed_compiler_invocation() {
    let (_, action) = start(&["--quiet"]);
    match action {
        BuildAction::RunCompiler { args: a } => assert_eq!(
            a,
            args(&[
                "build",
                "--target=wasm32-unknown-unknown",
                "--message-format=json-render-diagnostics",
                "--release",
                "--quiet",
            ])
        ),
        other => panic!("unexpected action: {:?}", other),
    }
}

#[test]
fn compiler_failure_is_fatal() {
    let (mut o, _) = start(&[]);
    let a = o.step(compiler_finished(false, ""));
    assert!(matches!(a, BuildAction::Finish(BuildOutcome::CompilerFailed)));
}

#[test]
fn malformed_compiler_output_is_fatal() {
    let (mut o, _) = start(&[]);
    let stdout = format!("{}\nnot a record\n", artifact_line("a.wasm"));
    let a = o.step(compiler_finished(true, &stdout));
    match a {
        BuildAction::Finish(BuildOutcome::MalformedOutput { line }) => assert_eq!(line, 1),
        other => panic!("unexpected action: {:?}", other),
    }
}

#[test]
fn present_tool_optimizes_each_module_in_place_and_in_order() {
    let (mut o, _) = start(&[]);
    let stdout = format!(
        "{}\n{}\n",
        artifact_line("/work/cart/target/wasm32/release/a.wasm"),
        artifact_line("b.wasm")
    );
    let a = o.step(compiler_finished(true, &stdout));
    assert!(matches!(a, BuildAction::Tool(ResolverAction::Probe)));

    let a = o.step(HostEvent::Tool(ResolverEvent::ProbeFinished(ProbeOutcome::Launched)));
    match a {
        BuildAction::RunOptimizer { program, args: opt } => {
            assert_eq!(program, "wasm-opt");
            assert_eq!(
                opt,
                args(&[
                    "-Oz",
                    "--strip-debug",
                    "--strip-producers",
                    "--zero-filled-memory",
                    "target/wasm32/release/a.wasm",
                    "--output",
                    "target/wasm32/release/a.wasm",
                ])
            );
        },
        other => panic!("unexpected action: {:?}", other),
    }

    let a = o.step(HostEvent::OptimizerFinished { success: true });
    match a {
        BuildAction::RunOptimizer { program, args: opt } => {
            assert_eq!(program, "wasm-opt");
            assert_eq!(opt[4], "b.wasm");
            assert_eq!(opt[6], "b.wasm");
        },
        other => panic!("unexpected action: {:?}", other),
    }

    let a = o.step(HostEvent::OptimizerFinished { success: true });
    assert!(matches!(
        a,
        BuildAction::Finish(BuildOutcome::Succeeded { optimized: true })
    ));
}

#[test]
fn tool_resolution_is_begun_at_most_once_per_build() {
    let (mut o, _) = start(&[]);
    let stdout = format!("{}\n{}\n", artifact_line("a.wasm"), artifact_line("b.wasm"));
    let mut probes = 0;
    let events = vec![
        compiler_finished(true, &stdout),
        HostEvent::Tool(ResolverEvent::ProbeFinished(ProbeOutcome::Launched)),
        HostEvent::OptimizerFinished { success: true },
        HostEvent::OptimizerFinished { success: true },
    ];
    for ev in events {
        if matches!(o.step(ev), BuildAction::Tool(ResolverAction::Probe)) {
            probes += 1;
        }
    }
    assert_eq!(probes, 1);
}

#[test]
fn absent_tool_skips_optimization_and_still_succeeds() {
    let (mut o, _) = build(
        &BuildRequest::new(args(&[])),
        default_version(),
        true,
        Arch::X86_64,
        Platform::Linux,
        "/work/cart".to_string(),
    );
    let stdout = format!("{}\n{}\n", artifact_line("a.wasm"), artifact_line("b.wasm"));
    o.step(compiler_finished(true, &stdout));
    let a = o.step(HostEvent::Tool(ResolverEvent::ProbeFinished(ProbeOutcome::NotFound)));
    assert!(matches!(a, BuildAction::Tool(ResolverAction::CheckCache { .. })));
    let a = o.step(HostEvent::Tool(ResolverEvent::CacheChecked(None)));
    assert!(matches!(
        a,
        BuildAction::Finish(BuildOutcome::Succeeded { optimized: false })
    ));
}

#[test]
fn empty_module_list_is_still_a_successful_build() {
    let (mut o, _) = start(&[]);
    let a = o.step(compiler_finished(true, ""));
    assert!(matches!(a, BuildAction::Tool(ResolverAction::Probe)));
    let a = o.step(HostEvent::Tool(ResolverEvent::ProbeFinished(ProbeOutcome::Launched)));
    assert!(matches!(
        a,
        BuildAction::Finish(BuildOutcome::Succeeded { optimized: true })
    ));
}

#[test]
fn found_but_failing_tool_is_fatal() {
    let (mut o, _) = start(&[]);
    let stdout = format!("{}\n", artifact_line("a.wasm"));
    o.step(compiler_finished(true, &stdout));
    o.step(HostEvent::Tool(ResolverEvent::ProbeFinished(ProbeOutcome::Launched)));
    let a = o.step(HostEvent::OptimizerFinished { success: false });
    match a {
        BuildAction::Finish(BuildOutcome::OptimizerFailed { module }) => {
            assert_eq!(module, "a.wasm")
        },
        other => panic!("unexpected action: {:?}", other),
    }
}

#[test]
fn fatal_resolution_failure_aborts_the_build() {
    let (mut o, _) = start(&[]);
    let stdout = format!("{}\n", artifact_line("a.wasm"));
    o.step(compiler_finished(true, &stdout));
    let a = o.step(HostEvent::Tool(ResolverEvent::ProbeFinished(ProbeOutcome::LaunchFailed)));
    assert!(matches!(a, BuildAction::Finish(BuildOutcome::ResolutionFailed(_))));
}

#[test]
fn event_the_phase_does_not_expect_is_fatal() {
    let (mut o, _) = start(&[]);
    let a = o.step(HostEvent::OptimizerFinished { success: true });
    assert!(matches!(a, BuildAction::Finish(BuildOutcome::UnexpectedEvent)));
}

#[test]
fn finished_run_reports_its_outcome_again() {
    let (mut o, _) = start(&[]);
    o.step(compiler_finished(false, ""));
    assert!(matches!(o.phase(), BuildPhase::Finished { .. }));
    let a = o.step(HostEvent::OptimizerFinished { success: true });
    assert!(matches!(a, BuildAction::Finish(BuildOutcome::CompilerFailed)));
}
