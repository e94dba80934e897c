use cart_build::resolver::{
    Arch, Platform, ProbeOutcome, ResolverAction, ResolverError, ResolverEvent, ResolverState,
    ToolHandle, ToolResolver, default_version, download_url, effective_version,
};

fn resolver(no_install: bool) -> ToolResolver {
    ToolResolver::new(default_version(), no_install, Arch::X86_64, Platform::Linux)
}

#[test]
fn tool_on_search_path_resolves_to_its_name() {
    let mut r = resolver(false);
    assert!(matches!(r.resolve(), ResolverAction::Probe));
    let a = r.step(ResolverEvent::ProbeFinished(ProbeOutcome::Launched));
    assert!(matches!(a, ResolverAction::Settled));
    match r.state() {
        ResolverState::Resolved(ToolHandle::Present(p)) => assert_eq!(p, "wasm-opt"),
        other => panic!("unexpected state: {:?}", other),
    }
}

#[test]
fn launch_failure_other_than_not_found_is_fatal() {
    let mut r = resolver(false);
    r.resolve();
    r.step(ResolverEvent::ProbeFinished(ProbeOutcome::LaunchFailed));
    assert!(matches!(
        r.state(),
        ResolverState::Failed(ResolverError::LaunchFailed)
    ));
}

#[test]
fn event_the_state_does_not_expect_is_fatal() {
    let mut r = resolver(false);
    r.resolve();
    let a = r.step(ResolverEvent::CacheChecked(None));
    assert!(matches!(a, ResolverAction::Settled));
    assert!(matches!(
        r.state(),
        ResolverState::Failed(ResolverError::UnexpectedEvent)
    ));
}

#[test]
fn cached_entry_is_used_without_prompting_or_downloading() {
    let mut r = resolver(false);
    r.resolve();
    let a = r.step(ResolverEvent::ProbeFinished(ProbeOutcome::NotFound));
    match a {
        ResolverAction::CheckCache { version, url } => {
            assert_eq!(version, "version_105");
            assert!(url.ends_with("binaryen-version_105-x86_64-linux.tar.gz"));
        },
        other => panic!("unexpected action: {:?}", other),
    }
    let a = r.step(ResolverEvent::CacheChecked(Some("/cache/wasm-opt/wasm-opt".to_string())));
    assert!(matches!(a, ResolverAction::Settled));
    match r.state() {
        ResolverState::Resolved(ToolHandle::Present(p)) => {
            assert_eq!(p, "/cache/wasm-opt/wasm-opt")
        },
        other => panic!("unexpected state: {:?}", other),
    }
}

#[test]
fn forced_decline_resolves_absent_without_network() {
    let mut r = resolver(true);
    r.resolve();
    r.step(ResolverEvent::ProbeFinished(ProbeOutcome::NotFound));
    let a = r.step(ResolverEvent::CacheChecked(None));
    assert!(matches!(a, ResolverAction::Settled));
    assert!(matches!(r.state(), ResolverState::Resolved(ToolHandle::Absent)));
}

#[test]
fn cache_miss_asks_for_consent_when_installation_is_allowed() {
    let mut r = resolver(false);
    r.resolve();
    r.step(ResolverEvent::ProbeFinished(ProbeOutcome::NotFound));
    let a = r.step(ResolverEvent::CacheChecked(None));
    assert!(matches!(a, ResolverAction::AskConsent));
}

#[test]
fn unrecognized_answer_asks_again() {
    let mut r = resolver(false);
    r.resolve();
    r.step(ResolverEvent::ProbeFinished(ProbeOutcome::NotFound));
    r.step(ResolverEvent::CacheChecked(None));
    let a = r.step(ResolverEvent::AnswerRead(Some("maybe\n".to_string())));
    assert!(matches!(a, ResolverAction::AskConsent));
    assert!(matches!(r.state(), ResolverState::AwaitingConsent));
}

#[test]
fn declined_consent_resolves_absent() {
    let mut r = resolver(false);
    r.resolve();
    r.step(ResolverEvent::ProbeFinished(ProbeOutcome::NotFound));
    r.step(ResolverEvent::CacheChecked(None));
    let a = r.step(ResolverEvent::AnswerRead(Some("n\n".to_string())));
    assert!(matches!(a, ResolverAction::Settled));
    assert!(matches!(r.state(), ResolverState::Resolved(ToolHandle::Absent)));
}

#[test]
fn granted_consent_downloads_from_the_versioned_url() {
    let mut r = resolver(false);
    r.resolve();
    r.step(ResolverEvent::ProbeFinished(ProbeOutcome::NotFound));
    r.step(ResolverEvent::CacheChecked(None));
    let a = r.step(ResolverEvent::AnswerRead(Some("\n".to_string())));
    match a {
        ResolverAction::Download { url, version } => {
            assert_eq!(
                url,
                "https://github.com/WebAssembly/binaryen/releases/download/version_105/\
                 binaryen-version_105-x86_64-linux.tar.gz"
            );
            assert_eq!(version, "version_105");
        },
        other => panic!("unexpected action: {:?}", other),
    }
    let a = r.step(ResolverEvent::DownloadFinished(Some("/cache/bin/wasm-opt".to_string())));
    assert!(matches!(a, ResolverAction::Settled));
    match r.state() {
        ResolverState::Resolved(ToolHandle::Present(p)) => assert_eq!(p, "/cache/bin/wasm-opt"),
        other => panic!("unexpected state: {:?}", other),
    }
}

#[test]
fn end_of_input_at_the_prompt_is_fatal() {
    let mut r = resolver(false);
    r.resolve();
    r.step(ResolverEvent::ProbeFinished(ProbeOutcome::NotFound));
    r.step(ResolverEvent::CacheChecked(None));
    r.step(ResolverEvent::AnswerRead(None));
    assert!(matches!(
        r.state(),
        ResolverState::Failed(ResolverError::PromptClosed)
    ));
}

#[test]
fn consented_download_failure_is_fatal() {
    let mut r = resolver(false);
    r.resolve();
    r.step(ResolverEvent::ProbeFinished(ProbeOutcome::NotFound));
    r.step(ResolverEvent::CacheChecked(None));
    r.step(ResolverEvent::AnswerRead(Some("y\n".to_string())));
    r.step(ResolverEvent::DownloadFinished(None));
    assert!(matches!(
        r.state(),
        ResolverState::Failed(ResolverError::InstallFailed)
    ));
}

#[test]
fn version_override_is_respected() {
    assert_eq!(effective_version(Some("version_118".to_string())), "version_118");
    assert_eq!(effective_version(None), "version_105");
}

#[test]
fn download_url_covers_each_host() {
    assert_eq!(
        download_url("version_105", Arch::Arm64, Platform::Macos),
        "https://github.com/WebAssembly/binaryen/releases/download/version_105/\
         binaryen-version_105-arm64-macos.tar.gz"
    );
    assert_eq!(
        download_url("version_105", Arch::X86_64, Platform::Windows),
        "https://github.com/WebAssembly/binaryen/releases/download/version_105/\
         binaryen-version_105-x86_64-windows.tar.gz"
    );
}
