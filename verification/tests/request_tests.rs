use cart_build::request::BuildRequest;

fn args(v: &[&str]) -> Vec<String> {
    v.iter().map(|s| s.to_string()).collect()
}

#[test]
fn default_build_appends_the_release_flag() {
    let request = BuildRequest::new(args(&[]));
    assert!(request.is_release_profile());
    assert_eq!(
        request.compiler_invocation(),
        args(&[
            "build",
            "--target=wasm32-unknown-unknown",
            "--message-format=json-render-diagnostics",
            "--release",
        ])
    );
}

#[test]
fn passthrough_args_follow_the_release_flag() {
    let request = BuildRequest::new(args(&["--quiet", "--features", "demo"]));
    assert_eq!(
        request.compiler_invocation(),
        args(&[
            "build",
            "--target=wasm32-unknown-unknown",
            "--message-format=json-render-diagnostics",
            "--release",
            "--quiet",
            "--features",
            "demo",
        ])
    );
}

#[test]
fn profile_flag_suppresses_the_default() {
    let request = BuildRequest::new(args(&["--profile", "dev"]));
    assert!(!request.is_release_profile());
    assert_eq!(
        request.compiler_invocation(),
        args(&[
            "build",
            "--target=wasm32-unknown-unknown",
            "--message-format=json-render-diagnostics",
            "--profile",
            "dev",
        ])
    );
}

#[test]
fn explicit_release_flag_is_not_doubled() {
    let request = BuildRequest::new(args(&["--release"]));
    assert_eq!(
        request.compiler_invocation(),
        args(&[
            "build",
            "--target=wasm32-unknown-unknown",
            "--message-format=json-render-diagnostics",
            "--release",
        ])
    );
}

#[test]
fn short_release_flag_counts_as_override() {
    let request = BuildRequest::new(args(&["-r"]));
    assert!(!request.is_release_profile());
}

#[test]
fn profile_override_is_a_prefix_match() {
    let request = BuildRequest::new(args(&["--profile=dev"]));
    assert!(!request.is_release_profile());
}
