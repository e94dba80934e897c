use cart_build::artifacts::parse_executables;

fn artifact_line(executable: &str) -> String {
    format!(
        "{{\"reason\":\"compiler-artifact\",\
         \"package_id\":\"cart 0.1.0 (path+file:///work/cart)\",\
         \"target\":{{\"name\":\"cart\",\"kind\":[\"bin\"],\"src_path\":\"/work/cart/src/main.rs\"}},\
         \"profile\":{{\"opt_level\":\"z\",\"debug_assertions\":false,\"overflow_checks\":false,\"test\":false}},\
         \"features\":[],\"filenames\":[\"{e}\"],\"executable\":\"{e}\",\"fresh\":false}}",
        e = executable
    )
}

fn artifact_line_no_executable() -> &'static str {
    "{\"reason\":\"compiler-artifact\",\
     \"package_id\":\"cart 0.1.0 (path+file:///work/cart)\",\
     \"target\":{\"name\":\"cart\",\"kind\":[\"lib\"],\"src_path\":\"/work/cart/src/lib.rs\"},\
     \"profile\":{\"opt_level\":\"z\",\"debug_assertions\":false,\"overflow_checks\":false,\"test\":false},\
     \"features\":[],\"filenames\":[\"/work/cart/target/libcart.rlib\"],\"executable\":null,\"fresh\":false}"
}

fn diagnostic_line() -> &'static str {
    "{\"reason\":\"build-finished\",\"success\":true}"
}

#[test]
fn one_artifact_and_one_diagnostic() {
    let output = format!(
        "{}\n{}\n",
        artifact_line("target/wasm32/release/cart.wasm"),
        diagnostic_line()
    );
    let modules = parse_executables(output.as_bytes(), "/work/cart").unwrap();
    assert_eq!(modules, vec!["target/wasm32/release/cart.wasm".to_string()]);
}

#[test]
fn absolute_path_under_cwd_is_normalized() {
    let output = format!("{}\n", artifact_line("/work/cart/target/wasm32/release/cart.wasm"));
    let modules = parse_executables(output.as_bytes(), "/work/cart").unwrap();
    assert_eq!(modules, vec!["target/wasm32/release/cart.wasm".to_string()]);
}

#[test]
fn path_outside_cwd_stays_absolute() {
    let output = format!("{}\n", artifact_line("/elsewhere/cart.wasm"));
    let modules = parse_executables(output.as_bytes(), "/work/cart").unwrap();
    assert_eq!(modules, vec!["/elsewhere/cart.wasm".to_string()]);
}

#[test]
fn artifacts_keep_input_order() {
    let output = format!(
        "{}\n{}\n{}\n",
        artifact_line("a.wasm"),
        diagnostic_line(),
        artifact_line("b.wasm")
    );
    let modules = parse_executables(output.as_bytes(), "/work/cart").unwrap();
    assert_eq!(modules, vec!["a.wasm".to_string(), "b.wasm".to_string()]);
}

#[test]
fn other_extension_is_filtered_out() {
    let output = format!(
        "{}\n{}\n",
        artifact_line("target/release/helper"),
        artifact_line("notes.txt")
    );
    let modules = parse_executables(output.as_bytes(), "/work/cart").unwrap();
    assert!(modules.is_empty());
}

#[test]
fn artifact_without_executable_is_filtered_out() {
    let output = format!("{}\n", artifact_line_no_executable());
    let modules = parse_executables(output.as_bytes(), "/work/cart").unwrap();
    assert!(modules.is_empty());
}

#[test]
fn hidden_file_has_no_extension() {
    let output = format!("{}\n{}\n", artifact_line("target/.wasm"), artifact_line("a.tar.wasm"));
    let modules = parse_executables(output.as_bytes(), "/w").unwrap();
    assert_eq!(modules, vec!["a.tar.wasm".to_string()]);
}

#[test]
fn empty_output_is_a_successful_empty_build() {
    let modules = parse_executables(b"", "/work/cart").unwrap();
    assert!(modules.is_empty());
}

#[test]
fn missing_final_newline_is_tolerated() {
    let output = artifact_line("cart.wasm");
    let modules = parse_executables(output.as_bytes(), "/work/cart").unwrap();
    assert_eq!(modules, vec!["cart.wasm".to_string()]);
}

#[test]
fn malformed_record_fails_the_whole_parse() {
    let output = format!("{}\nthis is not a record\n{}\n", artifact_line("a.wasm"), artifact_line("b.wasm"));
    let err = parse_executables(output.as_bytes(), "/work/cart").unwrap_err();
    assert_eq!(err.line, 1);
}

#[test]
fn malformed_record_reports_the_first_bad_line() {
    let output = "not a record\nstill not a record\n";
    let err = parse_executables(output.as_bytes(), "/w").unwrap_err();
    assert_eq!(err.line, 0);
}

#[test]
fn unknown_record_kind_is_malformed() {
    let output = "{\"reason\":\"from-a-future-toolchain\"}\n";
    assert!(parse_executables(output.as_bytes(), "/w").is_err());
}
