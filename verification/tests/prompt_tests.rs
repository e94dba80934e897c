use cart_build::prompt::{parse_answer, Answer};

#[test]
fn empty_line_defaults_to_yes() {
    assert_eq!(parse_answer(""), Answer::Yes);
    assert_eq!(parse_answer("\n"), Answer::Yes);
}

#[test]
fn y_in_either_case_is_yes() {
    assert_eq!(parse_answer("y\n"), Answer::Yes);
    assert_eq!(parse_answer("Y\n"), Answer::Yes);
    assert_eq!(parse_answer("y"), Answer::Yes);
}

#[test]
fn n_in_either_case_is_no() {
    assert_eq!(parse_answer("n\n"), Answer::No);
    assert_eq!(parse_answer("N\n"), Answer::No);
    assert_eq!(parse_answer("N"), Answer::No);
}

#[test]
fn anything_else_asks_again() {
    assert_eq!(parse_answer("maybe\n"), Answer::Retry);
    assert_eq!(parse_answer("yes\n"), Answer::Retry);
    assert_eq!(parse_answer(" y\n"), Answer::Retry);
    assert_eq!(parse_answer("no\n"), Answer::Retry);
    assert_eq!(parse_answer("q\n"), Answer::Retry);
}
