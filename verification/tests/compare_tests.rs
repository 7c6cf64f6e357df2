use eval_stack::compare::outputs_match;

fn m(a: &str, b: &str) -> bool {
    outputs_match(&a.as_bytes().to_vec(), &b.as_bytes().to_vec())
}

#[test]
fn identical_outputs_match() {
    assert!(m("6", "6"));
    assert!(m("hello\nworld\n", "hello\nworld\n"));
    assert!(m("", ""));
}

#[test]
fn trailing_newline_is_insignificant() {
    assert!(m("6\n", "6"));
    assert!(m("6", "6\n"));
    assert!(m("a\nb\n\n\n", "a\nb"));
}

#[test]
fn trailing_whitespace_per_line_is_insignificant() {
    assert!(m("6   \n", "6"));
    assert!(m("a \t\nb", "a\nb  "));
    assert!(m("a\r\nb\r\n", "a\nb"));
}

#[test]
fn trailing_blank_lines_are_insignificant_on_both_sides() {
    assert!(m("a\n\n", "a"));
    assert!(m("a", "a\n \n\t\n"));
}

#[test]
fn differing_outputs_do_not_match() {
    assert!(!m("6", "7"));
    assert!(!m("a\nb", "a\nc"));
    assert!(!m("a\nb", "a"));
    assert!(!m("a", "a\nb"));
    assert!(!m("", "x"));
}

#[test]
fn leading_and_inner_whitespace_is_significant() {
    assert!(!m(" 6", "6"));
    assert!(!m("a b", "ab"));
    assert!(!m("a\n\nb", "a\nb"));
}

#[test]
fn swapped_input_and_output_of_an_asymmetric_pair_mismatch() {
    // An accepted case whose input is "1 2 3" and whose output is "6": with
    // the two files swapped the produced output no longer matches.
    let produced = "6";
    let case_input = "1 2 3";
    assert!(!m(produced, case_input));
}
