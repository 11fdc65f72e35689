use pi_interactive::diff::split_diff_prefix;

#[test]
fn split_diff_prefix_basic() {
    assert_eq!(
        split_diff_prefix("-  3 let x = 1;"),
        ("-  3 ", "let x = 1;")
    );
    assert_eq!(split_diff_prefix("+ 12 new text"), ("+ 12 ", "new text"));
}

#[test]
fn split_diff_prefix_edge_cases() {
    assert_eq!(split_diff_prefix("-"), ("-", ""));
    assert_eq!(split_diff_prefix("+  1 "), ("+  1 ", ""));
    assert_eq!(split_diff_prefix(""), ("", ""));
}

#[test]
fn only_one_blank_follows_the_number() {
    assert_eq!(split_diff_prefix("+ 1   indented"), ("+ 1 ", "  indented"));
    assert_eq!(split_diff_prefix("- 10x"), ("- 10", "x"));
}
