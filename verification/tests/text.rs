use verilog_analysis::text::{digit_value, join_all, strip_word};

#[test]
fn strip_word_removes_every_occurrence_from_the_left() {
    assert_eq!(strip_word("posedge clk", "edge"), "pos clk");
    assert_eq!(strip_word("negedge rst", "edge"), "neg rst");
    assert_eq!(strip_word("edge", "edge"), "");
    assert_eq!(strip_word("edgeedge", "edge"), "");
    assert_eq!(strip_word("posedge edge_clk", "edge"), "pos _clk");
    assert_eq!(strip_word("clk", "edge"), "clk");
    assert_eq!(strip_word("edg", "edge"), "edg");
    assert_eq!(strip_word("", "edge"), "");
}

#[test]
fn strip_word_does_not_look_back() {
    assert_eq!(strip_word("edgedge", "edge"), "dge");
    assert_eq!(strip_word("eedgedge", "edge"), "edge");
    assert_eq!(strip_word("aaa", "aa"), "a");
}

#[test]
fn strip_word_with_an_empty_word_removes_nothing() {
    assert_eq!(strip_word("posedge clk", ""), "posedge clk");
    assert_eq!(strip_word("", ""), "");
}

#[test]
fn strip_word_counts_characters_not_bytes() {
    assert_eq!(strip_word("\u{e9}edge\u{fc}", "edge"), "\u{e9}\u{fc}");
    assert_eq!(strip_word("a\u{e9}\u{e9}b", "\u{e9}"), "ab");
}

#[test]
fn join_all_concatenates_in_order() {
    let parts = vec!["ab".to_string(), String::new(), "cd".to_string(), "e".to_string()];
    assert_eq!(join_all(&parts), "abcde");
    assert_eq!(join_all(&vec!["posedge clk".to_string()]), "posedge clk");
    assert_eq!(join_all(&Vec::new()), "");
}

#[test]
fn digit_value_reads_one_ascii_digit() {
    assert_eq!(digit_value("0"), Some(0));
    assert_eq!(digit_value("7"), Some(7));
    assert_eq!(digit_value("9"), Some(9));
}

#[test]
fn digit_value_rejects_everything_else() {
    assert_eq!(digit_value(""), None);
    assert_eq!(digit_value("12"), None);
    assert_eq!(digit_value("a"), None);
    assert_eq!(digit_value("/"), None);
    assert_eq!(digit_value(":"), None);
    assert_eq!(digit_value("+"), None);
    assert_eq!(digit_value("\u{0663}"), None);
}
