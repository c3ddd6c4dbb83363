use verilog_analysis::patterns::check_patterns;
use verilog_analysis::recognizers::BlockState;
use verilog_analysis::verilog_analysis::{
    record_line, try_verilog_analysis, verilog_analysis, AnalysisData,
};

fn text(lines: &[&str]) -> Vec<String> {
    lines.iter().map(|line| line.to_string()).collect()
}

fn scan(lines: &[&str]) -> AnalysisData {
    assert!(check_patterns());
    verilog_analysis(&text(lines))
}

#[test]
fn the_pattern_battery_compiles() {
    assert!(check_patterns());
}

#[test]
fn module_header_is_recorded() {
    let data = scan(&["module M("]);
    assert_eq!(data.module_name, vec!["M".to_string()]);
}

#[test]
fn module_names_keep_order_and_repeats() {
    let data = scan(&["module top(", "input a,", "module leaf(", "module top("]);
    assert_eq!(
        data.module_name,
        vec!["top".to_string(), "leaf".to_string(), "top".to_string()]
    );
}

#[test]
fn vector_input_has_its_width() {
    let data = scan(&["input [7:0] a;"]);
    assert_eq!(data.inputs.get("a"), Some(&8));
    assert_eq!(data.inputs.len(), 1);
}

#[test]
fn scalar_input_has_width_one() {
    let data = scan(&["input b;"]);
    assert_eq!(data.inputs.get("b"), Some(&1));
    assert_eq!(data.inputs.len(), 1);
}

#[test]
fn vector_output_has_its_width() {
    let data = scan(&["output [3:0] y,"]);
    assert_eq!(data.outputs.get("y"), Some(&4));
    assert_eq!(data.outputs.len(), 1);
    assert_eq!(data.inputs.len(), 0);
}

#[test]
fn wire_and_reg_are_filed_apart() {
    let data = scan(&["wire w;", "reg [1:0] r;"]);
    assert_eq!(data.wires.get("w"), Some(&1));
    assert_eq!(data.regs.get("r"), Some(&2));
    assert_eq!(data.wires.len(), 1);
    assert_eq!(data.regs.len(), 1);
    assert_eq!(data.inputs.len(), 0);
    assert_eq!(data.outputs.len(), 0);
}

#[test]
fn and_assignment_has_code_four() {
    let data = scan(&["assign c = a & b;"]);
    assert_eq!(data.cont_assigns.get("c = a & b"), Some(&4));
    assert_eq!(data.cont_assigns.len(), 1);
}

#[test]
fn plus_and_minus_assignments_have_codes_two_and_one() {
    let data = scan(&["assign c = a + b;", "assign c = a - b;"]);
    assert_eq!(data.cont_assigns.get("c = a + b"), Some(&2));
    assert_eq!(data.cont_assigns.get("c = a - b"), Some(&1));
    assert_eq!(data.cont_assigns.len(), 2);
}

#[test]
fn or_assignment_has_code_three() {
    let data = scan(&["  assign y = a | b;"]);
    assert_eq!(data.cont_assigns.get("y = a | b"), Some(&3));
}

#[test]
fn redeclaration_overwrites_the_width() {
    let data = scan(&["input [7:0] a;", "input [3:0] a;"]);
    assert_eq!(data.inputs.get("a"), Some(&4));
    assert_eq!(data.inputs.len(), 1);

    let data = scan(&["wire [7:0] w;", "wire w;"]);
    assert_eq!(data.wires.get("w"), Some(&1));
    assert_eq!(data.wires.len(), 1);

    let data = scan(&["reg q;", "reg [5:0] q;"]);
    assert_eq!(data.regs.get("q"), Some(&6));
    assert_eq!(data.regs.len(), 1);

    let data = scan(&["output y,", "output [1:0] y"]);
    assert_eq!(data.outputs.get("y"), Some(&2));
    assert_eq!(data.outputs.len(), 1);
}

#[test]
fn width_comes_from_the_last_line_that_declares_the_identifier() {
    let data = scan(&[
        "input [7:0] a;",
        "input b;",
        "wire [2:0] a;",
        "input [3:0] a;",
        "output [5:0] b,",
        "reg c;",
    ]);
    assert_eq!(data.inputs.len(), 2);
    assert_eq!(data.inputs.get("a"), Some(&4));
    assert_eq!(data.inputs.get("b"), Some(&1));
    assert_eq!(data.wires.len(), 1);
    assert_eq!(data.wires.get("a"), Some(&3));
    assert_eq!(data.outputs.len(), 1);
    assert_eq!(data.outputs.get("b"), Some(&6));
    assert_eq!(data.regs.len(), 1);
    assert_eq!(data.regs.get("c"), Some(&1));
}

#[test]
fn comments_are_scanned_like_any_other_text() {
    let data = scan(&["input [3:0] a;", "// input [9:0] a", "// assign c = a & b;"]);
    assert_eq!(data.inputs.len(), 1);
    assert_eq!(data.inputs.get("a"), Some(&10));
    assert!(data.cont_assigns.is_empty());
}

#[test]
fn text_without_matching_lines_gives_empty_summary() {
    let data = scan(&["", "// nothing to see", "foo bar baz", ");", "   "]);
    assert!(data.module_name.is_empty());
    assert!(data.inputs.is_empty());
    assert!(data.outputs.is_empty());
    assert!(data.wires.is_empty());
    assert!(data.regs.is_empty());
    assert!(data.cont_assigns.is_empty());
    assert!(data.always_assigns.is_empty());
}

#[test]
fn empty_text_gives_empty_summary() {
    let data = scan(&[]);
    assert!(data.module_name.is_empty());
    assert_eq!(data.inputs.len(), 0);
    assert_eq!(data.outputs.len(), 0);
    assert_eq!(data.wires.len(), 0);
    assert_eq!(data.regs.len(), 0);
    assert_eq!(data.cont_assigns.len(), 0);
    assert_eq!(data.always_assigns.len(), 0);
}

#[test]
fn new_summary_is_empty() {
    let data = AnalysisData::new();
    assert!(data.module_name.is_empty());
    assert!(data.inputs.is_empty());
    assert!(data.outputs.is_empty());
    assert!(data.wires.is_empty());
    assert!(data.regs.is_empty());
    assert!(data.cont_assigns.is_empty());
    assert!(data.always_assigns.is_empty());
}

#[test]
fn unmatched_line_leaves_summary_and_block_unchanged() {
    assert!(check_patterns());
    let mut data = AnalysisData::new();
    let mut block = BlockState::Outside;
    for line in ["module M(", "input [7:0] a;", "assign c = a & b;", "always @(negedge rst) begin"] {
        block = record_line(&mut data, block, line);
    }
    block = record_line(&mut data, block, "// a comment");
    block = record_line(&mut data, block, "");
    assert_eq!(data.module_name, vec!["M".to_string()]);
    assert_eq!(data.inputs.len(), 1);
    assert_eq!(data.inputs.get("a"), Some(&8));
    assert_eq!(data.outputs.len(), 0);
    assert_eq!(data.wires.len(), 0);
    assert_eq!(data.regs.len(), 0);
    assert_eq!(data.cont_assigns.len(), 1);
    assert_eq!(data.cont_assigns.get("c = a & b"), Some(&4));
    assert_eq!(data.always_assigns.len(), 0);
    match block {
        BlockState::Inside { key } => assert_eq!(key, "neg rst"),
        BlockState::Outside => panic!("the block was left"),
    }
}

#[test]
fn scanning_twice_gives_equal_summaries() {
    let source = [
        "module M(",
        "input [7:0] a,",
        "input b,",
        "output [3:0] y",
        ");",
        "wire w;",
        "reg [1:0] r;",
        "assign c = a & b;",
        "always @(posedge clk) begin",
        "    r <= a + b;",
        "end",
    ];
    let first = scan(&source);
    let second = scan(&source);
    assert_eq!(first.module_name, second.module_name);
    assert_eq!(first.inputs.len(), second.inputs.len());
    assert_eq!(first.outputs.len(), second.outputs.len());
    assert_eq!(first.wires.len(), second.wires.len());
    assert_eq!(first.regs.len(), second.regs.len());
    assert_eq!(first.cont_assigns.len(), second.cont_assigns.len());
    assert_eq!(first.always_assigns.len(), second.always_assigns.len());
    for name in ["a", "b", "y", "w", "r", "c = a & b", "pos clk", "absent"] {
        assert_eq!(first.inputs.get(name), second.inputs.get(name));
        assert_eq!(first.outputs.get(name), second.outputs.get(name));
        assert_eq!(first.wires.get(name), second.wires.get(name));
        assert_eq!(first.regs.get(name), second.regs.get(name));
        assert_eq!(first.cont_assigns.get(name), second.cont_assigns.get(name));
        assert_eq!(first.always_assigns.get(name), second.always_assigns.get(name));
    }
}

#[test]
fn whole_module_is_summarised() {
    let data = scan(&[
        "module adder(",
        "    input [3:0] a,",
        "    input [3:0] b,",
        "    input clk,",
        "    output reg [3:0] sum",
        ");",
        "wire [3:0] w;",
        "reg [1:0] r;",
        "    assign w = a + b;",
        "always @(posedge clk) begin",
        "    sum <= w & b;",
        "end",
        "endmodule",
    ]);
    assert_eq!(data.module_name, vec!["adder".to_string()]);
    assert_eq!(data.inputs.len(), 3);
    assert_eq!(data.inputs.get("a"), Some(&4));
    assert_eq!(data.inputs.get("b"), Some(&4));
    assert_eq!(data.inputs.get("clk"), Some(&1));
    assert_eq!(data.outputs.len(), 1);
    assert_eq!(data.outputs.get("sum"), Some(&4));
    assert_eq!(data.wires.len(), 1);
    assert_eq!(data.wires.get("w"), Some(&4));
    assert_eq!(data.regs.len(), 1);
    assert_eq!(data.regs.get("r"), Some(&2));
    assert_eq!(data.cont_assigns.len(), 1);
    assert_eq!(data.cont_assigns.get("w = a + b"), Some(&2));
    assert_eq!(data.always_assigns.len(), 1);
    assert_eq!(data.always_assigns.get("pos clk"), Some(&"sum <= w & b".to_string()));
}

#[test]
fn clocked_assignments_are_filed_by_edge() {
    let data = scan(&[
        "always @(posedge clk) begin",
        "    q <= a + b;",
        "end",
        "always_ff @(negedge rst) begin",
        "    r <= c | d;",
        "end",
    ]);
    assert_eq!(data.always_assigns.len(), 2);
    assert_eq!(data.always_assigns.get("pos clk"), Some(&"q <= a + b".to_string()));
    assert_eq!(data.always_assigns.get("neg rst"), Some(&"r <= c | d".to_string()));
}

#[test]
fn later_clocked_assignment_replaces_the_earlier() {
    let data = scan(&[
        "always @(posedge clk) begin",
        "    q <= a + b;",
        "    r <= a - b;",
        "end",
    ]);
    assert_eq!(data.always_assigns.len(), 1);
    assert_eq!(data.always_assigns.get("pos clk"), Some(&"r <= a - b".to_string()));
}

#[test]
fn clocked_assignment_outside_a_block_is_ignored() {
    let data = scan(&[
        "    q <= a + b;",
        "always @(posedge clk) begin",
        "end",
        "    r <= a - b;",
    ]);
    assert!(data.always_assigns.is_empty());
}

#[test]
fn compound_assignment_is_detected_but_files_nothing() {
    let data = scan(&["assign c &= a;", "  assign d |= b;"]);
    assert!(data.cont_assigns.is_empty());
}

#[test]
fn doubled_operator_assignments_have_codes_six_and_five() {
    let data = scan(&["  assign y = a && b;", "  assign y = a || b;"]);
    assert_eq!(data.cont_assigns.len(), 2);
    assert_eq!(data.cont_assigns.get("y = a && b"), Some(&6));
    assert_eq!(data.cont_assigns.get("y = a || b"), Some(&5));
}

#[test]
fn module_header_with_ports_on_its_line_is_recorded() {
    let data = scan(&["module top(a, b);", "endmodule x("]);
    assert_eq!(data.module_name, vec!["top".to_string()]);
}

#[test]
fn last_net_of_a_comma_list_is_filed() {
    let data = scan(&["wire a, b;", "reg [2:0] x, y;", "wir z;", "re z;"]);
    assert_eq!(data.wires.len(), 1);
    assert_eq!(data.wires.get("b"), Some(&1));
    assert_eq!(data.regs.len(), 1);
    assert_eq!(data.regs.get("y"), Some(&3));
}

#[test]
fn clocked_assignment_with_a_doubled_operator_is_filed() {
    let data = scan(&["always @(posedge clk) begin", "    q <= a && b;", "end"]);
    assert_eq!(data.always_assigns.len(), 1);
    assert_eq!(data.always_assigns.get("pos clk"), Some(&"q <= a && b".to_string()));
}

#[test]
fn entries_can_be_walked_in_order_of_first_declaration() {
    let data = scan(&[
        "input [7:0] a,",
        "input b,",
        "input [3:0] a,",
        "input clk,",
        "output [1:0] y",
        "assign y = a + b;",
        "assign z = a & b;",
    ]);
    assert_eq!(data.inputs.keys(), &vec!["a".to_string(), "b".to_string(), "clk".to_string()]);
    let mut widths: Vec<i32> = Vec::new();
    for name in data.inputs.keys() {
        widths.push(*data.inputs.get(name).expect("a key of the table is filed"));
    }
    assert_eq!(widths, vec![4, 1, 1]);
    assert_eq!(data.outputs.keys(), &vec!["y".to_string()]);
    assert_eq!(
        data.cont_assigns.keys(),
        &vec!["y = a + b".to_string(), "z = a & b".to_string()]
    );
    assert!(data.wires.keys().is_empty());
    assert!(data.regs.keys().is_empty());
    assert!(data.always_assigns.keys().is_empty());
}

#[test]
fn unmatched_line_can_stand_anywhere_in_a_text() {
    let source = ["module M(", "input [7:0] a;", "assign c = a & b;"];
    let plain = scan(&source);
    for at in 0..=source.len() {
        let mut with_line: Vec<&str> = source.to_vec();
        with_line.insert(at, "// nothing here");
        let data = scan(&with_line);
        assert_eq!(data.module_name, plain.module_name);
        assert_eq!(data.inputs.keys(), plain.inputs.keys());
        assert_eq!(data.inputs.get("a"), plain.inputs.get("a"));
        assert_eq!(data.cont_assigns.keys(), plain.cont_assigns.keys());
        assert_eq!(data.cont_assigns.get("c = a & b"), Some(&4));
        assert!(data.outputs.is_empty());
        assert!(data.wires.is_empty());
        assert!(data.regs.is_empty());
        assert!(data.always_assigns.is_empty());
    }
}

#[test]
fn checked_scan_agrees_with_the_plain_one() {
    let source = text(&["module M(", "input [7:0] a;", "wire w;"]);
    let data = try_verilog_analysis(&source).expect("the patterns compile");
    assert_eq!(data.module_name, vec!["M".to_string()]);
    assert_eq!(data.inputs.get("a"), Some(&8));
    assert_eq!(data.wires.get("w"), Some(&1));
    assert_eq!(data.outputs.len(), 0);
}

#[test]
fn summary_has_no_empty_key_and_no_width_below_one() {
    let data = scan(&["input [0:0] z;", "output [9:0] big,", "wire [0:3] w;", "reg r;"]);
    assert_eq!(data.inputs.get("z"), Some(&1));
    assert_eq!(data.outputs.get("big"), Some(&10));
    assert_eq!(data.wires.get("w"), Some(&1));
    assert_eq!(data.regs.get("r"), Some(&1));
    assert!(!data.inputs.contains_key(""));
    assert!(!data.outputs.contains_key(""));
    assert!(!data.wires.contains_key(""));
    assert!(!data.regs.contains_key(""));
    assert!(!data.cont_assigns.contains_key(""));
    assert!(!data.always_assigns.contains_key(""));
}
