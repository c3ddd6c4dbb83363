//! What holds of every scan, proved from the definitions of the scan and of
//! the recognizers.

use crate::matching::regex_is_match;
use crate::patterns::{
    ALWAYS_HEADER, ASSIGN_STATEMENT, BLOCK_END, CLOCKED_STATEMENT, INPUT_DECLARATION,
    MODULE_HEADER, OUTPUT_DECLARATION, REG_DECLARATION, WIRE_DECLARATION,
};
use crate::recognizers::{declaration_on, module_name_on};
use crate::verilog_analysis::{scan_of, scan_step, AnalysisData, Scan, Summary};
use vstd::prelude::*;

verus! {

/// Whether any recognizer's detecting pattern matches `line`.
pub open spec fn recognized(line: Seq<char>) -> bool {
    ||| regex_is_match(MODULE_HEADER@, line)
    ||| regex_is_match(INPUT_DECLARATION@, line)
    ||| regex_is_match(OUTPUT_DECLARATION@, line)
    ||| regex_is_match(WIRE_DECLARATION@, line)
    ||| regex_is_match(REG_DECLARATION@, line)
    ||| regex_is_match(ASSIGN_STATEMENT@, line)
    ||| regex_is_match(ALWAYS_HEADER@, line)
    ||| regex_is_match(BLOCK_END@, line)
    ||| regex_is_match(CLOCKED_STATEMENT@, line)
}

/// Whether no recognizer's detecting pattern matches any line of `lines`.
pub open spec fn nothing_recognized(lines: Seq<Seq<char>>) -> bool {
    forall|i: int| 0 <= i < lines.len() ==> !recognized(#[trigger] lines[i])
}

/// A line that no detecting pattern matches leaves the scan as it was: the
/// summary is unchanged, and so is the block state.
pub proof fn lemma_unrecognized_line_changes_nothing(scan: Scan, line: Seq<char>)
    requires
        !recognized(line),
    ensures
        scan_step(scan, line) == scan,
{
}

/// A line that no detecting pattern matches can be put anywhere into a
/// text: the scan of the text with the line is the scan of the text
/// without it.
pub proof fn lemma_unrecognized_line_can_stand_anywhere(
    lines: Seq<Seq<char>>,
    at: int,
    line: Seq<char>,
)
    requires
        0 <= at <= lines.len(),
        !recognized(line),
    ensures
        scan_of(lines.insert(at, line)) == scan_of(lines),
    decreases lines.len() - at,
{
    let with_line = lines.insert(at, line);
    if at == lines.len() {
        assert(with_line.drop_last() =~= lines);
        lemma_unrecognized_line_changes_nothing(scan_of(lines), line);
    } else {
        assert(with_line.drop_last() =~= lines.drop_last().insert(at, line));
        lemma_unrecognized_line_can_stand_anywhere(lines.drop_last(), at, line);
    }
}

/// A text in which no detecting pattern matches any line yields the empty
/// summary.
pub proof fn lemma_unrecognized_text_yields_empty_summary(lines: Seq<Seq<char>>)
    requires
        nothing_recognized(lines),
    ensures
        scan_of(lines).summary == Summary::empty(),
        scan_of(lines) == Scan::start(),
    decreases lines.len(),
{
    if lines.len() > 0 {
        lemma_unrecognized_text_yields_empty_summary(lines.drop_last());
        lemma_unrecognized_line_changes_nothing(scan_of(lines.drop_last()), lines.last());
    }
}

/// The last declaration wins: after a line that declares an identifier, be
/// it as input, output, wire or reg, the width filed under the identifier
/// is the width on that line, whatever the line before it and the scan up
/// to there had filed under it.
pub proof fn lemma_last_declaration_wins(scan: Scan, first: Seq<char>, second: Seq<char>)
    ensures
        ({
            let after = scan_step(scan_step(scan, first), second).summary;
            let input = declaration_on(INPUT_DECLARATION@, second);
            let output = declaration_on(OUTPUT_DECLARATION@, second);
            let wire = declaration_on(WIRE_DECLARATION@, second);
            let reg = declaration_on(REG_DECLARATION@, second);
            &&& input.0.len() > 0 ==> after.inputs.contains_key(input.0) && after.inputs[input.0]
                == input.1
            &&& output.0.len() > 0 ==> after.outputs.contains_key(output.0)
                && after.outputs[output.0] == output.1
            &&& wire.0.len() > 0 ==> after.wires.contains_key(wire.0) && after.wires[wire.0]
                == wire.1
            &&& reg.0.len() > 0 ==> after.regs.contains_key(reg.0) && after.regs[reg.0] == reg.1
        }),
{
}

/// A declaration touches its own identifier only: every other identifier
/// of the mapping keeps the width it had.
pub proof fn lemma_declaration_keeps_other_widths(scan: Scan, line: Seq<char>, other: Seq<char>)
    ensures
        ({
            let before = scan.summary;
            let after = scan_step(scan, line).summary;
            &&& other != declaration_on(INPUT_DECLARATION@, line).0 ==> (after.inputs.contains_key(
                other,
            ) <==> before.inputs.contains_key(other)) && after.inputs[other]
                == before.inputs[other]
            &&& other != declaration_on(OUTPUT_DECLARATION@, line).0 ==> (
            after.outputs.contains_key(other) <==> before.outputs.contains_key(other))
                && after.outputs[other] == before.outputs[other]
            &&& other != declaration_on(WIRE_DECLARATION@, line).0 ==> (after.wires.contains_key(
                other,
            ) <==> before.wires.contains_key(other)) && after.wires[other] == before.wires[other]
            &&& other != declaration_on(REG_DECLARATION@, line).0 ==> (after.regs.contains_key(
                other,
            ) <==> before.regs.contains_key(other)) && after.regs[other] == before.regs[other]
        }),
{
}

/// The four kinds of declaration that carry a width.
pub enum Declared {
    Input,
    Output,
    Wire,
    Reg,
}

impl Declared {
    /// The pattern that detects a declaration of this kind.
    pub open spec fn keyword(self) -> Seq<char> {
        match self {
            Declared::Input => INPUT_DECLARATION@,
            Declared::Output => OUTPUT_DECLARATION@,
            Declared::Wire => WIRE_DECLARATION@,
            Declared::Reg => REG_DECLARATION@,
        }
    }

    /// The mapping of `summary` in which declarations of this kind are
    /// filed.
    pub open spec fn widths(self, summary: Summary) -> Map<Seq<char>, i32> {
        match self {
            Declared::Input => summary.inputs,
            Declared::Output => summary.outputs,
            Declared::Wire => summary.wires,
            Declared::Reg => summary.regs,
        }
    }

    /// The identifier that `line` declares as this kind; empty where it
    /// declares none.
    pub open spec fn name_on(self, line: Seq<char>) -> Seq<char> {
        declaration_on(self.keyword(), line).0
    }

    /// The width that `line` declares for that identifier.
    pub open spec fn width_on(self, line: Seq<char>) -> i32 {
        declaration_on(self.keyword(), line).1
    }
}

/// Over a whole text the last declaration wins: the width filed under an
/// identifier is the width on the last line that declares it.
pub proof fn lemma_width_is_from_last_declaration(
    kind: Declared,
    lines: Seq<Seq<char>>,
    last: int,
)
    requires
        0 <= last < lines.len(),
        kind.name_on(lines[last]).len() > 0,
        forall|later: int|
            last < later < lines.len() ==> kind.name_on(#[trigger] lines[later]) != kind.name_on(
                lines[last],
            ),
    ensures
        kind.widths(scan_of(lines).summary).contains_key(kind.name_on(lines[last])),
        kind.widths(scan_of(lines).summary)[kind.name_on(lines[last])] == kind.width_on(
            lines[last],
        ),
    decreases lines.len(),
{
    if last < lines.len() - 1 {
        lemma_width_is_from_last_declaration(kind, lines.drop_last(), last);
    }
}

/// What is declared is filed: an identifier that some line of a text
/// declares has a width in the summary of the text.
pub proof fn lemma_declared_identifier_is_filed(kind: Declared, lines: Seq<Seq<char>>, at: int)
    requires
        0 <= at < lines.len(),
        kind.name_on(lines[at]).len() > 0,
    ensures
        kind.widths(scan_of(lines).summary).contains_key(kind.name_on(lines[at])),
    decreases lines.len(),
{
    if at < lines.len() - 1 {
        lemma_declared_identifier_is_filed(kind, lines.drop_last(), at);
    }
}

/// A line declares an identifier with a width from 1 to 10, or it declares
/// nothing and its width is 0.
pub proof fn lemma_declared_width_is_in_range(kind: Declared, line: Seq<char>)
    ensures
        kind.name_on(line).len() > 0 ==> 1 <= kind.width_on(line) <= 10,
        kind.name_on(line).len() == 0 <==> kind.width_on(line) == 0,
{
}

/// Nothing is filed that was not declared: an identifier with a width in
/// the summary of a text is declared, as that kind, on one of its lines.
pub proof fn lemma_filed_width_was_declared(
    kind: Declared,
    lines: Seq<Seq<char>>,
    name: Seq<char>,
) -> (at: int)
    requires
        kind.widths(scan_of(lines).summary).contains_key(name),
    ensures
        0 <= at < lines.len(),
        kind.name_on(lines[at]) == name,
    decreases lines.len(),
{
    if lines.len() == 0 {
        0
    } else if kind.name_on(lines.last()) == name {
        lines.len() - 1
    } else {
        lemma_filed_width_was_declared(kind, lines.drop_last(), name)
    }
}

/// The module identifiers found on the lines of a text, in the order of
/// the lines; a line on which none is found contributes nothing.
pub open spec fn module_names_in(lines: Seq<Seq<char>>) -> Seq<Seq<char>> {
    lines.map_values(|line: Seq<char>| module_name_on(line)).filter(
        |name: Seq<char>| name.len() > 0,
    )
}

/// Module identifiers are recorded in order of appearance, and an
/// identifier that appears again is recorded again.
pub proof fn lemma_module_names_are_in_order_of_appearance(lines: Seq<Seq<char>>)
    ensures
        scan_of(lines).summary.module_name == module_names_in(lines),
    decreases lines.len(),
{
    let found = |line: Seq<char>| module_name_on(line);
    let present = |name: Seq<char>| name.len() > 0;
    if lines.len() == 0 {
        reveal(Seq::filter);
    } else {
        let front = lines.drop_last();
        lemma_module_names_are_in_order_of_appearance(front);
        assert(lines.map_values(found) =~= front.map_values(found).push(found(lines.last())));
        front.map_values(found).lemma_filter_push(found(lines.last()), present);
    }
}

/// Outside of a block no line files a clocked assignment.
pub proof fn lemma_nothing_is_filed_outside_a_block(scan: Scan, line: Seq<char>)
    requires
        scan.block is None,
    ensures
        scan_step(scan, line).summary.always_assigns == scan.summary.always_assigns,
{
}

/// Inside of a block a line either closes it or leaves its edge key as it
/// was, and a clocked assignment is filed under that key and no other.
pub proof fn lemma_block_files_under_its_key(scan: Scan, line: Seq<char>, key: Seq<char>)
    requires
        scan.block == Some(key),
    ensures
        ({
            let after = scan_step(scan, line);
            &&& after.block is None <==> regex_is_match(BLOCK_END@, line)
            &&& after.block is Some ==> after.block == Some(key)
            &&& forall|other: Seq<char>|
                other != key ==> (#[trigger] after.summary.always_assigns.contains_key(other)
                    <==> scan.summary.always_assigns.contains_key(other))
                    && after.summary.always_assigns[other] == scan.summary.always_assigns[other]
        }),
{
}

/// One more line keeps a summary well formed: no empty identifier or key
/// is recorded, and no width below 1.
pub proof fn lemma_step_keeps_well_formed(scan: Scan, line: Seq<char>)
    requires
        scan.summary.wf(),
    ensures
        scan_step(scan, line).summary.wf(),
{
}

/// The summary of every text is well formed.
pub proof fn lemma_scan_is_well_formed(lines: Seq<Seq<char>>)
    ensures
        scan_of(lines).summary.wf(),
    decreases lines.len(),
{
    if lines.len() > 0 {
        lemma_scan_is_well_formed(lines.drop_last());
        lemma_step_keeps_well_formed(scan_of(lines.drop_last()), lines.last());
    }
}

/// Scanning is repeatable: two summaries of the same text are equal, that
/// is, they hold the same module identifiers in the same order and the
/// same entries in every mapping.
pub proof fn lemma_scan_is_repeatable(
    first: AnalysisData,
    second: AnalysisData,
    lines: Seq<Seq<char>>,
)
    requires
        first@ == scan_of(lines).summary,
        second@ == scan_of(lines).summary,
    ensures
        first@ == second@,
{
}

} // verus!
