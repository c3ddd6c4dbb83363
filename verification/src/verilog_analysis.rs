//! The scan: every line is shown to every recognizer, and what they find is
//! merged into one summary of the source text.

use crate::matching::texts;
use crate::patterns::{
    check_patterns, patterns_compile, INPUT_DECLARATION, OUTPUT_DECLARATION, REG_DECLARATION,
    WIRE_DECLARATION,
};
use crate::laws::{
    lemma_scan_is_well_formed, lemma_unrecognized_text_yields_empty_summary,
    nothing_recognized,
};
use crate::recognizers::{
    assignment_on, block_step_on, declaration_on, get_alwayses, get_assign, get_inputs,
    get_module_name, get_outputs, get_regs, get_wires, module_name_on, BlockState,
};
use crate::table::Table;
use vstd::prelude::*;

verus! {

/// What a scan has extracted from a source text.
pub struct AnalysisData {
    /// The module identifiers, in order of appearance; repeats are kept.
    pub module_name: Vec<String>,
    /// Bit width of every input port, by identifier.
    pub inputs: Table<i32>,
    /// Bit width of every output port, by identifier.
    pub outputs: Table<i32>,
    /// Bit width of every net, by identifier.
    pub wires: Table<i32>,
    /// Bit width of every register, by identifier.
    pub regs: Table<i32>,
    /// Operator code of every continuous assignment, by expression text.
    pub cont_assigns: Table<i32>,
    /// The clocked assignment last seen under every edge key.
    pub always_assigns: Table<String>,
}

/// The mathematical content of an [`AnalysisData`].
pub struct Summary {
    pub module_name: Seq<Seq<char>>,
    pub inputs: Map<Seq<char>, i32>,
    pub outputs: Map<Seq<char>, i32>,
    pub wires: Map<Seq<char>, i32>,
    pub regs: Map<Seq<char>, i32>,
    pub cont_assigns: Map<Seq<char>, i32>,
    pub always_assigns: Map<Seq<char>, Seq<char>>,
}

/// A scan in progress: what was extracted so far, and the edge key of the
/// block that the scan is inside of, if it is inside of one.
pub struct Scan {
    pub summary: Summary,
    pub block: Option<Seq<char>>,
}

/// The character content of every value of a map of strings.
pub open spec fn text_values(m: Map<Seq<char>, String>) -> Map<Seq<char>, Seq<char>> {
    m.map_values(|s: String| s@)
}

/// `m` with `value` filed under `key`, replacing what was filed there; an
/// empty key files nothing.
pub open spec fn with_entry<V>(m: Map<Seq<char>, V>, key: Seq<char>, value: V) -> Map<
    Seq<char>,
    V,
> {
    if key.len() > 0 {
        m.insert(key, value)
    } else {
        m
    }
}

/// Every key of `m` is a non-empty text.
pub open spec fn keys_nonempty<V>(m: Map<Seq<char>, V>) -> bool {
    forall|key: Seq<char>| #[trigger] m.contains_key(key) ==> key.len() > 0
}

/// Every width filed in `m` is at least 1.
pub open spec fn widths_positive(m: Map<Seq<char>, i32>) -> bool {
    forall|key: Seq<char>| #[trigger] m.contains_key(key) ==> m[key] >= 1
}

impl Summary {
    /// The summary that holds nothing.
    pub open spec fn empty() -> Summary {
        Summary {
            module_name: Seq::empty(),
            inputs: Map::empty(),
            outputs: Map::empty(),
            wires: Map::empty(),
            regs: Map::empty(),
            cont_assigns: Map::empty(),
            always_assigns: Map::empty(),
        }
    }

    /// No module identifier is empty, no mapping has an empty key, and
    /// every declared width is at least 1.
    pub open spec fn wf(self) -> bool {
        &&& forall|i: int| 0 <= i < self.module_name.len() ==> self.module_name[i].len() > 0
        &&& keys_nonempty(self.inputs) && widths_positive(self.inputs)
        &&& keys_nonempty(self.outputs) && widths_positive(self.outputs)
        &&& keys_nonempty(self.wires) && widths_positive(self.wires)
        &&& keys_nonempty(self.regs) && widths_positive(self.regs)
        &&& keys_nonempty(self.cont_assigns)
        &&& keys_nonempty(self.always_assigns)
    }
}

impl Scan {
    /// The scan before its first line: nothing extracted, outside of any
    /// block.
    pub open spec fn start() -> Scan {
        Scan { summary: Summary::empty(), block: None }
    }
}

impl View for AnalysisData {
    type V = Summary;

    open spec fn view(&self) -> Summary {
        Summary {
            module_name: texts(self.module_name@),
            inputs: self.inputs@,
            outputs: self.outputs@,
            wires: self.wires@,
            regs: self.regs@,
            cont_assigns: self.cont_assigns@,
            always_assigns: text_values(self.always_assigns@),
        }
    }
}

/// The scan after one more line: each recognizer's finding, where it is not
/// empty, is merged into the summary, and the block state moves on.
pub open spec fn scan_step(scan: Scan, line: Seq<char>) -> Scan {
    let name = module_name_on(line);
    let input = declaration_on(INPUT_DECLARATION@, line);
    let output = declaration_on(OUTPUT_DECLARATION@, line);
    let wire = declaration_on(WIRE_DECLARATION@, line);
    let reg = declaration_on(REG_DECLARATION@, line);
    let clocked = block_step_on(scan.block, line);
    let assigned = assignment_on(line);
    Scan {
        summary: Summary {
            module_name: if name.len() > 0 {
                scan.summary.module_name.push(name)
            } else {
                scan.summary.module_name
            },
            inputs: with_entry(scan.summary.inputs, input.0, input.1),
            outputs: with_entry(scan.summary.outputs, output.0, output.1),
            wires: with_entry(scan.summary.wires, wire.0, wire.1),
            regs: with_entry(scan.summary.regs, reg.0, reg.1),
            cont_assigns: with_entry(scan.summary.cont_assigns, assigned.0, assigned.1),
            always_assigns: with_entry(scan.summary.always_assigns, clocked.1, clocked.2),
        },
        block: clocked.0,
    }
}

/// The scan after all of `lines`, taken in order from the start.
pub open spec fn scan_of(lines: Seq<Seq<char>>) -> Scan
    decreases lines.len(),
{
    if lines.len() == 0 {
        Scan::start()
    } else {
        scan_step(scan_of(lines.drop_last()), lines.last())
    }
}

impl AnalysisData {
    /// Every table of the summary is well formed: its keys can be walked.
    pub open spec fn wf(&self) -> bool {
        &&& self.inputs.wf()
        &&& self.outputs.wf()
        &&& self.wires.wf()
        &&& self.regs.wf()
        &&& self.cont_assigns.wf()
        &&& self.always_assigns.wf()
    }

    /// The summary that holds nothing.
    pub fn new() -> (data: AnalysisData)
        ensures
            data@ == Summary::empty(),
            data.wf(),
    {
        let data = AnalysisData {
            module_name: Vec::new(),
            inputs: Table::new(),
            outputs: Table::new(),
            wires: Table::new(),
            regs: Table::new(),
            cont_assigns: Table::new(),
            always_assigns: Table::new(),
        };
        assert(texts(data.module_name@) =~= Seq::<Seq<char>>::empty());
        assert(text_values(data.always_assigns@) =~= Map::<Seq<char>, Seq<char>>::empty());
        data
    }
}

/// Shows `line` to every recognizer and merges what they find into `data`.
/// `block` is the block state before the line; the state after it is
/// returned.
pub fn record_line(data: &mut AnalysisData, block: BlockState, line: &str) -> (next: BlockState)
    requires
        patterns_compile(),
        old(data).wf(),
    ensures
        (Scan { summary: final(data)@, block: next@ }) == scan_step(
            (Scan { summary: old(data)@, block: block@ }),
            line@,
        ),
        final(data).wf(),
{
    let name = get_module_name(line);
    if !name.as_str().is_empty() {
        data.module_name.push(name);
        assert(texts(data.module_name@) =~= texts(old(data).module_name@).push(name@));
    }
    let (input, width): (String, i32) = get_inputs(line);
    if !input.as_str().is_empty() {
        data.inputs.insert(input, width);
    }
    let (output, width): (String, i32) = get_outputs(line);
    if !output.as_str().is_empty() {
        data.outputs.insert(output, width);
    }
    let (wire, width): (String, i32) = get_wires(line);
    if !wire.as_str().is_empty() {
        data.wires.insert(wire, width);
    }
    let (reg, width): (String, i32) = get_regs(line);
    if !reg.as_str().is_empty() {
        data.regs.insert(reg, width);
    }
    let (next, key, clocked) = get_alwayses(line, block);
    if !key.as_str().is_empty() {
        data.always_assigns.insert(key, clocked);
        assert(text_values(data.always_assigns@) =~= text_values(old(data).always_assigns@).insert(
            key@,
            clocked@,
        ));
    }
    let (expression, code): (String, i32) = get_assign(line);
    if !expression.as_str().is_empty() {
        data.cont_assigns.insert(expression, code);
    }
    next
}

/// Scans `lines` in order and returns what was extracted: the summary of
/// the scan, which is well formed, and empty where no line is recognized.
pub fn verilog_analysis(lines: &Vec<String>) -> (data: AnalysisData)
    requires
        patterns_compile(),
    ensures
        data@ == scan_of(texts(lines@)).summary,
        data@.wf(),
        data.wf(),
        nothing_recognized(texts(lines@)) ==> data@ == Summary::empty(),
{
    let mut data = AnalysisData::new();
    let mut block = BlockState::Outside;
    let mut i: usize = 0;
    while i < lines.len()
        invariant
            patterns_compile(),
            i <= lines.len(),
            data.wf(),
            (Scan { summary: data@, block: block@ }) == scan_of(texts(lines@).take(i as int)),
        decreases lines.len() - i,
    {
        proof {
            let seen = texts(lines@).take(i + 1);
            assert(seen.drop_last() =~= texts(lines@).take(i as int));
        }
        block = record_line(&mut data, block, lines[i].as_str());
        i += 1;
    }
    proof {
        assert(texts(lines@).take(lines.len() as int) =~= texts(lines@));
        lemma_scan_is_well_formed(texts(lines@));
        if nothing_recognized(texts(lines@)) {
            lemma_unrecognized_text_yields_empty_summary(texts(lines@));
        }
    }
    data
}

/// Scans `lines` as [`verilog_analysis`] does, after making sure that the
/// regex engine accepts the patterns; `None` where it does not.
pub fn try_verilog_analysis(lines: &Vec<String>) -> (outcome: Option<AnalysisData>)
    ensures
        outcome is Some <==> patterns_compile(),
        outcome matches Some(data) ==> {
            &&& data@ == scan_of(texts(lines@)).summary
            &&& data@.wf()
            &&& data.wf()
            &&& nothing_recognized(texts(lines@)) ==> data@ == Summary::empty()
        },
{
    if check_patterns() {
        Some(verilog_analysis(lines))
    } else {
        None
    }
}

} // verus!
