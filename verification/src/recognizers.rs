//! The recognizers: what one line of source text declares or assigns.
//!
//! Every recognizer comes in two layers. The inner function takes what the
//! regex engine found on the line as plain values and decides what was
//! recognized; its contract is exact. The outer function asks the engine
//! and hands the answers to the inner one, so its contract speaks of the
//! engine only by the names of [`crate::matching`]. The outer functions
//! need the engine to accept the patterns they use, which
//! [`crate::patterns::check_patterns`] finds out.

use crate::matching::{
    find_all, is_match, regex_compiles, regex_find_iter, regex_is_match, texts,
};
use crate::patterns::{
    patterns_compile, ALWAYS_EVENT, ALWAYS_HEADER, ASSIGN_EXPRESSION, ASSIGN_STATEMENT, BIT_RANGE,
    BLOCK_END, CLOCKED_EXPRESSION, CLOCKED_STATEMENT, DECLARED_NAME, DIGIT, INPUT_DECLARATION,
    LOWER_WORD, MODULE_HEADER, OPERATOR, OUTPUT_DECLARATION, REG_DECLARATION, WIRE_DECLARATION, WORD,
};
use crate::text::{digit_of, digit_value, join_all, strip_word, without_word};
use vstd::prelude::*;

verus! {

/// The word that is dropped from an edge event to form its key.
pub const EDGE: &'static str = "edge";

/// Where a scan stands with respect to edge-triggered blocks.
pub enum BlockState {
    /// Not inside any edge-triggered block.
    Outside,
    /// Inside the block that was opened under the edge key `key`.
    Inside { key: String },
}

impl View for BlockState {
    type V = Option<Seq<char>>;

    /// `None` outside of a block, the edge key inside of one.
    open spec fn view(&self) -> Option<Seq<char>> {
        match self {
            BlockState::Outside => None,
            BlockState::Inside { key } => Some(key@),
        }
    }
}

/// The module identifier on a line, from the words of its header: the
/// first word is the keyword, the second the identifier. The empty text
/// where the line is no module header.
pub open spec fn module_name_of(detected: bool, words: Seq<Seq<char>>) -> Seq<char> {
    if detected && words.len() >= 2 {
        words[1]
    } else {
        Seq::empty()
    }
}

/// The bit width of a declaration: 1 without a bit-range annotation, else
/// one more than the first digit of the line; nothing where a range was
/// seen but the first digit found is not a single ASCII digit.
pub open spec fn width_of(ranged: bool, digits: Seq<Seq<char>>) -> Option<i32> {
    if !ranged {
        Some(1i32)
    } else if digits.len() > 0 && digit_of(digits[0]) is Some {
        Some((digit_of(digits[0])->0 + 1) as i32)
    } else {
        None
    }
}

/// The identifier and width that a declaration line declares, from the
/// lower-case words at its end, of which the first is the identifier; the
/// empty text and 0 where it declares nothing.
pub open spec fn declaration_of(
    detected: bool,
    names: Seq<Seq<char>>,
    ranged: bool,
    digits: Seq<Seq<char>>,
) -> (Seq<char>, i32) {
    if detected && names.len() > 0 && names[0].len() > 0 && width_of(ranged, digits) is Some {
        (names[0], width_of(ranged, digits)->0)
    } else {
        (Seq::empty(), 0i32)
    }
}

/// The code of an operator token.
pub open spec fn operator_code_of(operator: Seq<char>) -> i32 {
    if operator == seq!['&', '&'] {
        6
    } else if operator == seq!['|', '|'] {
        5
    } else if operator == seq!['&'] {
        4
    } else if operator == seq!['|'] {
        3
    } else if operator == seq!['+'] {
        2
    } else if operator == seq!['-'] {
        1
    } else {
        0
    }
}

/// The expression and operator code of a continuous assignment: the first
/// extracted expression with the code of the first operator token of the
/// line, or the empty text and 0 where none was extracted.
pub open spec fn assignment_of(
    detected: bool,
    expressions: Seq<Seq<char>>,
    operators: Seq<Seq<char>>,
) -> (Seq<char>, i32) {
    if detected && expressions.len() > 0 && expressions[0].len() > 0 {
        (
            expressions[0],
            if operators.len() > 0 {
                operator_code_of(operators[0])
            } else {
                0
            },
        )
    } else {
        (Seq::empty(), 0i32)
    }
}

/// The key under which the assignments of a block are filed: the extracted
/// events, joined, without the word `edge`.
pub open spec fn edge_key_of(events: Seq<Seq<char>>) -> Seq<char> {
    without_word(events.flatten(), EDGE@)
}

/// One step of the block state machine: the state after the line, and the
/// edge key and expression captured on it (both empty where nothing was).
///
/// Outside of a block only a header is looked for; it opens a block and
/// captures nothing. Inside, a closing line ends the block; any other line
/// that is a clocked assignment with an extractable expression is captured
/// under the key of the block.
pub open spec fn block_step(
    block: Option<Seq<char>>,
    header: bool,
    events: Seq<Seq<char>>,
    closing: bool,
    statement: bool,
    expressions: Seq<Seq<char>>,
) -> (Option<Seq<char>>, Seq<char>, Seq<char>) {
    match block {
        None => if header {
            (Some(edge_key_of(events)), Seq::empty(), Seq::empty())
        } else {
            (None, Seq::empty(), Seq::empty())
        },
        Some(key) => if closing {
            (None, Seq::empty(), Seq::empty())
        } else if statement && expressions.len() > 0 {
            (Some(key), key, expressions[0])
        } else {
            (Some(key), Seq::empty(), Seq::empty())
        },
    }
}

/// The words of the module header that `line` starts with, up to the
/// parenthesis that opens the port list; none where it starts with no
/// header.
pub open spec fn header_words_on(line: Seq<char>) -> Seq<Seq<char>> {
    let headers = regex_find_iter(MODULE_HEADER@, line);
    if headers.len() > 0 {
        regex_find_iter(WORD@, headers[0])
    } else {
        Seq::empty()
    }
}

/// What the module recognizer finds on `line`.
pub open spec fn module_name_on(line: Seq<char>) -> Seq<char> {
    module_name_of(regex_is_match(MODULE_HEADER@, line), header_words_on(line))
}

/// The lower-case words of the end of `line`: the identifier that stands
/// last on it; none where the line does not end in one.
pub open spec fn declared_names_on(line: Seq<char>) -> Seq<Seq<char>> {
    let ends = regex_find_iter(DECLARED_NAME@, line);
    if ends.len() > 0 {
        regex_find_iter(LOWER_WORD@, ends[0])
    } else {
        Seq::empty()
    }
}

/// What a declaration recognizer with the detecting pattern `keyword` finds
/// on `line`.
pub open spec fn declaration_on(keyword: Seq<char>, line: Seq<char>) -> (Seq<char>, i32) {
    declaration_of(
        regex_is_match(keyword, line),
        declared_names_on(line),
        regex_is_match(BIT_RANGE@, line),
        regex_find_iter(DIGIT@, line),
    )
}

/// What the continuous-assignment recognizer finds on `line`.
pub open spec fn assignment_on(line: Seq<char>) -> (Seq<char>, i32) {
    assignment_of(
        regex_is_match(ASSIGN_STATEMENT@, line),
        regex_find_iter(ASSIGN_EXPRESSION@, line),
        regex_find_iter(OPERATOR@, line),
    )
}

/// What the sequential-block recognizer makes of `line` in state `block`.
pub open spec fn block_step_on(block: Option<Seq<char>>, line: Seq<char>) -> (
    Option<Seq<char>>,
    Seq<char>,
    Seq<char>,
) {
    block_step(
        block,
        regex_is_match(ALWAYS_HEADER@, line),
        regex_find_iter(ALWAYS_EVENT@, line),
        regex_is_match(BLOCK_END@, line),
        regex_is_match(CLOCKED_STATEMENT@, line),
        regex_find_iter(CLOCKED_EXPRESSION@, line),
    )
}

/// Decides the module identifier from the words of the header that was
/// found on a line.
pub fn module_name_from(detected: bool, words: &Vec<String>) -> (name: String)
    ensures
        name@ == module_name_of(detected, texts(words@)),
{
    if detected && words.len() >= 2 {
        words[1].clone()
    } else {
        String::new()
    }
}

/// Decides the declared identifier and its width from what was found on a
/// line.
pub fn declaration_from(
    detected: bool,
    names: &Vec<String>,
    ranged: bool,
    digits: &Vec<String>,
) -> (declared: (String, i32))
    ensures
        (declared.0@, declared.1) == declaration_of(
            detected,
            texts(names@),
            ranged,
            texts(digits@),
        ),
{
    if !detected || names.len() == 0 {
        return (String::new(), 0);
    }
    if names[0].as_str().is_empty() {
        return (String::new(), 0);
    }
    let name = names[0].clone();
    if !ranged {
        return (name, 1);
    }
    if digits.len() == 0 {
        return (String::new(), 0);
    }
    match digit_value(digits[0].as_str()) {
        Some(digit) => (name, digit + 1),
        None => (String::new(), 0),
    }
}

/// Looks an operator token up in the code table.
pub fn operator_code(operator: &str) -> (code: i32)
    ensures
        code == operator_code_of(operator@),
{
    let n: usize = operator.unicode_len();
    if n == 1 {
        let c = operator.get_char(0);
        assert(operator@ =~= seq![c]);
        if c == '&' {
            4
        } else if c == '|' {
            3
        } else if c == '+' {
            2
        } else if c == '-' {
            1
        } else {
            0
        }
    } else if n == 2 {
        let c = operator.get_char(0);
        let d = operator.get_char(1);
        assert(operator@ =~= seq![c, d]);
        if c == '&' && d == '&' {
            6
        } else if c == '|' && d == '|' {
            5
        } else {
            0
        }
    } else {
        0
    }
}

/// Decides the expression and operator code of a continuous assignment
/// from what was found on a line.
pub fn assignment_from(detected: bool, expressions: &Vec<String>, operators: &Vec<String>) -> (assigned:
    (String, i32))
    ensures
        (assigned.0@, assigned.1) == assignment_of(
            detected,
            texts(expressions@),
            texts(operators@),
        ),
{
    if !detected || expressions.len() == 0 || expressions[0].as_str().is_empty() {
        return (String::new(), 0);
    }
    let code: i32 = if operators.len() > 0 {
        operator_code(operators[0].as_str())
    } else {
        0
    };
    (expressions[0].clone(), code)
}

/// Advances the block state machine by one line, from what was found on
/// it, and hands out the captured edge key and expression.
pub fn block_transition(
    block: BlockState,
    header: bool,
    events: &Vec<String>,
    closing: bool,
    statement: bool,
    expressions: &Vec<String>,
) -> (next: (BlockState, String, String))
    ensures
        (next.0@, next.1@, next.2@) == block_step(
            block@,
            header,
            texts(events@),
            closing,
            statement,
            texts(expressions@),
        ),
{
    match block {
        BlockState::Outside => {
            if header {
                let event = join_all(events);
                let key = strip_word(event.as_str(), EDGE);
                (BlockState::Inside { key }, String::new(), String::new())
            } else {
                (BlockState::Outside, String::new(), String::new())
            }
        },
        BlockState::Inside { key } => {
            if closing {
                (BlockState::Outside, String::new(), String::new())
            } else if statement && expressions.len() > 0 {
                let filed = key.clone();
                (BlockState::Inside { key }, filed, expressions[0].clone())
            } else {
                (BlockState::Inside { key }, String::new(), String::new())
            }
        },
    }
}

/// Recognizes a module header and extracts its identifier; the empty
/// string where `line` is none.
pub fn get_module_name(line: &str) -> (name: String)
    requires
        patterns_compile(),
    ensures
        name@ == module_name_on(line@),
{
    let detected = is_match(MODULE_HEADER, line);
    if !detected {
        return module_name_from(false, &Vec::new());
    }
    let headers = find_all(MODULE_HEADER, line);
    let words = if headers.len() > 0 {
        find_all(WORD, headers[0].as_str())
    } else {
        Vec::new()
    };
    module_name_from(detected, &words)
}

/// Recognizes a declaration that `keyword` detects and extracts its
/// identifier and width.
fn get_declaration(keyword: &str, line: &str) -> (declared: (String, i32))
    requires
        patterns_compile(),
        regex_compiles(keyword@),
    ensures
        (declared.0@, declared.1) == declaration_on(keyword@, line@),
{
    let detected = is_match(keyword, line);
    if !detected {
        return declaration_from(false, &Vec::new(), false, &Vec::new());
    }
    let ends = find_all(DECLARED_NAME, line);
    let names = if ends.len() > 0 {
        find_all(LOWER_WORD, ends[0].as_str())
    } else {
        Vec::new()
    };
    let ranged = is_match(BIT_RANGE, line);
    let digits = if ranged {
        find_all(DIGIT, line)
    } else {
        Vec::new()
    };
    declaration_from(detected, &names, ranged, &digits)
}

/// Recognizes an `input` declaration; the empty string and 0 where `line`
/// is none.
pub fn get_inputs(line: &str) -> (declared: (String, i32))
    requires
        patterns_compile(),
    ensures
        (declared.0@, declared.1) == declaration_on(INPUT_DECLARATION@, line@),
{
    get_declaration(INPUT_DECLARATION, line)
}

/// Recognizes an `output` declaration; the empty string and 0 where `line`
/// is none.
pub fn get_outputs(line: &str) -> (declared: (String, i32))
    requires
        patterns_compile(),
    ensures
        (declared.0@, declared.1) == declaration_on(OUTPUT_DECLARATION@, line@),
{
    get_declaration(OUTPUT_DECLARATION, line)
}

/// Recognizes a `wire` declaration; the empty string and 0 where `line` is
/// none.
pub fn get_wires(line: &str) -> (declared: (String, i32))
    requires
        patterns_compile(),
    ensures
        (declared.0@, declared.1) == declaration_on(WIRE_DECLARATION@, line@),
{
    get_declaration(WIRE_DECLARATION, line)
}

/// Recognizes a `reg` declaration; the empty string and 0 where `line` is
/// none.
pub fn get_regs(line: &str) -> (declared: (String, i32))
    requires
        patterns_compile(),
    ensures
        (declared.0@, declared.1) == declaration_on(REG_DECLARATION@, line@),
{
    get_declaration(REG_DECLARATION, line)
}

/// Recognizes a continuous assignment and extracts its expression and
/// operator code; the empty string and 0 where nothing is extracted.
pub fn get_assign(line: &str) -> (assigned: (String, i32))
    requires
        patterns_compile(),
    ensures
        (assigned.0@, assigned.1) == assignment_on(line@),
{
    let detected = is_match(ASSIGN_STATEMENT, line);
    if !detected {
        return assignment_from(false, &Vec::new(), &Vec::new());
    }
    let expressions = find_all(ASSIGN_EXPRESSION, line);
    let operators = find_all(OPERATOR, line);
    assignment_from(detected, &expressions, &operators)
}

/// Feeds `line` to the block state machine in state `block`: returns the
/// state after the line, and the edge key and expression of the clocked
/// assignment captured on it, both empty where none was.
pub fn get_alwayses(line: &str, block: BlockState) -> (next: (BlockState, String, String))
    requires
        patterns_compile(),
    ensures
        (next.0@, next.1@, next.2@) == block_step_on(block@, line@),
{
    match block {
        BlockState::Outside => {
            let header = is_match(ALWAYS_HEADER, line);
            let events = if header {
                find_all(ALWAYS_EVENT, line)
            } else {
                Vec::new()
            };
            block_transition(block, header, &events, false, false, &Vec::new())
        },
        BlockState::Inside { .. } => {
            let closing = is_match(BLOCK_END, line);
            let statement = !closing && is_match(CLOCKED_STATEMENT, line);
            let expressions = if statement {
                find_all(CLOCKED_EXPRESSION, line)
            } else {
                Vec::new()
            };
            block_transition(block, false, &Vec::new(), closing, statement, &expressions)
        },
    }
}

} // verus!
