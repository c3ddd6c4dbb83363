//! The fixed battery of patterns that the recognizers apply to a line.
//!
//! Each pattern is written in the syntax of the `regex` crate. A pattern
//! that detects a statement is only ever asked whether it matches; a
//! pattern that extracts is asked for the text of its matches.

use crate::matching::{compiles, regex_compiles};
use vstd::prelude::*;

verus! {

/// Detects a module header at the start of a line and extracts it: the
/// keyword, the identifier and the parenthesis that opens the port list.
/// What follows the parenthesis is not looked at.
pub const MODULE_HEADER: &'static str = r"^\s*module\s+\w+\s*\(";

/// Extracts the words of a text, one per match.
pub const WORD: &'static str = r"\w+";

/// Detects an `input` port declaration.
pub const INPUT_DECLARATION: &'static str =
    r"\binput( reg| wire)?\s+(\[[0-9]:[0-9]?\])?\s*(\w+),?";

/// Detects an `output` port declaration.
pub const OUTPUT_DECLARATION: &'static str =
    r"\boutput( reg| wire)?\s+(\[[0-9]:[0-9]?\])?\s*(\w+),?";

/// Detects a `wire` declaration: a line that begins with the keyword,
/// followed by an optional bit range, one name or a comma list of names,
/// and a semicolon.
pub const WIRE_DECLARATION: &'static str =
    r"^wire\s+(\[[0-9]:[0-9]?\])?\s*(\w+\s*,\s*)*\w+\s*;";

/// Detects a `reg` declaration: a line that begins with the keyword,
/// followed by an optional bit range, one name or a comma list of names,
/// and a semicolon.
pub const REG_DECLARATION: &'static str =
    r"^reg\s+(\[[0-9]:[0-9]?\])?\s*(\w+\s*,\s*)*\w+\s*;";

/// Extracts the end of a declaration line: the lower-case identifier that
/// stands last, with the comma or semicolon and the white space that may
/// follow it.
pub const DECLARED_NAME: &'static str = r"[a-z]+\s*[,;]?\s*$";

/// Extracts the runs of lower-case letters of a text, one per match.
pub const LOWER_WORD: &'static str = r"[a-z]+";

/// Detects a bit-range annotation such as `[7:0]`.
pub const BIT_RANGE: &'static str = r"(\[[0-9]:[0-9]?\])";

/// Extracts the decimal digits of a line, one per match.
pub const DIGIT: &'static str = r"[0-9]";

/// Detects a continuous assignment, in its infix or in its compound form.
pub const ASSIGN_STATEMENT: &'static str =
    r"^\s*(assign ((\w+ = \w+\s+[&|+-]+\s+\w+)|(\w+ [&|+-]+= \w+));\s?)";

/// Extracts the expression of a continuous assignment in infix form.
pub const ASSIGN_EXPRESSION: &'static str = r"\w+ = \w+\s+[&|+-]+\s+\w+";

/// Extracts the runs of operator characters of a line.
pub const OPERATOR: &'static str = r"[&|+-]+";

/// Detects the header of an edge-triggered block.
pub const ALWAYS_HEADER: &'static str = r"^\s*(always(_ff)? @\((pos|neg)edge \w+\) begin\s*)";

/// Extracts the edge and the clock of an edge-triggered block.
pub const ALWAYS_EVENT: &'static str = r"(pos|neg)edge\s+(\w+)\s*";

/// Detects the line that closes an edge-triggered block: one that begins
/// with the word `end`.
pub const BLOCK_END: &'static str = r"^\s*end\b";

/// Detects a clocked assignment, in its infix or in its compound form.
pub const CLOCKED_STATEMENT: &'static str =
    r"^\s*((\w+ <?= \w+\s+[&|+-]+\s+\w+;\s?)|(\w+ [&|+-]+= \w+))";

/// Extracts the expression of a clocked assignment in infix form.
pub const CLOCKED_EXPRESSION: &'static str = r"\w+ <?= \w+\s+[&|+-]+\s+\w+";

/// Whether the regex engine accepts every pattern of the battery.
pub open spec fn patterns_compile() -> bool {
    &&& regex_compiles(MODULE_HEADER@)
    &&& regex_compiles(WORD@)
    &&& regex_compiles(INPUT_DECLARATION@)
    &&& regex_compiles(OUTPUT_DECLARATION@)
    &&& regex_compiles(WIRE_DECLARATION@)
    &&& regex_compiles(REG_DECLARATION@)
    &&& regex_compiles(DECLARED_NAME@)
    &&& regex_compiles(LOWER_WORD@)
    &&& regex_compiles(BIT_RANGE@)
    &&& regex_compiles(DIGIT@)
    &&& regex_compiles(ASSIGN_STATEMENT@)
    &&& regex_compiles(ASSIGN_EXPRESSION@)
    &&& regex_compiles(OPERATOR@)
    &&& regex_compiles(ALWAYS_HEADER@)
    &&& regex_compiles(ALWAYS_EVENT@)
    &&& regex_compiles(BLOCK_END@)
    &&& regex_compiles(CLOCKED_STATEMENT@)
    &&& regex_compiles(CLOCKED_EXPRESSION@)
}

/// Compiles every pattern of the battery once and reports whether the
/// engine accepted all of them.
pub fn check_patterns() -> (ok: bool)
    ensures
        ok == patterns_compile(),
{
    compiles(MODULE_HEADER) && compiles(WORD) && compiles(INPUT_DECLARATION) && compiles(
        OUTPUT_DECLARATION,
    ) && compiles(WIRE_DECLARATION) && compiles(REG_DECLARATION) && compiles(DECLARED_NAME)
        && compiles(LOWER_WORD) && compiles(BIT_RANGE) && compiles(DIGIT) && compiles(ASSIGN_STATEMENT) && compiles(
        ASSIGN_EXPRESSION,
    ) && compiles(OPERATOR) && compiles(ALWAYS_HEADER) && compiles(ALWAYS_EVENT) && compiles(
        BLOCK_END,
    ) && compiles(CLOCKED_STATEMENT) && compiles(CLOCKED_EXPRESSION)
}

} // verus!
