//! Line-oriented extraction of declarations and assignments from Verilog
//! source text, with the regular-expression engine kept behind a small
//! trusted boundary and everything built on top of it verified.

pub mod laws;
pub mod matching;
pub mod patterns;
pub mod recognizers;
pub mod table;
pub mod text;
pub mod verilog_analysis;
