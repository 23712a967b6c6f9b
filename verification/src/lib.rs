//! Transpiles a C/C++ syntax tree, as a compiler dumps it in JSON, into
//! Rust source text.

pub mod ast;
pub mod decode;
pub mod json;
pub mod llm;
pub mod report;
pub mod rules;
pub mod tokens;
pub mod transpiler;
pub mod types;
pub mod utils;
