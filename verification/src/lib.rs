//! A compiler backend for a small indentation-structured language: it
//! lowers a typed program tree into a control-flow graph of native-style
//! instructions, executes the result, and reuses previously generated code
//! through a bounded function cache. Foreign calls resolve through a symbol
//! registry; allocations go through a narrow memory-manager boundary.

pub mod ast;
pub mod cache;
pub mod codegen;
pub mod diagnostics;
pub mod error;
pub mod executor;
pub mod ffi;
pub mod float;
pub mod indent;
pub mod interp;
pub mod ir;
pub mod lower;
pub mod memory;
pub mod registry;
pub mod source_span;
pub mod stdlib;
pub mod strutil;
pub mod stubgen;
pub mod token_kind;
pub mod typing;
pub mod value_type;
