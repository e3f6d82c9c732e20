//! Semantic analysis and code generation for a small expression language.
//!
//! A parsed tree goes through two passes. The checker records what names
//! stand for and collects every diagnostic; only a tree without diagnostics
//! goes on to the generator, which lowers it to a textual register and
//! basic-block form. What each pass does is stated once as a function on its
//! state (`checking`, `lowering`), and the passes are proved to do exactly
//! that.
pub mod ast;
pub mod ast_optimizer;
pub mod ast_printer_visitor;
pub mod checking;
pub mod comments;
pub mod counting;
pub mod errors;
pub mod generator;
pub mod lowering;
pub mod semantic_type_checker;
pub mod storage;
pub mod symbol_table;
pub mod text;
pub mod theorems;
pub mod tokens;
pub mod types;
pub mod visitor;
