//! The exports of a WebAssembly component, with the types of their functions.
//!
//! - `component`: the parts of a component that the analysis reads, and its index spaces.
//! - `analysed`: the result types: exported functions and instances, and value types.
//! - `resolve`: following exports, aliases and type imports to their definitions.
//! - `context`: the specification of the analysis, and `AnalysisContext`, its entry point.
//! - `analyse`: the executable analysis, proved against that specification.
//! - `failure`: failures and warnings.
//! - `text`: the string helpers that messages are built with.
//! - `laws`, `fuel`, `growth`, `replay`, `warnings`: properties that span several functions or calls.
pub mod analysed;
pub mod text;
pub mod component;
pub mod failure;
pub mod resolve;
pub mod context;
pub mod analyse;
pub mod laws;
pub mod fuel;
pub mod growth;
pub mod replay;
pub mod warnings;
