//! Embeddable JavaScript tooling core: parses JS module source into a
//! structured interchange document, encodes execution outcomes for a host
//! boundary, and exposes a small arithmetic smoke-test operation.

mod arith;
mod laws;
mod outcome;
mod parse;

pub use arith::add;
pub use laws::{lemma_invalid_source_fails, lemma_parse_deterministic, lemma_valid_source_succeeds};
pub use outcome::{encode_execution, encode_outcome, BoundaryResult, ExecutionOutcome};
pub use parse::{
    ast_json, load_source, parse_diag, parse_js, parse_js_result, parse_result_spec, parse_source,
    ParseOutcome, SourceUnit, SyntaxTree,
};
