//! The parse pipeline: wraps raw source into a source unit, drives the
//! ECMAScript parser over it, and serializes the resulting syntax tree into
//! the structural interchange document.
//!
//! The lexer/parser and the document encoder are outside engines; the
//! pipeline drives them through trusted wrappers whose contracts name their
//! results (`parse_diag`, `ast_json`) as functions of the source text alone,
//! which both engines are: the parse is deterministic, and the document
//! encoding is a deterministic function of the tree, which in turn is a
//! function of the text it was parsed from.

use vstd::prelude::*;

use swc_common::sync::Lrc;
use swc_common::{FileName, SourceMap};
use swc_ecma_parser::{lexer::Lexer, Parser, StringInput, Syntax};

use crate::outcome::{encode_outcome, BoundaryResult};

verus! {

#[verifier::external_type_specification]
#[verifier::external_body]
pub struct ExModule(swc_ecma_ast::Module);

/// The diagnostic the parser reports for a source text: `None` when the text
/// is a syntactically valid ES module, and `Some` of the rendering of the
/// first fatal diagnostic (position and message) otherwise.
pub uninterp spec fn parse_diag(s: Seq<char>) -> Option<Seq<char>>;

/// The interchange document the encoder produces for the syntax tree parsed
/// from a source text: the document on success, or a rendering of the
/// encoding fault otherwise.
pub uninterp spec fn ast_json(s: Seq<char>) -> Result<Seq<char>, Seq<char>>;

/// A raw source string associated with a stable synthetic file identity.
/// Created per call and discarded at call end; nothing is validated here.
pub struct SourceUnit {
    text: String,
    name: &'static str,
}

impl View for SourceUnit {
    type V = Seq<char>;

    closed spec fn view(&self) -> Seq<char> {
        self.text@
    }
}

/// Wraps raw source text into the unit the parser consumes. The text passes
/// through unchanged; the unit carries a fixed synthetic name.
pub fn load_source(text: String) -> (unit: SourceUnit)
    ensures
        unit@ == text@,
{
    SourceUnit { text, name: "test.js" }
}

/// A syntax tree paired with the exact source text it was parsed from. Only
/// `parse_module_swc` constructs one, so the pairing always holds;
/// `serialize_tree_swc`'s contract relies on it. At the specification level a
/// tree is identified by that source text, which determines it.
pub struct SyntaxTree {
    module: swc_ecma_ast::Module,
    source: String,
}

impl View for SyntaxTree {
    type V = Seq<char>;

    closed spec fn view(&self) -> Seq<char> {
        self.source@
    }
}

/// Either the syntax tree of a valid source unit, or the rendering of the
/// first fatal syntax diagnostic; never both.
pub enum ParseOutcome {
    Tree(SyntaxTree),
    SyntaxError(String),
}

/// Relies on swc_ecma_parser::Parser::parse_module, driven by a lexer over a
/// fresh source map holding exactly the unit's text: a deterministic parse of
/// the text as an ES module under the fixed dialect, yielding a tree exactly
/// when no fatal diagnostic arises, and the first fatal diagnostic, rendered
/// with its position, otherwise. parse_module returns a Result and does not
/// panic on malformed input.
#[verifier::external_body]
fn parse_module_swc(unit: &SourceUnit) -> (r: Result<SyntaxTree, String>)
    ensures
        r is Ok <==> parse_diag(unit@) is None,
        r is Ok ==> r->Ok_0@ == unit@,
        r is Err ==> parse_diag(unit@) == Some(r->Err_0@),
{
    let cm = Lrc::new(SourceMap::default());
    let file = cm.new_source_file(
        Lrc::new(FileName::Custom(unit.name.to_string())),
        unit.text.clone(),
    );
    let lexer = Lexer::new(
        Syntax::Es(Default::default()),
        Default::default(),
        StringInput::from(&*file),
        None,
    );
    match Parser::new_from(lexer).parse_module() {
        Ok(module) => Ok(SyntaxTree { module, source: unit.text.clone() }),
        Err(e) => Err(format!("{:?}", e)),
    }
}

/// Relies on serde_json::to_string: a deterministic encoding of the syntax
/// tree as a structured text document (each node an object tagged with its
/// kind, fields in tree order), or an encoding fault rendered as text. The
/// tree is a function of the source text it was parsed from, so the encoding
/// is one too.
#[verifier::external_body]
fn serialize_tree_swc(tree: &SyntaxTree) -> (r: Result<String, String>)
    ensures
        r is Ok <==> ast_json(tree@) is Ok,
        r is Ok ==> r->Ok_0@ == ast_json(tree@)->Ok_0,
        r is Err ==> r->Err_0@ == ast_json(tree@)->Err_0,
{
    serde_json::to_string(&tree.module).map_err(|e| e.to_string())
}

/// Tokenizes and parses one source unit as a module-level program under the
/// fixed dialect. Malformed input is a reported outcome, not a fault.
pub fn parse_source(unit: &SourceUnit) -> (outcome: ParseOutcome)
    ensures
        outcome is Tree <==> parse_diag(unit@) is None,
        outcome is Tree ==> outcome->Tree_0@ == unit@,
        outcome is SyntaxError ==> parse_diag(unit@) == Some(outcome->SyntaxError_0@),
{
    match parse_module_swc(unit) {
        Ok(tree) => ParseOutcome::Tree(tree),
        Err(message) => ParseOutcome::SyntaxError(message),
    }
}

/// What the whole parse path returns for a given source text: the first
/// fatal syntax diagnostic if parsing fails, otherwise the outcome of
/// encoding the tree as an interchange document.
pub open spec fn parse_result_spec(s: Seq<char>) -> Result<Seq<char>, Seq<char>> {
    match parse_diag(s) {
        Some(message) => Err(message),
        None => ast_json(s),
    }
}

/// Parses source text as an ES module and serializes the tree into the
/// interchange document. Returns the document, or the first fatal syntax
/// diagnostic, or the encoding fault; never panics.
pub fn parse_js_result(source: String) -> (r: Result<String, String>)
    ensures
        r is Ok <==> parse_result_spec(source@) is Ok,
        r is Ok ==> r->Ok_0@ == parse_result_spec(source@)->Ok_0,
        r is Err ==> r->Err_0@ == parse_result_spec(source@)->Err_0,
{
    let unit = load_source(source);
    match parse_source(&unit) {
        ParseOutcome::Tree(tree) => serialize_tree_swc(&tree),
        ParseOutcome::SyntaxError(message) => Err(message),
    }
}

/// The parse operation of the call boundary: parses and serializes the
/// source, then wraps the outcome into the two-shape boundary contract.
pub fn parse_js(source: String) -> (r: BoundaryResult)
    ensures
        r is Success <==> parse_result_spec(source@) is Ok,
        r is Success ==> r->Success_0@ == parse_result_spec(source@)->Ok_0,
        r is Failure ==> r->Failure_0@ == parse_result_spec(source@)->Err_0,
{
    encode_outcome(parse_js_result(source))
}

} // verus!
