//! Laws of the parse path, stated over the specification-level outcome
//! `parse_result_spec` that the executable parse functions are proved to
//! return.

use vstd::prelude::*;

use crate::parse::{ast_json, parse_diag, parse_result_spec};

verus! {

/// Parsing is deterministic: the parse path's outcome is a function of the
/// source text alone, so equal source texts always yield identical outcomes
/// — in particular, byte-identical documents on success.
pub proof fn lemma_parse_deterministic(s1: Seq<char>, s2: Seq<char>)
    requires
        s1 == s2,
    ensures
        parse_result_spec(s1) == parse_result_spec(s2),
{
}

/// Syntactically valid source parses successfully: when the parser reports
/// no fatal diagnostic and the tree has an interchange encoding, the parse
/// path returns exactly that document.
pub proof fn lemma_valid_source_succeeds(s: Seq<char>)
    requires
        parse_diag(s) is None,
        ast_json(s) is Ok,
    ensures
        parse_result_spec(s) == Ok::<Seq<char>, Seq<char>>(ast_json(s)->Ok_0),
{
}

/// Syntactically invalid source is reported as a failure carrying the first
/// fatal diagnostic; it is never a success, and (as the parse functions are
/// verified panic-free) never a process abort.
pub proof fn lemma_invalid_source_fails(s: Seq<char>)
    requires
        parse_diag(s) is Some,
    ensures
        parse_result_spec(s) == Err::<Seq<char>, Seq<char>>(parse_diag(s)->Some_0),
{
}

} // verus!
