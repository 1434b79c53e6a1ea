//! Compile-time assertion checking parameterized over generic type and const
//! parameters.
//!
//! An assertion request — a parenthesized list of generic parameter
//! descriptors, a boolean expression over them, and an optional failure
//! message — is parsed and expanded into the source text of an anonymous
//! carrier type, generic over exactly the declared parameters, whose single
//! associated constant evaluates the expression and aborts compilation of the
//! offending instantiation when it is false. A narrower destruction-guard
//! request takes exactly one descriptor and expands to a destructor body whose
//! constant fails unconditionally, so that any instantiation of the destructor
//! is itself a compile-time failure.
//!
//! The library works on a plain token model; turning a host token stream into
//! that model and the expanded text back into host tokens is the caller's
//! concern.
//!
//! The emitted check never runs at runtime: it is a compile-time gate with no
//! surviving artifact. Two limitations of the mechanism are accepted and
//! documented rather than fixed. A lightweight analysis pass that does not
//! force constant evaluation will not surface generic-dependent failures; a
//! full build is required to observe them. And referencing a generic of the
//! surrounding scope that the descriptor list does not declare is reported by
//! the host with a misleading diagnostic that does not originate here.

use vstd::prelude::*;

pub mod descriptor;
pub mod expand;
pub mod laws;
pub mod parse;
pub mod token;

use expand::static_assert_text;
use expand::explicitly_drop_text;
use parse::AssertOutcome;
use parse::DropOutcome;
use parse::ExplicitlyDropInput;
use parse::ParseError;
use parse::StaticAssertInput;
use parse::spec_parse_assert;
use parse::spec_parse_drop;
use token::Leaf;
use token::Token;
use token::leaves_view;
use token::tokens_view;

verus! {

/// Parses an assertion invocation `( generics ) expression [ => message ]` and
/// expands it to the text of a forced, per-instantiation compile-time check.
pub fn static_assert(input: &Vec<Token>) -> (r: Result<String, ParseError>)
    ensures
        match r {
            Ok(out) => spec_parse_assert(tokens_view(input@)) matches AssertOutcome::Found {
                req,
            } && out@ == static_assert_text(req),
            Err(e) => spec_parse_assert(tokens_view(input@)) == (AssertOutcome::Fail {
                kind: e.kind,
                pos: e.pos as int,
            }),
        },
{
    match StaticAssertInput::parse(input) {
        Ok(req) => Ok(req.expand()),
        Err(e) => Err(e),
    }
}

/// Parses a destruction-guard invocation `generic [ => message ]` and expands
/// it to the text of a destructor whose mere instantiation fails compilation.
pub fn explicitly_drop(input: &Vec<Leaf>) -> (r: Result<String, ParseError>)
    ensures
        match r {
            Ok(out) => spec_parse_drop(leaves_view(input@)) matches DropOutcome::Found {
                req,
            } && out@ == explicitly_drop_text(req),
            Err(e) => spec_parse_drop(leaves_view(input@)) == (DropOutcome::Fail {
                kind: e.kind,
                pos: e.pos as int,
            }),
        },
{
    match ExplicitlyDropInput::parse(input) {
        Ok(req) => Ok(req.expand()),
        Err(e) => Err(e),
    }
}

} // verus!
