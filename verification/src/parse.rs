//! Parsers for the two invocation surfaces.
//!
//! An assertion request is shaped `( descriptors ) expression [ => message ]`:
//! a parenthesized, comma-separated descriptor list (trailing comma permitted,
//! list may be empty), a mandatory expression, and an optional arrow-prefixed
//! message of arbitrary token content. A destruction-guard request is shaped
//! `descriptor [ => message ]`, with exactly one descriptor and no
//! parentheses.
//!
//! Each descriptor starts with an identifier. A following `:` introduces the
//! type of a constant parameter — unless it is immediately followed by `?`,
//! which is the one misspelling of the unsized qualifier called out with its
//! own diagnostic, since the correct spelling is a trailing `?` on the
//! identifier. A following `?` marks an unsized type parameter; neither marks
//! an ordinary type parameter. The type of a constant parameter extends to the
//! next comma or `=>` outside angle brackets. Declaring the same identifier
//! twice is rejected. Parsing is fail-fast and single-pass: the first failing
//! step reports a positional error and nothing is recovered.
//!
//! A reported position counts tokens of the sequence the failing step was
//! reading: the descriptor list for errors inside the parentheses, the whole
//! invocation otherwise.

use vstd::prelude::*;

use crate::descriptor::Generic;
use crate::descriptor::GenericV;
use crate::descriptor::generics_view;
use crate::descriptor::ident_of;
use crate::token::Leaf;
use crate::token::LeafV;
use crate::token::Token;
use crate::token::TokenV;
use crate::token::leaves_text;
use crate::token::leaves_view;
use crate::token::render_leaves;
use crate::token::render_tokens;
use crate::token::tokens_text;
use crate::token::tokens_view;

verus! {

/// The ways an invocation can be malformed.
#[derive(Clone, Copy, PartialEq, Eq, Structural, Debug)]
pub enum ErrorKind {
    /// A descriptor must start with an identifier.
    ExpectedIdent,
    /// The keyword `const` stood where an identifier was expected.
    ConstKeyword,
    /// `:` immediately followed by `?`: the unsized qualifier is a trailing
    /// `?` on the identifier, not a `?Sized` bound.
    ColonQuestion,
    /// `:` with no type after it.
    ExpectedType,
    /// Descriptors must be separated by commas.
    ExpectedComma,
    /// The same identifier was declared twice.
    DuplicateIdent,
    /// An assertion invocation must start with a parenthesized descriptor
    /// list.
    ExpectedParens,
    /// An assertion invocation must contain an expression.
    ExpectedExpr,
    /// A destruction-guard invocation holds exactly one descriptor, optionally
    /// followed by `=>` and a message.
    ExpectedEnd,
}

/// A positional parse failure.
#[derive(Clone, Copy, PartialEq, Eq, Structural, Debug)]
pub struct ParseError {
    pub kind: ErrorKind,
    /// Index of the offending token, counted as described in the module
    /// documentation.
    pub pos: usize,
}

/// The diagnostic text for each kind of failure.
pub open spec fn error_text(kind: ErrorKind) -> Seq<char> {
    match kind {
        ErrorKind::ExpectedIdent => "expected an identifier"@,
        ErrorKind::ConstKeyword => "expected an identifier, found the keyword `const`; a const generic is declared as `name: type`, without `const`"@,
        ErrorKind::ColonQuestion => "to declare an unsized type parameter, write `name?` instead of `name: ?Sized`"@,
        ErrorKind::ExpectedType => "expected a type after `:`"@,
        ErrorKind::ExpectedComma => "expected `,` between generic declarations"@,
        ErrorKind::DuplicateIdent => "the same generic parameter is declared twice"@,
        ErrorKind::ExpectedParens => "expected a parenthesized list of generic declarations"@,
        ErrorKind::ExpectedExpr => "expected an expression to assert"@,
        ErrorKind::ExpectedEnd => "expected exactly one generic declaration, optionally followed by `=>` and a message"@,
    }
}

impl ParseError {
    /// The human-readable explanation of this failure.
    pub fn message(&self) -> (r: &'static str)
        ensures
            r@ == error_text(self.kind),
    {
        match self.kind {
            ErrorKind::ExpectedIdent => "expected an identifier",
            ErrorKind::ConstKeyword => "expected an identifier, found the keyword `const`; a const generic is declared as `name: type`, without `const`",
            ErrorKind::ColonQuestion => "to declare an unsized type parameter, write `name?` instead of `name: ?Sized`",
            ErrorKind::ExpectedType => "expected a type after `:`",
            ErrorKind::ExpectedComma => "expected `,` between generic declarations",
            ErrorKind::DuplicateIdent => "the same generic parameter is declared twice",
            ErrorKind::ExpectedParens => "expected a parenthesized list of generic declarations",
            ErrorKind::ExpectedExpr => "expected an expression to assert",
            ErrorKind::ExpectedEnd => "expected exactly one generic declaration, optionally followed by `=>` and a message",
        }
    }
}

/// Outcome of reading one descriptor at a position.
pub enum DescOutcome {
    Found { g: GenericV, next: int },
    Fail { kind: ErrorKind, pos: int },
}

/// Outcome of reading a whole descriptor list.
pub enum ListOutcome {
    Found { gs: Seq<GenericV> },
    Fail { kind: ErrorKind, pos: int },
}

/// Outcome of reading an assertion invocation.
pub enum AssertOutcome {
    Found { req: StaticAssertInputV },
    Fail { kind: ErrorKind, pos: int },
}

/// Outcome of reading a destruction-guard invocation.
pub enum DropOutcome {
    Found { req: ExplicitlyDropInputV },
    Fail { kind: ErrorKind, pos: int },
}

/// End of the type run that starts at `i`: the first position at or after `i`
/// holding a comma or `=>` outside angle brackets, or the end of the input.
/// Only lone `<` and `>` tokens move the depth; joined operator runs such as
/// `>>` are opaque.
pub open spec fn type_run_end(s: Seq<LeafV>, i: int, depth: int) -> int
    decreases s.len() - i,
{
    if i < 0 || i >= s.len() {
        s.len() as int
    } else if depth <= 0 && (s[i] is Comma || s[i] is FatArrow) {
        i
    } else if s[i] is Lt {
        type_run_end(s, i + 1, depth + 1)
    } else if s[i] is Gt {
        type_run_end(s, i + 1, if depth > 0 { depth - 1 } else { 0 })
    } else {
        type_run_end(s, i + 1, depth)
    }
}

pub proof fn lemma_type_run_end_bounds(s: Seq<LeafV>, i: int, depth: int)
    requires
        0 <= i <= s.len(),
    ensures
        i <= type_run_end(s, i, depth) <= s.len(),
    decreases s.len() - i,
{
    if i < s.len() {
        if depth <= 0 && (s[i] is Comma || s[i] is FatArrow) {
        } else if s[i] is Lt {
            lemma_type_run_end_bounds(s, i + 1, depth + 1);
        } else if s[i] is Gt {
            lemma_type_run_end_bounds(s, i + 1, if depth > 0 { depth - 1 } else { 0 });
        } else {
            lemma_type_run_end_bounds(s, i + 1, depth);
        }
    }
}

/// Reads one descriptor starting at position `i`.
pub open spec fn spec_parse_generic(s: Seq<LeafV>, i: int) -> DescOutcome {
    if !(0 <= i < s.len()) {
        DescOutcome::Fail { kind: ErrorKind::ExpectedIdent, pos: i }
    } else {
        match s[i] {
            LeafV::Ident { text } => if i + 1 < s.len() && s[i + 1] is Colon {
                if i + 2 < s.len() && s[i + 2] is Question {
                    DescOutcome::Fail { kind: ErrorKind::ColonQuestion, pos: i + 2 }
                } else {
                    let e = type_run_end(s, i + 2, 0);
                    if e == i + 2 {
                        DescOutcome::Fail { kind: ErrorKind::ExpectedType, pos: i + 2 }
                    } else {
                        DescOutcome::Found {
                            g: GenericV::Const {
                                ident: text,
                                ty: leaves_text(s.subrange(i + 2, e)),
                            },
                            next: e,
                        }
                    }
                }
            } else if i + 1 < s.len() && s[i + 1] is Question {
                DescOutcome::Found { g: GenericV::UnsizedType { ident: text }, next: i + 2 }
            } else {
                DescOutcome::Found { g: GenericV::Type { ident: text }, next: i + 1 }
            },
            LeafV::ConstKw => DescOutcome::Fail { kind: ErrorKind::ConstKeyword, pos: i },
            _ => DescOutcome::Fail { kind: ErrorKind::ExpectedIdent, pos: i },
        }
    }
}

/// Whether `seen` already holds `id`.
pub open spec fn seen_contains(seen: Seq<Seq<char>>, id: Seq<char>) -> bool {
    exists|k: int| 0 <= k < seen.len() && seen[k] == id
}

/// Reads a comma-separated descriptor list from position `i` to the end of
/// `s`, rejecting identifiers that repeat an element of `seen` or an earlier
/// declaration.
pub open spec fn spec_parse_generics(s: Seq<LeafV>, i: int, seen: Seq<Seq<char>>) -> ListOutcome
    decreases s.len() - i,
        via spec_parse_generics_decreases
{
    if i < 0 {
        ListOutcome::Fail { kind: ErrorKind::ExpectedIdent, pos: i }
    } else if i >= s.len() {
        ListOutcome::Found { gs: Seq::empty() }
    } else {
        match spec_parse_generic(s, i) {
            DescOutcome::Fail { kind, pos } => ListOutcome::Fail { kind, pos },
            DescOutcome::Found { g, next } => if seen_contains(seen, ident_of(g)) {
                ListOutcome::Fail { kind: ErrorKind::DuplicateIdent, pos: i }
            } else if next >= s.len() {
                ListOutcome::Found { gs: seq![g] }
            } else if s[next] is Comma {
                match spec_parse_generics(s, next + 1, seen.push(ident_of(g))) {
                    ListOutcome::Found { gs } => ListOutcome::Found { gs: seq![g] + gs },
                    f => f,
                }
            } else {
                ListOutcome::Fail { kind: ErrorKind::ExpectedComma, pos: next }
            },
        }
    }
}

#[via_fn]
proof fn spec_parse_generics_decreases(s: Seq<LeafV>, i: int, seen: Seq<Seq<char>>) {
    if 0 <= i && i + 2 <= s.len() {
        lemma_type_run_end_bounds(s, i + 2, 0);
    }
}

/// A validated assertion request: the declared descriptors in order, the
/// asserted expression's text, and the optional message's text.
pub struct StaticAssertInput {
    pub generics: Vec<Generic>,
    pub expression: String,
    pub message: Option<String>,
}

/// The mathematical model of a [`StaticAssertInput`].
pub struct StaticAssertInputV {
    pub generics: Seq<GenericV>,
    pub expression: Seq<char>,
    pub message: Option<Seq<char>>,
}

impl View for StaticAssertInput {
    type V = StaticAssertInputV;

    open spec fn view(&self) -> StaticAssertInputV {
        StaticAssertInputV {
            generics: generics_view(self.generics@),
            expression: self.expression@,
            message: match self.message {
                Some(m) => Some(m@),
                None => None,
            },
        }
    }
}

/// A validated destruction-guard request: exactly one descriptor and the
/// optional message's text.
pub struct ExplicitlyDropInput {
    pub generic: Generic,
    pub message: Option<String>,
}

/// The mathematical model of an [`ExplicitlyDropInput`].
pub struct ExplicitlyDropInputV {
    pub generic: GenericV,
    pub message: Option<Seq<char>>,
}

impl View for ExplicitlyDropInput {
    type V = ExplicitlyDropInputV;

    open spec fn view(&self) -> ExplicitlyDropInputV {
        ExplicitlyDropInputV {
            generic: self.generic@,
            message: match self.message {
                Some(m) => Some(m@),
                None => None,
            },
        }
    }
}

/// First position at or after `i` holding a `=>` token, or the end of `s`.
pub open spec fn find_fat_arrow(s: Seq<TokenV>, i: int) -> int
    decreases s.len() - i,
{
    if !(0 <= i < s.len()) {
        s.len() as int
    } else if s[i] matches TokenV::Leaf { l: LeafV::FatArrow } {
        i
    } else {
        find_fat_arrow(s, i + 1)
    }
}

/// Reads a whole assertion invocation: the parenthesized descriptor list, the
/// expression — every token up to the first top-level `=>` — and, after such a
/// `=>`, the message.
pub open spec fn spec_parse_assert(s: Seq<TokenV>) -> AssertOutcome {
    if s.len() == 0 {
        AssertOutcome::Fail { kind: ErrorKind::ExpectedParens, pos: 0 }
    } else {
        match s[0] {
            TokenV::Paren { leaves } => match spec_parse_generics(leaves, 0, Seq::empty()) {
                ListOutcome::Fail { kind, pos } => AssertOutcome::Fail { kind, pos },
                ListOutcome::Found { gs } => {
                    let fa = find_fat_arrow(s, 1);
                    if fa <= 1 {
                        AssertOutcome::Fail { kind: ErrorKind::ExpectedExpr, pos: 1 }
                    } else {
                        AssertOutcome::Found {
                            req: StaticAssertInputV {
                                generics: gs,
                                expression: tokens_text(s.subrange(1, fa)),
                                message: if fa < s.len() {
                                    Some(tokens_text(s.subrange(fa + 1, s.len() as int)))
                                } else {
                                    None
                                },
                            },
                        }
                    }
                },
            },
            _ => AssertOutcome::Fail { kind: ErrorKind::ExpectedParens, pos: 0 },
        }
    }
}

/// Reads a whole destruction-guard invocation: exactly one descriptor, then
/// either the end of the input or `=>` and the message.
pub open spec fn spec_parse_drop(s: Seq<LeafV>) -> DropOutcome {
    match spec_parse_generic(s, 0) {
        DescOutcome::Fail { kind, pos } => DropOutcome::Fail { kind, pos },
        DescOutcome::Found { g, next } => if next >= s.len() {
            DropOutcome::Found { req: ExplicitlyDropInputV { generic: g, message: None } }
        } else if s[next] is FatArrow {
            DropOutcome::Found {
                req: ExplicitlyDropInputV {
                    generic: g,
                    message: Some(leaves_text(s.subrange(next + 1, s.len() as int))),
                },
            }
        } else {
            DropOutcome::Fail { kind: ErrorKind::ExpectedEnd, pos: next }
        },
    }
}

impl Leaf {
    /// Whether this token is `:`.
    fn is_colon(&self) -> (b: bool)
        ensures
            b == (self@ is Colon),
    {
        matches!(self, Leaf::Colon)
    }

    /// Whether this token is `?`.
    fn is_question(&self) -> (b: bool)
        ensures
            b == (self@ is Question),
    {
        matches!(self, Leaf::Question)
    }

    /// Whether this token is `,`.
    fn is_comma(&self) -> (b: bool)
        ensures
            b == (self@ is Comma),
    {
        matches!(self, Leaf::Comma)
    }

    /// Whether this token is `=>`.
    fn is_fat_arrow(&self) -> (b: bool)
        ensures
            b == (self@ is FatArrow),
    {
        matches!(self, Leaf::FatArrow)
    }
}

impl Generic {
    /// Reads one descriptor from `leaves`, starting at `at`; on success also
    /// returns the position just past it.
    pub fn parse(leaves: &Vec<Leaf>, at: usize) -> (r: Result<(Generic, usize), ParseError>)
        requires
            at < leaves@.len(),
        ensures
            match r {
                Ok(p) => {
                    &&& spec_parse_generic(leaves_view(leaves@), at as int)
                        == (DescOutcome::Found { g: p.0@, next: p.1 as int })
                    &&& at < p.1 <= leaves@.len()
                },
                Err(e) => spec_parse_generic(leaves_view(leaves@), at as int)
                    == (DescOutcome::Fail { kind: e.kind, pos: e.pos as int }),
            },
    {
        let ghost s = leaves_view(leaves@);
        let n = leaves.len();
        proof {
            assert(s.len() == leaves@.len());
            assert(s[at as int] == leaves@[at as int]@);
        }
        match &leaves[at] {
            Leaf::Ident(id) => {
                if at + 1 < n && leaves[at + 1].is_colon() {
                    proof {
                        assert(s[at + 1] == leaves@[at + 1]@);
                    }
                    if at + 2 < leaves.len() && leaves[at + 2].is_question() {
                        proof {
                            assert(s[at + 2] == leaves@[at + 2]@);
                        }
                        Err(ParseError { kind: ErrorKind::ColonQuestion, pos: at + 2 })
                    } else {
                        proof {
                            if at + 2 < leaves@.len() {
                                assert(s[at + 2] == leaves@[at + 2]@);
                            }
                        }
                        let e = Self::type_run_end_exec(leaves, at + 2);
                        if e == at + 2 {
                            Err(ParseError { kind: ErrorKind::ExpectedType, pos: at + 2 })
                        } else {
                            let ty = render_leaves(leaves, at + 2, e);
                            Ok((Generic::Const { ident: id.clone(), ty }, e))
                        }
                    }
                } else if at + 1 < leaves.len() && leaves[at + 1].is_question() {
                    proof {
                        assert(s[at + 1] == leaves@[at + 1]@);
                    }
                    Ok((Generic::UnsizedType { ident: id.clone() }, at + 2))
                } else {
                    proof {
                        if at + 1 < leaves@.len() {
                            assert(s[at + 1] == leaves@[at + 1]@);
                        }
                    }
                    Ok((Generic::Type { ident: id.clone() }, at + 1))
                }
            },
            Leaf::ConstKw => Err(ParseError { kind: ErrorKind::ConstKeyword, pos: at }),
            _ => Err(ParseError { kind: ErrorKind::ExpectedIdent, pos: at }),
        }
    }

    /// Scans to the end of the type run that starts at `from`.
    fn type_run_end_exec(leaves: &Vec<Leaf>, from: usize) -> (e: usize)
        requires
            from <= leaves@.len(),
        ensures
            e as int == type_run_end(leaves_view(leaves@), from as int, 0),
            from <= e <= leaves@.len(),
    {
        let ghost s = leaves_view(leaves@);
        proof {
            assert(s.len() == leaves@.len());
        }
        let mut j: usize = from;
        let mut depth: usize = 0;
        let mut done: bool = false;
        while !done
            invariant
                from <= j <= leaves@.len(),
                depth <= j,
                s == leaves_view(leaves@),
                s.len() == leaves@.len(),
                type_run_end(s, from as int, 0) == if done {
                    j as int
                } else {
                    type_run_end(s, j as int, depth as int)
                },
            decreases leaves@.len() - j + (if done { 0int } else { 1int }),
        {
            if j >= leaves.len() {
                done = true;
            } else {
                proof {
                    assert(s[j as int] == leaves@[j as int]@);
                }
                match &leaves[j] {
                    Leaf::Comma if depth == 0 => {
                        done = true;
                    },
                    Leaf::FatArrow if depth == 0 => {
                        done = true;
                    },
                    Leaf::Lt => {
                        depth = depth + 1;
                        j = j + 1;
                    },
                    Leaf::Gt => {
                        if depth > 0 {
                            depth = depth - 1;
                        }
                        j = j + 1;
                    },
                    _ => {
                        j = j + 1;
                    },
                }
            }
        }
        j
    }
}

/// Reads the whole descriptor list held by `leaves`.
#[verifier::loop_isolation(false)]
fn parse_generic_list(leaves: &Vec<Leaf>) -> (r: Result<Vec<Generic>, ParseError>)
    ensures
        match r {
            Ok(gs) => spec_parse_generics(leaves_view(leaves@), 0, Seq::empty())
                == (ListOutcome::Found { gs: generics_view(gs@) }),
            Err(e) => spec_parse_generics(leaves_view(leaves@), 0, Seq::empty())
                == (ListOutcome::Fail { kind: e.kind, pos: e.pos as int }),
        },
{
    let ghost s = leaves_view(leaves@);
    let mut out: Vec<Generic> = Vec::new();
    let mut i: usize = 0;
    proof {
        assert(s.len() == leaves@.len());
        assert(generics_view(out@) + Seq::<GenericV>::empty() =~= generics_view(out@));
        assert(seen_of(generics_view(out@)) =~= Seq::<Seq<char>>::empty());
    }
    loop
        invariant
            i <= leaves@.len(),
            s == leaves_view(leaves@),
            s.len() == leaves@.len(),
            spec_parse_generics(s, 0, Seq::empty()) == (match spec_parse_generics(
                s,
                i as int,
                seen_of(generics_view(out@)),
            ) {
                ListOutcome::Found { gs } => ListOutcome::Found {
                    gs: generics_view(out@) + gs,
                },
                f => f,
            }),
        decreases leaves@.len() - i,
    {
        let ghost seen = seen_of(generics_view(out@));
        if i >= leaves.len() {
            proof {
                assert(generics_view(out@) + Seq::<GenericV>::empty() =~= generics_view(out@));
            }
            return Ok(out);
        }
        match Generic::parse(leaves, i) {
            Err(e) => {
                return Err(e);
            },
            Ok((g, next)) => {
                // Reject an identifier that repeats an earlier declaration.
                let mut k: usize = 0;
                while k < out.len()
                    invariant
                        k <= out@.len(),
                        seen == seen_of(generics_view(out@)),
                        forall|m: int| 0 <= m < k ==> seen[m] != ident_of(g@),
                    decreases out@.len() - k,
                {
                    proof {
                        assert(seen[k as int] == ident_of(generics_view(out@)[k as int]));
                        assert(generics_view(out@)[k as int] == out@[k as int]@);
                    }
                    if out[k].ident().eq(g.ident()) {
                        proof {
                            assert(seen_contains(seen, ident_of(g@))) by {
                                assert(seen[k as int] == ident_of(g@));
                            }
                            assert(spec_parse_generics(s, i as int, seen) == (ListOutcome::Fail {
                                kind: ErrorKind::DuplicateIdent,
                                pos: i as int,
                            }));
                        }
                        return Err(ParseError { kind: ErrorKind::DuplicateIdent, pos: i });
                    }
                    k = k + 1;
                }
                proof {
                    assert(!seen_contains(seen, ident_of(g@)));
                }
                if next >= leaves.len() {
                    let ghost pre = generics_view(out@);
                    out.push(g);
                    proof {
                        assert(generics_view(out@) =~= pre.push(g@));
                        assert(pre + seq![g@] =~= generics_view(out@));
                    }
                    return Ok(out);
                }
                proof {
                    assert(s[next as int] == leaves@[next as int]@);
                }
                if !leaves[next].is_comma() {
                    return Err(ParseError { kind: ErrorKind::ExpectedComma, pos: next });
                }
                let ghost pre = generics_view(out@);
                out.push(g);
                i = next + 1;
                proof {
                    assert(generics_view(out@) =~= pre.push(g@));
                    assert(seen_of(generics_view(out@)) =~= seen.push(ident_of(g@)));
                    let tail = spec_parse_generics(s, i as int, seen.push(ident_of(g@)));
                    if tail is Found {
                        assert(pre + (seq![g@] + tail->Found_gs) =~= generics_view(out@)
                            + tail->Found_gs);
                    }
                }
            },
        }
    }
}

/// The identifiers declared by a descriptor sequence, in order.
pub open spec fn seen_of(gs: Seq<GenericV>) -> Seq<Seq<char>> {
    gs.map_values(|g: GenericV| ident_of(g))
}

impl StaticAssertInput {
    /// Parses an assertion invocation
    /// `( descriptors ) expression [ => message ]`.
    pub fn parse(input: &Vec<Token>) -> (r: Result<StaticAssertInput, ParseError>)
        ensures
            match r {
                Ok(req) => spec_parse_assert(tokens_view(input@)) == (AssertOutcome::Found {
                    req: req@,
                }),
                Err(e) => spec_parse_assert(tokens_view(input@)) == (AssertOutcome::Fail {
                    kind: e.kind,
                    pos: e.pos as int,
                }),
            },
    {
        let ghost s = tokens_view(input@);
        proof {
            assert(s.len() == input@.len());
        }
        if input.len() == 0 {
            return Err(ParseError { kind: ErrorKind::ExpectedParens, pos: 0 });
        }
        proof {
            assert(s[0] == input@[0]@);
        }
        let leaves = match &input[0] {
            Token::Paren(leaves) => leaves,
            _ => {
                return Err(ParseError { kind: ErrorKind::ExpectedParens, pos: 0 });
            },
        };
        let generics = match parse_generic_list(leaves) {
            Ok(gs) => gs,
            Err(e) => {
                return Err(e);
            },
        };
        // Find the first top-level `=>`.
        let mut fa: usize = 1;
        let mut found: bool = false;
        let mut done: bool = false;
        while !done
            invariant
                1 <= fa <= input@.len(),
                s == tokens_view(input@),
                s.len() == input@.len(),
                !done ==> !found && find_fat_arrow(s, 1) == find_fat_arrow(s, fa as int),
                done ==> find_fat_arrow(s, 1) == fa as int && (found <==> fa < input@.len()),
            decreases input@.len() - fa + (if done { 0int } else { 1int }),
        {
            if fa >= input.len() {
                done = true;
            } else {
                proof {
                    assert(s[fa as int] == input@[fa as int]@);
                }
                let is_arrow = match &input[fa] {
                    Token::Leaf(l) => l.is_fat_arrow(),
                    _ => false,
                };
                if is_arrow {
                    found = true;
                    done = true;
                } else {
                    fa = fa + 1;
                }
            }
        }
        if fa <= 1 {
            return Err(ParseError { kind: ErrorKind::ExpectedExpr, pos: 1 });
        }
        let expression = render_tokens(input, 1, fa);
        let message = if found {
            Some(render_tokens(input, fa + 1, input.len()))
        } else {
            None
        };
        Ok(StaticAssertInput { generics, expression, message })
    }
}

impl ExplicitlyDropInput {
    /// Parses a destruction-guard invocation `descriptor [ => message ]`.
    pub fn parse(input: &Vec<Leaf>) -> (r: Result<ExplicitlyDropInput, ParseError>)
        ensures
            match r {
                Ok(req) => spec_parse_drop(leaves_view(input@)) == (DropOutcome::Found {
                    req: req@,
                }),
                Err(e) => spec_parse_drop(leaves_view(input@)) == (DropOutcome::Fail {
                    kind: e.kind,
                    pos: e.pos as int,
                }),
            },
    {
        let ghost s = leaves_view(input@);
        proof {
            assert(s.len() == input@.len());
        }
        if input.len() == 0 {
            return Err(ParseError { kind: ErrorKind::ExpectedIdent, pos: 0 });
        }
        let (generic, next) = match Generic::parse(input, 0) {
            Ok(p) => p,
            Err(e) => {
                return Err(e);
            },
        };
        if next >= input.len() {
            return Ok(ExplicitlyDropInput { generic, message: None });
        }
        proof {
            assert(s[next as int] == input@[next as int]@);
        }
        if input[next].is_fat_arrow() {
            let message = render_leaves(input, next + 1, input.len());
            Ok(ExplicitlyDropInput { generic, message: Some(message) })
        } else {
            Err(ParseError { kind: ErrorKind::ExpectedEnd, pos: next })
        }
    }
}


} // verus!
