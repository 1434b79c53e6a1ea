//! Laws that hold of parsing and expansion.
//!
//! The contracts of the parsers and expanders pin their results down exactly;
//! the proofs here state the properties those results were designed for: the
//! synthesized carrier declares and references every declared parameter, the
//! failure payload is always embedded in the expansion, a successfully parsed
//! descriptor list never declares an identifier twice, and the destruction
//! guard accepts exactly one descriptor.

use vstd::prelude::*;

use crate::descriptor::GenericV;
use crate::descriptor::definition_text;
use crate::descriptor::ident_of;
use crate::descriptor::is_type_like;
use crate::descriptor::placement_text;
use crate::expand::check_text;
use crate::expand::definitions_text;
use crate::expand::marker_text;
use crate::expand::markers_text;
use crate::expand::message_text;
use crate::expand::static_assert_text;
use crate::parse::DescOutcome;
use crate::parse::DropOutcome;
use crate::parse::ErrorKind;
use crate::parse::lemma_type_run_end_bounds;
use crate::parse::seen_contains;
use crate::parse::spec_parse_drop;
use crate::parse::spec_parse_generic;
use crate::parse::spec_parse_generics;
use crate::token::LeafV;

verus! {

/// Whether `n` occurs contiguously inside `h`.
pub open spec fn contains_seq(h: Seq<char>, n: Seq<char>) -> bool {
    exists|i: int|
        0 <= i && i + n.len() <= h.len() && #[trigger] h.subrange(i, i + n.len()) == n
}

/// A sequence occurs inside itself.
proof fn lemma_contains_whole(n: Seq<char>)
    ensures
        contains_seq(n, n),
{
    assert(n.subrange(0, 0 + n.len() as int) =~= n);
}

/// An occurrence survives extending the haystack on the right.
proof fn lemma_contains_left(a: Seq<char>, b: Seq<char>, n: Seq<char>)
    requires
        contains_seq(a, n),
    ensures
        contains_seq(a + b, n),
{
    let i = choose|i: int|
        0 <= i && i + n.len() <= a.len() && #[trigger] a.subrange(i, i + n.len()) == n;
    assert((a + b).subrange(i, i + n.len() as int) =~= a.subrange(i, i + n.len() as int));
}

/// An occurrence survives extending the haystack on the left.
proof fn lemma_contains_right(a: Seq<char>, b: Seq<char>, n: Seq<char>)
    requires
        contains_seq(b, n),
    ensures
        contains_seq(a + b, n),
{
    let i = choose|i: int|
        0 <= i && i + n.len() <= b.len() && #[trigger] b.subrange(i, i + n.len()) == n;
    assert((a + b).subrange(a.len() + i, a.len() + i + n.len() as int) =~= b.subrange(
        i,
        i + n.len() as int,
    ));
}

/// Occurrence is transitive.
proof fn lemma_contains_trans(h: Seq<char>, m: Seq<char>, n: Seq<char>)
    requires
        contains_seq(h, m),
        contains_seq(m, n),
    ensures
        contains_seq(h, n),
{
    let i = choose|i: int|
        0 <= i && i + m.len() <= h.len() && #[trigger] h.subrange(i, i + m.len()) == m;
    let j = choose|j: int|
        0 <= j && j + n.len() <= m.len() && #[trigger] m.subrange(j, j + n.len()) == n;
    assert(h.subrange(i + j, i + j + n.len() as int) =~= m.subrange(j, j + n.len() as int));
}

/// The declaration fragment of each declared descriptor occurs in the
/// concatenated declaration list.
proof fn lemma_definitions_contain(gs: Seq<GenericV>, k: int)
    requires
        0 <= k < gs.len(),
    ensures
        contains_seq(definitions_text(gs), definition_text(gs[k])),
    decreases gs.len(),
{
    if k == gs.len() - 1 {
        lemma_contains_whole(definition_text(gs[k]));
        lemma_contains_right(
            definitions_text(gs.drop_last()),
            definition_text(gs[k]),
            definition_text(gs[k]),
        );
    } else {
        lemma_definitions_contain(gs.drop_last(), k);
        lemma_contains_left(
            definitions_text(gs.drop_last()),
            definition_text(gs.last()),
            definition_text(gs[k]),
        );
    }
}

/// The marker field of each type-like descriptor occurs in the concatenated
/// marker fields.
proof fn lemma_markers_contain(gs: Seq<GenericV>, k: int)
    requires
        0 <= k < gs.len(),
        is_type_like(gs[k]),
    ensures
        contains_seq(markers_text(gs), marker_text(gs[k])),
    decreases gs.len(),
{
    if k == gs.len() - 1 {
        lemma_contains_whole(marker_text(gs[k]));
        lemma_contains_right(
            markers_text(gs.drop_last()),
            marker_text(gs[k]),
            marker_text(gs[k]),
        );
    } else {
        lemma_markers_contain(gs.drop_last(), k);
        if is_type_like(gs.last()) {
            lemma_contains_left(
                markers_text(gs.drop_last()),
                marker_text(gs.last()),
                marker_text(gs[k]),
            );
        } else {
            assert(markers_text(gs.drop_last()) + Seq::<char>::empty() =~= markers_text(
                gs.drop_last(),
            ));
        }
    }
}

/// A marker field names the parameter it captures.
proof fn lemma_marker_contains_ident(g: GenericV)
    ensures
        contains_seq(marker_text(g), ident_of(g)),
{
    let id = ident_of(g);
    lemma_contains_whole(id);
    lemma_contains_left(id, " , "@, id);
    lemma_contains_right("core :: marker :: PhantomData < "@, id + " , "@, id);
    lemma_contains_left("core :: marker :: PhantomData < "@ + placement_text(g), "> , "@, id);
}

/// Law: the synthesized carrier type is generic over exactly the declared
/// parameters — the declaration fragment of every declared descriptor, in
/// particular a typed `const` declaration, occurs in the expansion. The host
/// therefore proves the checking constant once per distinct substitution of
/// those parameters, independently per instantiation.
pub proof fn lemma_expansion_declares_generics(req: crate::parse::StaticAssertInputV, k: int)
    requires
        0 <= k < req.generics.len(),
    ensures
        contains_seq(static_assert_text(req), definition_text(req.generics[k])),
{
    let n = definition_text(req.generics[k]);
    lemma_definitions_contain(req.generics, k);
    let t1 = "_ = { struct Assert < "@;
    lemma_contains_right(t1, definitions_text(req.generics), n);
    grow_contains_chain(t1 + definitions_text(req.generics), req, n);
}

/// Extends an occurrence in the opening of the expansion — the literal header
/// plus the declaration list — to the whole expansion.
proof fn grow_contains_chain(t2: Seq<char>, req: crate::parse::StaticAssertInputV, n: Seq<char>)
    requires
        contains_seq(t2, n),
        t2 == "_ = { struct Assert < "@ + definitions_text(req.generics),
    ensures
        contains_seq(static_assert_text(req), n),
{
    let gs = req.generics;
    lemma_contains_left(t2, "> ( "@, n);
    let t3 = t2 + "> ( "@;
    lemma_contains_left(t3, markers_text(gs), n);
    let t4 = t3 + markers_text(gs);
    grow_contains_tail(t4, req, n);
}

/// Extends an occurrence in the expansion's opening through its remaining
/// segments.
proof fn grow_contains_tail(t4: Seq<char>, req: crate::parse::StaticAssertInputV, n: Seq<char>)
    requires
        contains_seq(t4, n),
        t4 == "_ = { struct Assert < "@ + definitions_text(req.generics) + "> ( "@
            + markers_text(req.generics),
    ensures
        contains_seq(static_assert_text(req), n),
{
    let gs = req.generics;
    lemma_contains_left(t4, ") ; impl < "@, n);
    let t5 = t4 + ") ; impl < "@;
    lemma_contains_left(t5, definitions_text(gs), n);
    let t6 = t5 + definitions_text(gs);
    lemma_contains_left(t6, "> Assert < "@, n);
    let t7 = t6 + "> Assert < "@;
    lemma_contains_left(t7, placements_text_of(req), n);
    let t8 = t7 + placements_text_of(req);
    lemma_contains_left(t8, "> { # [ allow ( unused ) ] const CHECK : ( ) = "@, n);
    let t9 = t8 + "> { # [ allow ( unused ) ] const CHECK : ( ) = "@;
    lemma_contains_left(t9, check_text(req.expression, req.message), n);
    let t10 = t9 + check_text(req.expression, req.message);
    lemma_contains_left(t10, "; } Assert :: < "@, n);
    let t11 = t10 + "; } Assert :: < "@;
    lemma_contains_left(t11, placements_text_of(req), n);
    let t12 = t11 + placements_text_of(req);
    lemma_contains_left(t12, "> :: CHECK } "@, n);
    assert(t12 + "> :: CHECK } "@ == static_assert_text(req));
}

/// Shorthand for the placement list of a request's descriptors.
spec fn placements_text_of(req: crate::parse::StaticAssertInputV) -> Seq<char> {
    crate::expand::placements_text(req.generics)
}

/// Law: the synthesized carrier references every declared type-like parameter
/// at least once, through a marker field naming it — so a request whose
/// expression mentions none of its type parameters still leaves no parameter
/// unused.
pub proof fn lemma_expansion_references_type_params(req: crate::parse::StaticAssertInputV, k: int)
    requires
        0 <= k < req.generics.len(),
        is_type_like(req.generics[k]),
    ensures
        contains_seq(static_assert_text(req), marker_text(req.generics[k])),
        contains_seq(static_assert_text(req), ident_of(req.generics[k])),
{
    let gs = req.generics;
    let m = marker_text(gs[k]);
    lemma_markers_contain(gs, k);
    let t1 = "_ = { struct Assert < "@;
    let t2 = t1 + definitions_text(gs);
    let t3 = t2 + "> ( "@;
    lemma_contains_right(t3, markers_text(gs), m);
    grow_contains_tail(t3 + markers_text(gs), req, m);
    lemma_marker_contains_ident(gs[k]);
    lemma_contains_trans(static_assert_text(req), m, ident_of(gs[k]));
}

/// Law: the expansion embeds the whole checking initializer verbatim —
/// evaluate the expression, and on false invoke the failure primitive with
/// the message. A true expression therefore produces only the unit value,
/// and a false one aborts the instantiation with the carried payload.
pub proof fn lemma_expansion_guards_on_expression(req: crate::parse::StaticAssertInputV)
    ensures
        contains_seq(static_assert_text(req), check_text(req.expression, req.message)),
{
    let gs = req.generics;
    let c = check_text(req.expression, req.message);
    let t1 = "_ = { struct Assert < "@;
    let t2 = t1 + definitions_text(gs);
    let t3 = t2 + "> ( "@;
    let t4 = t3 + markers_text(gs);
    let t5 = t4 + ") ; impl < "@;
    let t6 = t5 + definitions_text(gs);
    let t7 = t6 + "> Assert < "@;
    let t8 = t7 + placements_text_of(req);
    let t9 = t8 + "> { # [ allow ( unused ) ] const CHECK : ( ) = "@;
    lemma_contains_whole(c);
    lemma_contains_right(t9, c, c);
    let t10 = t9 + c;
    lemma_contains_left(t10, "; } Assert :: < "@, c);
    let t11 = t10 + "; } Assert :: < "@;
    lemma_contains_left(t11, placements_text_of(req), c);
    let t12 = t11 + placements_text_of(req);
    lemma_contains_left(t12, "> :: CHECK } "@, c);
    assert(t12 + "> :: CHECK } "@ == static_assert_text(req));
}

/// Law: the expansion carries the failure payload — the supplied message, or
/// the default literal when none was supplied — as the argument of the panic
/// that aborts a failing instantiation.
pub proof fn lemma_expansion_carries_message(req: crate::parse::StaticAssertInputV)
    ensures
        contains_seq(static_assert_text(req), message_text(req.message)),
{
    let g = message_text(req.message);
    lemma_expansion_guards_on_expression(req);
    lemma_contains_whole(g);
    lemma_contains_left(g, ") } "@, g);
    let head = "if ! ( "@ + req.expression + ") { panic ! ( "@;
    lemma_contains_right(head, g + ") } "@, g);
    assert(head + (g + ") } "@) =~= check_text(req.expression, req.message));
    lemma_contains_trans(
        static_assert_text(req),
        check_text(req.expression, req.message),
        g,
    );
}

/// Law: an unsized-qualified descriptor is declared in the expansion with the
/// relaxed sizedness bound, so the carrier accepts a type with no statically
/// known size for that parameter.
pub proof fn lemma_unsized_declaration_relaxes_bound(req: crate::parse::StaticAssertInputV, k: int)
    requires
        0 <= k < req.generics.len(),
        req.generics[k] is UnsizedType,
    ensures
        contains_seq(static_assert_text(req), ident_of(req.generics[k]) + " : ? Sized , "@),
{
    lemma_expansion_declares_generics(req, k);
}

/// Adding an identifier to `seen` keeps everything it already held.
proof fn lemma_seen_push(seen: Seq<Seq<char>>, x: Seq<char>, y: Seq<char>)
    requires
        seen_contains(seen, y),
    ensures
        seen_contains(seen.push(x), y),
{
    let k = choose|k: int| 0 <= k < seen.len() && seen[k] == y;
    assert(seen.push(x)[k] == y);
}

/// The pushed identifier is in the extended `seen`.
proof fn lemma_seen_push_self(seen: Seq<Seq<char>>, x: Seq<char>)
    ensures
        seen_contains(seen.push(x), x),
{
    assert(seen.push(x)[seen.len() as int] == x);
}

/// Law: a descriptor list that parses successfully declares pairwise distinct
/// identifiers, none of which repeats an element of `seen`.
pub proof fn lemma_parsed_list_distinct(s: Seq<LeafV>, i: int, seen: Seq<Seq<char>>)
    requires
        spec_parse_generics(s, i, seen) is Found,
    ensures
        ({
            let gs = spec_parse_generics(s, i, seen)->Found_gs;
            &&& forall|a: int, b: int|
                0 <= a < b < gs.len() ==> ident_of(gs[a]) != ident_of(gs[b])
            &&& forall|a: int| 0 <= a < gs.len() ==> !seen_contains(seen, ident_of(#[trigger] gs[a]))
        }),
    decreases s.len() - i,
{
    let gs = spec_parse_generics(s, i, seen)->Found_gs;
    if 0 <= i < s.len() {
        match spec_parse_generic(s, i) {
            DescOutcome::Found { g, next } => {
                if !seen_contains(seen, ident_of(g)) && next < s.len() && s[next] is Comma {
                    let seen2 = seen.push(ident_of(g));
                    if i + 2 <= s.len() {
                        lemma_type_run_end_bounds(s, i + 2, 0);
                    }
                    lemma_parsed_list_distinct(s, next + 1, seen2);
                    let tail = spec_parse_generics(s, next + 1, seen2)->Found_gs;
                    assert(gs == seq![g] + tail);
                    assert forall|a: int| 0 <= a < gs.len() implies !seen_contains(
                        seen,
                        ident_of(#[trigger] gs[a]),
                    ) by {
                        if a > 0 {
                            assert(gs[a] == tail[a - 1]);
                            if seen_contains(seen, ident_of(gs[a])) {
                                lemma_seen_push(seen, ident_of(g), ident_of(gs[a]));
                            }
                        }
                    }
                    assert forall|a: int, b: int| 0 <= a < b < gs.len() implies ident_of(gs[a])
                        != ident_of(gs[b]) by {
                        if a == 0 {
                            assert(gs[b] == tail[b - 1]);
                            if ident_of(gs[b]) == ident_of(g) {
                                lemma_seen_push_self(seen, ident_of(g));
                            }
                        } else {
                            assert(gs[a] == tail[a - 1]);
                            assert(gs[b] == tail[b - 1]);
                        }
                    }
                }
            },
            DescOutcome::Fail { .. } => {},
        }
    }
}

/// Law: the destruction guard takes exactly one descriptor. An empty
/// invocation is rejected, and an invocation is accepted exactly when a single
/// descriptor is followed by nothing or by the message marker — anything else
/// after it, in particular a comma introducing a second descriptor, is
/// rejected before any expansion.
pub proof fn lemma_guard_takes_exactly_one(s: Seq<LeafV>)
    ensures
        s.len() == 0 ==> spec_parse_drop(s) is Fail,
        spec_parse_drop(s) is Found <==> (spec_parse_generic(s, 0) matches DescOutcome::Found {
            g,
            next,
        } && (next >= s.len() || s[next] is FatArrow)),
{
}

/// Law: a comma after the destruction guard's one descriptor — the start of a
/// second descriptor — is rejected with the arity diagnostic.
pub proof fn lemma_guard_rejects_second_descriptor(s: Seq<LeafV>, n: int)
    requires
        spec_parse_generic(s, 0) matches DescOutcome::Found { g, next } && next == n,
        0 <= n < s.len(),
        s[n] is Comma,
    ensures
        spec_parse_drop(s) == (DropOutcome::Fail { kind: ErrorKind::ExpectedEnd, pos: n }),
{
}

} // verus!
