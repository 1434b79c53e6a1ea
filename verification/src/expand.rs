//! Expansion of validated requests into source text.
//!
//! Both expanders synthesize the same carrier-type pattern: an anonymous type
//! `Assert`, generic over exactly the declared parameters, holding one marker
//! field per type-like parameter so that every such parameter counts as used,
//! with a single associated constant of unit type whose evaluation is the
//! check. The host evaluates such a constant lazily, once per distinct generic
//! instantiation, and aborts compilation of an instantiation whose evaluation
//! panics — so forcing a read of the constant turns the expression into a
//! per-instantiation compile-time gate.
//!
//! The assertion expander guards the failure on the expression and emits the
//! forced read as a free-standing discarded value at the call site. The
//! destruction-guard expander emits a whole destructor body whose constant
//! fails unconditionally: reaching it at all, for any instantiation, is the
//! failure condition.

use vstd::prelude::*;

use crate::descriptor::GenericV;
use crate::descriptor::definition_text;
use crate::descriptor::generics_view;
use crate::descriptor::placement_text;
use crate::descriptor::placement_type_text;
use crate::parse::ExplicitlyDropInput;
use crate::parse::ExplicitlyDropInputV;
use crate::parse::StaticAssertInput;
use crate::parse::StaticAssertInputV;

verus! {

/// The declaration fragments of a descriptor sequence, concatenated in order.
pub open spec fn definitions_text(gs: Seq<GenericV>) -> Seq<char>
    decreases gs.len(),
{
    if gs.len() == 0 {
        Seq::empty()
    } else {
        definitions_text(gs.drop_last()) + definition_text(gs.last())
    }
}

/// The placement fragments of a descriptor sequence, concatenated in order.
pub open spec fn placements_text(gs: Seq<GenericV>) -> Seq<char>
    decreases gs.len(),
{
    if gs.len() == 0 {
        Seq::empty()
    } else {
        placements_text(gs.drop_last()) + placement_text(gs.last())
    }
}

/// The marker field of one type-like descriptor.
pub open spec fn marker_text(g: GenericV) -> Seq<char> {
    "core :: marker :: PhantomData < "@ + placement_text(g) + "> , "@
}

/// The marker fields of a descriptor sequence: one per type-like descriptor,
/// in declaration order; constants contribute nothing.
pub open spec fn markers_text(gs: Seq<GenericV>) -> Seq<char>
    decreases gs.len(),
{
    if gs.len() == 0 {
        Seq::empty()
    } else {
        markers_text(gs.drop_last()) + (match placement_type_text(gs.last()) {
            Some(_) => marker_text(gs.last()),
            None => Seq::empty(),
        })
    }
}

/// The failure payload: the supplied message, or the default literal when none
/// was supplied.
pub open spec fn message_text(m: Option<Seq<char>>) -> Seq<char> {
    match m {
        Some(t) => t,
        None => "\"Static assert failed.\" "@,
    }
}

/// The checking constant's initializer: evaluate the expression; when it is
/// false, invoke the failure primitive with the message; otherwise produce
/// the unit value.
pub open spec fn check_text(expression: Seq<char>, message: Option<Seq<char>>) -> Seq<char> {
    "if ! ( "@ + expression + ") { panic ! ( "@ + message_text(message) + ") } "@
}

/// The full expansion of an assertion request.
pub open spec fn static_assert_text(req: StaticAssertInputV) -> Seq<char> {
    "_ = { struct Assert < "@ + definitions_text(req.generics) + "> ( "@ + markers_text(
        req.generics,
    ) + ") ; impl < "@ + definitions_text(req.generics) + "> Assert < "@ + placements_text(
        req.generics,
    ) + "> { # [ allow ( unused ) ] const CHECK : ( ) = "@ + check_text(
        req.expression,
        req.message,
    ) + "; } Assert :: < "@ + placements_text(req.generics) + "> :: CHECK } "@
}

/// The marker field tuple of a destruction guard's one descriptor: present
/// for a type-like parameter, absent for a constant.
pub open spec fn drop_marker_text(g: GenericV) -> Seq<char> {
    match placement_type_text(g) {
        Some(_) => "( core :: marker :: PhantomData < "@ + placement_text(g) + "> ) "@,
        None => Seq::empty(),
    }
}

/// The full expansion of a destruction-guard request.
pub open spec fn explicitly_drop_text(req: ExplicitlyDropInputV) -> Seq<char> {
    "fn drop ( & mut self ) { _ = { struct Assert < "@ + definition_text(req.generic) + "> "@
        + drop_marker_text(req.generic) + "; impl < "@ + definition_text(req.generic)
        + "> Assert < "@ + placement_text(req.generic)
        + "> { const MANUAL_DROP : ( ) = panic ! ( "@ + message_text(req.message)
        + ") ; } Assert :: < "@ + placement_text(req.generic) + "> :: MANUAL_DROP } ; } "@
}

impl StaticAssertInput {
    /// Renders the declaration, placement and marker fragments of the declared
    /// descriptors, each concatenated in declaration order.
    fn render_generics(&self) -> (r: (String, String, String))
        ensures
            r.0@ == definitions_text(self@.generics),
            r.1@ == placements_text(self@.generics),
            r.2@ == markers_text(self@.generics),
    {
        let ghost gv = generics_view(self.generics@);
        let mut defs = String::new();
        let mut places = String::new();
        let mut markers = String::new();
        proof {
            assert(gv.subrange(0, 0) =~= Seq::<GenericV>::empty());
            assert(defs@ =~= definitions_text(gv.subrange(0, 0)));
            assert(places@ =~= placements_text(gv.subrange(0, 0)));
            assert(markers@ =~= markers_text(gv.subrange(0, 0)));
        }
        let mut k: usize = 0;
        while k < self.generics.len()
            invariant
                k <= self.generics@.len(),
                gv == generics_view(self.generics@),
                gv.len() == self.generics@.len(),
                defs@ == definitions_text(gv.subrange(0, k as int)),
                places@ == placements_text(gv.subrange(0, k as int)),
                markers@ == markers_text(gv.subrange(0, k as int)),
            decreases self.generics@.len() - k,
        {
            proof {
                assert(gv[k as int] == self.generics@[k as int]@);
            }
            let g = &self.generics[k];
            let d = g.definition();
            defs.append(d.as_str());
            let p = g.placement();
            places.append(p.as_str());
            match g.placement_type() {
                Some(pt) => {
                    markers.append("core :: marker :: PhantomData < ");
                    markers.append(pt.as_str());
                    markers.append("> , ");
                    proof {
                        assert(markers@ =~= markers_text(gv.subrange(0, k as int)) + marker_text(
                            gv[k as int],
                        ));
                    }
                },
                None => {},
            }
            proof {
                let pre = gv.subrange(0, k as int);
                let post = gv.subrange(0, k + 1);
                assert(post.drop_last() =~= pre);
                assert(post.last() == gv[k as int]);
                if placement_type_text(gv[k as int]) is None {
                    assert(markers_text(pre) + Seq::<char>::empty() =~= markers_text(pre));
                }
            }
            k = k + 1;
        }
        proof {
            assert(gv.subrange(0, gv.len() as int) =~= gv);
        }
        (defs, places, markers)
    }

    /// Expands a validated assertion request to the text of its carrier type,
    /// checking constant, and forced read.
    pub fn expand(&self) -> (r: String)
        ensures
            r@ == static_assert_text(self@),
    {
        let (defs, places, markers) = self.render_generics();
        let mut check = "if ! ( ".to_owned();
        check.append(self.expression.as_str());
        check.append(") { panic ! ( ");
        match &self.message {
            Some(m) => check.append(m.as_str()),
            None => check.append("\"Static assert failed.\" "),
        }
        check.append(") } ");
        let mut out = "_ = { struct Assert < ".to_owned();
        out.append(defs.as_str());
        out.append("> ( ");
        out.append(markers.as_str());
        out.append(") ; impl < ");
        out.append(defs.as_str());
        out.append("> Assert < ");
        out.append(places.as_str());
        out.append("> { # [ allow ( unused ) ] const CHECK : ( ) = ");
        out.append(check.as_str());
        out.append("; } Assert :: < ");
        out.append(places.as_str());
        out.append("> :: CHECK } ");
        out
    }
}

impl ExplicitlyDropInput {
    /// Expands a validated destruction-guard request to the text of a
    /// destructor body whose instantiation fails compilation.
    ///
    /// The guard is best-effort by design: the failure is observed only if
    /// the host does not eliminate the destructor body as dead code for every
    /// path reaching it, an accepted unsoundness window.
    pub fn expand(&self) -> (r: String)
        ensures
            r@ == explicitly_drop_text(self@),
    {
        let def = self.generic.definition();
        let place = self.generic.placement();
        let mut out = "fn drop ( & mut self ) { _ = { struct Assert < ".to_owned();
        out.append(def.as_str());
        out.append("> ");
        match self.generic.placement_type() {
            Some(pt) => {
                out.append("( core :: marker :: PhantomData < ");
                out.append(pt.as_str());
                out.append("> ) ");
                proof {
                    assert("( core :: marker :: PhantomData < "@ + pt@ + "> ) "@
                        =~= drop_marker_text(self.generic@));
                }
            },
            None => {},
        }
        out.append("; impl < ");
        out.append(def.as_str());
        out.append("> Assert < ");
        out.append(place.as_str());
        out.append("> { const MANUAL_DROP : ( ) = panic ! ( ");
        match &self.message {
            Some(m) => out.append(m.as_str()),
            None => out.append("\"Static assert failed.\" "),
        }
        out.append(") ; } Assert :: < ");
        out.append(place.as_str());
        out.append("> :: MANUAL_DROP } ; } ");
        proof {
            assert(out@ =~= explicitly_drop_text(self@));
        }
        out
    }
}

} // verus!
