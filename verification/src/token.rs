//! The token model over which assertion requests are parsed and rendered.
//!
//! A macro invocation is handed to the library as a sequence of plain tokens.
//! Identifiers carry their name; the punctuation the grammar inspects (`:`,
//! `?`, `,`, `=>`, `<`, `>`) and the keyword `const` have variants of their
//! own; every other token — a literal, an operator run, a keyword, a nested
//! delimited group — is carried opaquely by its source text. Only a
//! parenthesized group at the top of an assertion invocation is kept
//! structurally, because the grammar must look inside it for the declared
//! generics; all other groups are opaque.

use vstd::prelude::*;

verus! {

/// One lexical token, with nested groups collapsed to their source text.
pub enum Leaf {
    /// An identifier, by its name.
    Ident(String),
    /// The keyword `const`.
    ConstKw,
    /// `:`
    Colon,
    /// `?`
    Question,
    /// `,`
    Comma,
    /// `=>`
    FatArrow,
    /// A lone `<`.
    Lt,
    /// A lone `>`.
    Gt,
    /// Any other token, by its source text.
    Other(String),
}

/// The mathematical model of a [`Leaf`].
pub enum LeafV {
    Ident { text: Seq<char> },
    ConstKw,
    Colon,
    Question,
    Comma,
    FatArrow,
    Lt,
    Gt,
    Other { text: Seq<char> },
}

impl View for Leaf {
    type V = LeafV;

    open spec fn view(&self) -> LeafV {
        match self {
            Leaf::Ident(s) => LeafV::Ident { text: s@ },
            Leaf::ConstKw => LeafV::ConstKw,
            Leaf::Colon => LeafV::Colon,
            Leaf::Question => LeafV::Question,
            Leaf::Comma => LeafV::Comma,
            Leaf::FatArrow => LeafV::FatArrow,
            Leaf::Lt => LeafV::Lt,
            Leaf::Gt => LeafV::Gt,
            Leaf::Other(s) => LeafV::Other { text: s@ },
        }
    }
}

/// A token at the top level of an assertion invocation: either a single leaf
/// or a parenthesized group, which the grammar must see into.
pub enum Token {
    Leaf(Leaf),
    Paren(Vec<Leaf>),
}

/// The mathematical model of a [`Token`].
pub enum TokenV {
    Leaf { l: LeafV },
    Paren { leaves: Seq<LeafV> },
}

impl View for Token {
    type V = TokenV;

    open spec fn view(&self) -> TokenV {
        match self {
            Token::Leaf(l) => TokenV::Leaf { l: l@ },
            Token::Paren(v) => TokenV::Paren { leaves: leaves_view(v@) },
        }
    }
}

/// The models of a sequence of leaves.
pub open spec fn leaves_view(s: Seq<Leaf>) -> Seq<LeafV> {
    s.map_values(|l: Leaf| l@)
}

/// The models of a sequence of tokens.
pub open spec fn tokens_view(s: Seq<Token>) -> Seq<TokenV> {
    s.map_values(|t: Token| t@)
}

/// The source text of one leaf token, without surrounding spaces.
pub open spec fn leaf_text(l: LeafV) -> Seq<char> {
    match l {
        LeafV::Ident { text } => text,
        LeafV::ConstKw => "const"@,
        LeafV::Colon => ":"@,
        LeafV::Question => "?"@,
        LeafV::Comma => ","@,
        LeafV::FatArrow => "=>"@,
        LeafV::Lt => "<"@,
        LeafV::Gt => ">"@,
        LeafV::Other { text } => text,
    }
}

/// The source text of a run of leaves: each token's text followed by one space.
pub open spec fn leaves_text(s: Seq<LeafV>) -> Seq<char>
    decreases s.len(),
{
    if s.len() == 0 {
        Seq::empty()
    } else {
        leaves_text(s.drop_last()) + leaf_text(s.last()) + " "@
    }
}

/// The source text of one token, followed by one space.
pub open spec fn token_text(t: TokenV) -> Seq<char> {
    match t {
        TokenV::Leaf { l } => leaf_text(l) + " "@,
        TokenV::Paren { leaves } => "( "@ + leaves_text(leaves) + ") "@,
    }
}

/// The source text of a run of tokens.
pub open spec fn tokens_text(s: Seq<TokenV>) -> Seq<char>
    decreases s.len(),
{
    if s.len() == 0 {
        Seq::empty()
    } else {
        tokens_text(s.drop_last()) + token_text(s.last())
    }
}

/// Renders one leaf token to its source text.
pub fn render_leaf(l: &Leaf) -> (r: String)
    ensures
        r@ == leaf_text(l@),
{
    match l {
        Leaf::Ident(s) => s.clone(),
        Leaf::ConstKw => "const".to_owned(),
        Leaf::Colon => ":".to_owned(),
        Leaf::Question => "?".to_owned(),
        Leaf::Comma => ",".to_owned(),
        Leaf::FatArrow => "=>".to_owned(),
        Leaf::Lt => "<".to_owned(),
        Leaf::Gt => ">".to_owned(),
        Leaf::Other(s) => s.clone(),
    }
}

/// Renders the leaves of `v` with indices in `from .. to`, each followed by
/// one space.
pub fn render_leaves(v: &Vec<Leaf>, from: usize, to: usize) -> (r: String)
    requires
        from <= to <= v@.len(),
    ensures
        r@ == leaves_text(leaves_view(v@).subrange(from as int, to as int)),
{
    let ghost s = leaves_view(v@);
    let mut r = String::new();
    proof {
        assert(r@ =~= leaves_text(s.subrange(from as int, from as int)));
    }
    let mut i: usize = from;
    while i < to
        invariant
            from <= i <= to <= v@.len(),
            s == leaves_view(v@),
            s.len() == v@.len(),
            r@ == leaves_text(s.subrange(from as int, i as int)),
        decreases to - i,
    {
        let t = render_leaf(&v[i]);
        r.append(t.as_str());
        r.append(" ");
        proof {
            let pre = s.subrange(from as int, i as int);
            let post = s.subrange(from as int, i + 1);
            assert(post.drop_last() =~= pre);
            assert(post.last() == s[i as int]);
            assert(s[i as int] == v@[i as int]@);
        }
        i = i + 1;
    }
    r
}

/// Renders one token to its source text, followed by one space.
pub fn render_token(t: &Token) -> (r: String)
    ensures
        r@ == token_text(t@),
{
    match t {
        Token::Leaf(l) => {
            let mut r = render_leaf(l);
            r.append(" ");
            r
        },
        Token::Paren(v) => {
            let mut r = "( ".to_owned();
            let inner = render_leaves(v, 0, v.len());
            r.append(inner.as_str());
            r.append(") ");
            proof {
                assert(leaves_view(v@).subrange(0, v@.len() as int) =~= leaves_view(v@));
            }
            r
        },
    }
}

/// Renders the tokens of `v` with indices in `from .. to`.
pub fn render_tokens(v: &Vec<Token>, from: usize, to: usize) -> (r: String)
    requires
        from <= to <= v@.len(),
    ensures
        r@ == tokens_text(tokens_view(v@).subrange(from as int, to as int)),
{
    let ghost s = tokens_view(v@);
    let mut r = String::new();
    proof {
        assert(r@ =~= tokens_text(s.subrange(from as int, from as int)));
    }
    let mut i: usize = from;
    while i < to
        invariant
            from <= i <= to <= v@.len(),
            s == tokens_view(v@),
            s.len() == v@.len(),
            r@ == tokens_text(s.subrange(from as int, i as int)),
        decreases to - i,
    {
        let t = render_token(&v[i]);
        r.append(t.as_str());
        proof {
            let pre = s.subrange(from as int, i as int);
            let post = s.subrange(from as int, i + 1);
            assert(post.drop_last() =~= pre);
            assert(post.last() == s[i as int]);
            assert(s[i as int] == v@[i as int]@);
        }
        i = i + 1;
    }
    r
}

} // verus!
