use static_assert_generic::explicitly_drop;
use static_assert_generic::parse::ErrorKind;
use static_assert_generic::static_assert;
use static_assert_generic::token::Leaf;
use static_assert_generic::token::Token;

fn id(s: &str) -> Leaf {
    Leaf::Ident(s.to_string())
}

fn ot(s: &str) -> Leaf {
    Leaf::Other(s.to_string())
}

fn tl(l: Leaf) -> Token {
    Token::Leaf(l)
}

fn group(leaves: Vec<Leaf>) -> Token {
    Token::Paren(leaves)
}

/// The invocations of the original crate-level examples, driven through the
/// library: each parses and expands successfully.
#[test]
fn test() {
    // static_assert!(() 1 + 2 < 17);
    let out = static_assert(&vec![
        group(vec![]),
        tl(ot("1")),
        tl(ot("+")),
        tl(ot("2")),
        tl(Leaf::Lt),
        tl(ot("17")),
    ])
    .unwrap();
    assert!(out.contains("1 + 2 < 17"));

    // static_assert!((N: usize) N != 0 => "N must be a non-zero value!");
    let out = static_assert(&vec![
        group(vec![id("N"), Leaf::Colon, id("usize")]),
        tl(id("N")),
        tl(ot("!=")),
        tl(ot("0")),
        tl(Leaf::FatArrow),
        tl(ot("\"N must be a non-zero value!\"")),
    ])
    .unwrap();
    assert!(out.contains("const N : usize ,"));
    assert!(out.contains("\"N must be a non-zero value!\""));

    // static_assert!((N: usize, M: usize) N > M => "N must be greater than M!");
    let out = static_assert(&vec![
        group(vec![id("N"), Leaf::Colon, id("usize"), Leaf::Comma, id("M"), Leaf::Colon, id("usize")]),
        tl(id("N")),
        tl(Leaf::Gt),
        tl(id("M")),
        tl(Leaf::FatArrow),
        tl(ot("\"N must be greater than M!\"")),
    ])
    .unwrap();
    assert!(out.contains("const N : usize , const M : usize ,"));
    assert!(out.contains("\"N must be greater than M!\""));

    // static_assert!((T) std::mem::size_of::<T>() == 4 => "T must be 4 bytes long!");
    let out = static_assert(&vec![
        group(vec![id("T")]),
        tl(id("std")),
        tl(ot("::")),
        tl(id("mem")),
        tl(ot("::")),
        tl(id("size_of")),
        tl(ot("::")),
        tl(Leaf::Lt),
        tl(id("T")),
        tl(Leaf::Gt),
        group(vec![]),
        tl(ot("==")),
        tl(ot("4")),
        tl(Leaf::FatArrow),
        tl(ot("\"T must be 4 bytes long!\"")),
    ])
    .unwrap();
    assert!(out.contains("core :: marker :: PhantomData < T , >"));
    assert!(out.contains("std :: mem :: size_of :: < T > ( ) == 4"));
    assert!(out.contains("\"T must be 4 bytes long!\""));

    // static_assert!((U?) true => "There isn't much you can statically check about unsized types.");
    let out = static_assert(&vec![
        group(vec![id("U"), Leaf::Question]),
        tl(ot("true")),
        tl(Leaf::FatArrow),
        tl(ot("\"There isn't much you can statically check about unsized types.\"")),
    ])
    .unwrap();
    assert!(out.contains("U : ? Sized ,"));
    assert!(out.contains("\"There isn't much you can statically check about unsized types.\""));

    // static_assert!((N: usize, T) N == std::mem::size_of::<T>() / 2 => "N must be half the size of T!");
    let out = static_assert(&vec![
        group(vec![id("N"), Leaf::Colon, id("usize"), Leaf::Comma, id("T")]),
        tl(id("N")),
        tl(ot("==")),
        tl(id("std")),
        tl(ot("::")),
        tl(id("mem")),
        tl(ot("::")),
        tl(id("size_of")),
        tl(ot("::")),
        tl(Leaf::Lt),
        tl(id("T")),
        tl(Leaf::Gt),
        group(vec![]),
        tl(ot("/")),
        tl(ot("2")),
        tl(Leaf::FatArrow),
        tl(ot("\"N must be half the size of T!\"")),
    ])
    .unwrap();
    assert!(out.contains("const N : usize , T ,"));
    assert!(out.contains("core :: marker :: PhantomData < T , >"));
    assert!(out.contains("\"N must be half the size of T!\""));
}

/// A zero-generic request with a true expression expands to a plain check with
/// the default message.
#[test]
fn zero_generics_exact_expansion() {
    let out = static_assert(&vec![
        group(vec![]),
        tl(ot("1")),
        tl(ot("+")),
        tl(ot("2")),
        tl(Leaf::Lt),
        tl(ot("17")),
    ])
    .unwrap();
    assert_eq!(
        out,
        "_ = { struct Assert < > ( ) ; impl < > Assert < > { # [ allow ( unused ) ] \
         const CHECK : ( ) = if ! ( 1 + 2 < 17 ) { panic ! ( \"Static assert failed.\" ) } ; } \
         Assert :: < > :: CHECK } "
    );
}

/// A false zero-generic expression still expands the same way: failure is the
/// host's constant evaluation, with the default message as payload.
#[test]
fn zero_generics_default_message() {
    let out = static_assert(&vec![
        group(vec![]),
        tl(ot("45")),
        tl(ot("*")),
        tl(ot("25")),
        tl(Leaf::Lt),
        tl(ot("3")),
    ])
    .unwrap();
    assert!(out.contains("if ! ( 45 * 25 < 3 )"));
    assert!(out.contains("panic ! ( \"Static assert failed.\" )"));
}

/// A supplied message replaces the default literal.
#[test]
fn zero_generics_custom_message() {
    let out = static_assert(&vec![
        group(vec![]),
        tl(ot("45")),
        tl(ot("*")),
        tl(ot("25")),
        tl(Leaf::Lt),
        tl(ot("3")),
        tl(Leaf::FatArrow),
        tl(ot("\"This is the error message!\"")),
    ])
    .unwrap();
    assert!(out.contains("panic ! ( \"This is the error message!\" )"));
    assert!(!out.contains("Static assert failed."));
}

/// A single typed-constant request anchors the check to a carrier generic over
/// that constant.
#[test]
fn const_generic_exact_expansion() {
    let out = static_assert(&vec![
        group(vec![id("N"), Leaf::Colon, id("usize")]),
        tl(id("N")),
        tl(ot("!=")),
        tl(ot("0")),
        tl(Leaf::FatArrow),
        tl(ot("\"N must be a non-zero value!\"")),
    ])
    .unwrap();
    assert_eq!(
        out,
        "_ = { struct Assert < const N : usize , > ( ) ; impl < const N : usize , > \
         Assert < N , > { # [ allow ( unused ) ] const CHECK : ( ) = if ! ( N != 0 ) \
         { panic ! ( \"N must be a non-zero value!\" ) } ; } Assert :: < N , > :: CHECK } "
    );
}

/// A type parameter that the expression never mentions is still referenced by
/// the carrier through its marker field.
#[test]
fn unused_type_parameter_is_marked() {
    let out = static_assert(&vec![group(vec![id("T")]), tl(ot("true"))]).unwrap();
    assert_eq!(
        out,
        "_ = { struct Assert < T , > ( core :: marker :: PhantomData < T , > , ) ; \
         impl < T , > Assert < T , > { # [ allow ( unused ) ] const CHECK : ( ) = if ! ( true ) \
         { panic ! ( \"Static assert failed.\" ) } ; } Assert :: < T , > :: CHECK } "
    );
}

/// An unsized-qualified descriptor is declared with the relaxed bound; the
/// same name without the qualifier is declared bare.
#[test]
fn unsized_versus_sized_declaration() {
    let unsized_out =
        static_assert(&vec![group(vec![id("U"), Leaf::Question]), tl(ot("true"))]).unwrap();
    assert!(unsized_out.contains("struct Assert < U : ? Sized , >"));
    let sized_out = static_assert(&vec![group(vec![id("U")]), tl(ot("true"))]).unwrap();
    assert!(sized_out.contains("struct Assert < U , >"));
    assert!(!sized_out.contains("? Sized"));
}

/// A type of a constant parameter may itself carry angle brackets; the
/// descriptor extends to the comma outside them.
#[test]
fn const_type_with_angle_brackets() {
    let out = static_assert(&vec![
        group(vec![
            id("N"),
            Leaf::Colon,
            id("Wrapping"),
            Leaf::Lt,
            id("u8"),
            Leaf::Comma,
            id("u16"),
            Leaf::Gt,
            Leaf::Comma,
            id("T"),
        ]),
        tl(ot("true")),
    ])
    .unwrap();
    assert!(out.contains("const N : Wrapping < u8 , u16 > , T ,"));
}

/// A trailing comma in the descriptor list is permitted.
#[test]
fn trailing_comma_in_list() {
    let out = static_assert(&vec![
        group(vec![id("T"), Leaf::Comma]),
        tl(ot("true")),
    ])
    .unwrap();
    assert!(out.contains("struct Assert < T , >"));
}

/// `name: ?` is rejected with its own diagnostic: the unsized qualifier is a
/// trailing `?`, not a `?Sized` bound.
#[test]
fn colon_question_rejected() {
    let err = static_assert(&vec![
        group(vec![id("T"), Leaf::Colon, Leaf::Question, id("Sized")]),
        tl(ot("true")),
    ])
    .unwrap_err();
    assert_eq!(err.kind, ErrorKind::ColonQuestion);
    assert_eq!(err.pos, 2);
    assert!(err.message().contains("unsized"));
}

/// The keyword `const` in place of an identifier is called out by name.
#[test]
fn const_keyword_rejected() {
    let err = static_assert(&vec![
        group(vec![Leaf::ConstKw, id("N"), Leaf::Colon, id("usize")]),
        tl(id("N")),
        tl(ot("!=")),
        tl(ot("0")),
    ])
    .unwrap_err();
    assert_eq!(err.kind, ErrorKind::ConstKeyword);
    assert_eq!(err.pos, 0);
    assert!(err.message().contains("const"));
}

/// Declaring the same identifier twice is rejected, with a diagnostic distinct
/// from the colon-question case.
#[test]
fn duplicate_identifier_rejected() {
    let err = static_assert(&vec![
        group(vec![id("T"), Leaf::Comma, id("T")]),
        tl(ot("true")),
    ])
    .unwrap_err();
    assert_eq!(err.kind, ErrorKind::DuplicateIdent);
    assert_eq!(err.pos, 2);
    let colon_question = static_assert(&vec![
        group(vec![id("T"), Leaf::Colon, Leaf::Question]),
        tl(ot("true")),
    ])
    .unwrap_err();
    assert_ne!(err.kind, colon_question.kind);
    assert_ne!(err.message(), colon_question.message());
}

/// A colon with no type after it is rejected.
#[test]
fn missing_const_type_rejected() {
    let err = static_assert(&vec![
        group(vec![id("N"), Leaf::Colon]),
        tl(ot("true")),
    ])
    .unwrap_err();
    assert_eq!(err.kind, ErrorKind::ExpectedType);
    assert_eq!(err.pos, 2);
}

/// Descriptors must be separated by commas.
#[test]
fn missing_comma_rejected() {
    let err = static_assert(&vec![
        group(vec![id("T"), id("U")]),
        tl(ot("true")),
    ])
    .unwrap_err();
    assert_eq!(err.kind, ErrorKind::ExpectedComma);
    assert_eq!(err.pos, 1);
}

/// An invocation that does not open with a parenthesized list is rejected.
#[test]
fn missing_parens_rejected() {
    let err = static_assert(&vec![tl(ot("true"))]).unwrap_err();
    assert_eq!(err.kind, ErrorKind::ExpectedParens);
    assert_eq!(err.pos, 0);
    let empty = static_assert(&vec![]).unwrap_err();
    assert_eq!(empty.kind, ErrorKind::ExpectedParens);
}

/// An invocation with no expression is rejected.
#[test]
fn missing_expression_rejected() {
    let err = static_assert(&vec![group(vec![id("T")])]).unwrap_err();
    assert_eq!(err.kind, ErrorKind::ExpectedExpr);
    let arrow_only = static_assert(&vec![
        group(vec![]),
        tl(Leaf::FatArrow),
        tl(ot("\"msg\"")),
    ])
    .unwrap_err();
    assert_eq!(arrow_only.kind, ErrorKind::ExpectedExpr);
}

/// The destruction guard expands a type-parameter descriptor into a
/// destructor whose constant fails unconditionally.
#[test]
fn guard_type_parameter_exact_expansion() {
    let out = explicitly_drop(&vec![
        id("T"),
        Leaf::FatArrow,
        ot("\"MyStruct must be dropped explicitly!\""),
    ])
    .unwrap();
    assert_eq!(
        out,
        "fn drop ( & mut self ) { _ = { struct Assert < T , > \
         ( core :: marker :: PhantomData < T , > ) ; impl < T , > Assert < T , > \
         { const MANUAL_DROP : ( ) = panic ! ( \"MyStruct must be dropped explicitly!\" ) ; } \
         Assert :: < T , > :: MANUAL_DROP } ; } "
    );
}

/// The destruction guard accepts an unsized-qualified descriptor.
#[test]
fn guard_unsized_parameter() {
    let out = explicitly_drop(&vec![
        id("T"),
        Leaf::Question,
        Leaf::FatArrow,
        ot("\"If the type is unsized it needs special syntax\""),
    ])
    .unwrap();
    assert!(out.contains("struct Assert < T : ? Sized , >"));
    assert!(out.contains("MANUAL_DROP"));
}

/// The destruction guard accepts a typed-constant descriptor, whose carrier
/// needs no marker field, and defaults the message when none is supplied.
#[test]
fn guard_const_parameter_default_message() {
    let out = explicitly_drop(&vec![id("C"), Leaf::Colon, id("u8")]).unwrap();
    assert_eq!(
        out,
        "fn drop ( & mut self ) { _ = { struct Assert < const C : u8 , > ; \
         impl < const C : u8 , > Assert < C , > \
         { const MANUAL_DROP : ( ) = panic ! ( \"Static assert failed.\" ) ; } \
         Assert :: < C , > :: MANUAL_DROP } ; } "
    );
}

/// A destruction-guard invocation with any arity other than one fails before
/// any expansion.
#[test]
fn guard_arity_enforced() {
    let empty = explicitly_drop(&vec![]).unwrap_err();
    assert_eq!(empty.kind, ErrorKind::ExpectedIdent);
    let two = explicitly_drop(&vec![id("T"), Leaf::Comma, id("U")]).unwrap_err();
    assert_eq!(two.kind, ErrorKind::ExpectedEnd);
    assert_eq!(two.pos, 1);
    let junk = explicitly_drop(&vec![id("T"), ot("true")]).unwrap_err();
    assert_eq!(junk.kind, ErrorKind::ExpectedEnd);
}

/// Both expansions are well-formed token streams of the host language.
#[test]
fn expansions_reparse_as_token_streams() {
    let out = static_assert(&vec![
        group(vec![id("N"), Leaf::Colon, id("usize"), Leaf::Comma, id("T")]),
        tl(id("N")),
        tl(ot("!=")),
        tl(ot("0")),
        tl(Leaf::FatArrow),
        tl(ot("\"N must be a non-zero value!\"")),
    ])
    .unwrap();
    let stream: Result<proc_macro2::TokenStream, _> = out.parse();
    assert!(stream.is_ok());

    let out = explicitly_drop(&vec![id("T"), Leaf::FatArrow, ot("\"guarded\"")]).unwrap();
    let stream: Result<proc_macro2::TokenStream, _> = out.parse();
    assert!(stream.is_ok());
}

/// A message may be any token run, not only a string literal.
#[test]
fn message_of_arbitrary_tokens() {
    let out = static_assert(&vec![
        group(vec![]),
        tl(ot("false")),
        tl(Leaf::FatArrow),
        tl(ot("\"value was {}\"")),
        tl(Leaf::Comma),
        tl(ot("3")),
    ])
    .unwrap();
    assert!(out.contains("panic ! ( \"value was {}\" , 3 )"));
}
