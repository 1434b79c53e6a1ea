//! The generic-parameter descriptor model.
//!
//! One descriptor stands for one declared generic parameter: an ordinary
//! (sized) type parameter, a type parameter with no sizedness bound, or a
//! constant parameter with an explicit type. A descriptor renders itself three
//! ways: as a declaration fragment for a generic parameter list, as the bare
//! placement fragment used when instantiating that list, and — for type-like
//! parameters only — as the placement fragment to be captured in a zero-size
//! marker field.

use vstd::prelude::*;

verus! {

/// One declared generic parameter.
pub enum Generic {
    /// An ordinary (sized) type parameter.
    Type { ident: String },
    /// A type parameter with no sizedness bound, declared `name?`.
    UnsizedType { ident: String },
    /// A constant parameter with an explicit type, declared `name: type`.
    /// The type is carried as its source text.
    Const { ident: String, ty: String },
}

/// The mathematical model of a [`Generic`].
pub enum GenericV {
    Type { ident: Seq<char> },
    UnsizedType { ident: Seq<char> },
    Const { ident: Seq<char>, ty: Seq<char> },
}

impl View for Generic {
    type V = GenericV;

    open spec fn view(&self) -> GenericV {
        match self {
            Generic::Type { ident } => GenericV::Type { ident: ident@ },
            Generic::UnsizedType { ident } => GenericV::UnsizedType { ident: ident@ },
            Generic::Const { ident, ty } => GenericV::Const { ident: ident@, ty: ty@ },
        }
    }
}

/// The models of a sequence of descriptors.
pub open spec fn generics_view(s: Seq<Generic>) -> Seq<GenericV> {
    s.map_values(|g: Generic| g@)
}

/// The declared identifier of a descriptor.
pub open spec fn ident_of(g: GenericV) -> Seq<char> {
    match g {
        GenericV::Type { ident } => ident,
        GenericV::UnsizedType { ident } => ident,
        GenericV::Const { ident, .. } => ident,
    }
}

/// Whether a descriptor declares a type-like parameter, one that must be
/// captured in a marker field to count as used.
pub open spec fn is_type_like(g: GenericV) -> bool {
    !(g is Const)
}

/// The declaration fragment of a descriptor, for a generic parameter list:
/// the bare name, the name with the relaxed sizedness bound, or a typed
/// `const` declaration — each followed by a comma.
pub open spec fn definition_text(g: GenericV) -> Seq<char> {
    match g {
        GenericV::Type { ident } => ident + " , "@,
        GenericV::UnsizedType { ident } => ident + " : ? Sized , "@,
        GenericV::Const { ident, ty } => "const "@ + ident + " : "@ + ty + ", "@,
    }
}

/// The placement fragment of a descriptor, for instantiating a generic
/// parameter list: the bare name followed by a comma, whatever the variant.
pub open spec fn placement_text(g: GenericV) -> Seq<char> {
    ident_of(g) + " , "@
}

/// The placement fragment usable as a type: present exactly for type-like
/// descriptors, absent for constants, which need no marker field.
pub open spec fn placement_type_text(g: GenericV) -> Option<Seq<char>> {
    if is_type_like(g) {
        Some(placement_text(g))
    } else {
        None
    }
}

impl Generic {
    /// The declared identifier.
    pub fn ident(&self) -> (r: &String)
        ensures
            r@ == ident_of(self@),
    {
        match self {
            Generic::Type { ident } => ident,
            Generic::UnsizedType { ident } => ident,
            Generic::Const { ident, .. } => ident,
        }
    }

    /// Renders the declaration fragment for a generic parameter list.
    pub fn definition(&self) -> (r: String)
        ensures
            r@ == definition_text(self@),
    {
        match self {
            Generic::Type { ident } => {
                let mut r = ident.clone();
                r.append(" , ");
                r
            },
            Generic::UnsizedType { ident } => {
                let mut r = ident.clone();
                r.append(" : ? Sized , ");
                r
            },
            Generic::Const { ident, ty } => {
                let mut r = "const ".to_owned();
                r.append(ident.as_str());
                r.append(" : ");
                r.append(ty.as_str());
                r.append(", ");
                r
            },
        }
    }

    /// Renders the bare placement fragment for instantiating the parameter
    /// list.
    pub fn placement(&self) -> (r: String)
        ensures
            r@ == placement_text(self@),
    {
        let mut r = self.ident().clone();
        r.append(" , ");
        r
    }

    /// Renders the placement fragment as a type, for the marker field of a
    /// type-like parameter; a constant needs none.
    pub fn placement_type(&self) -> (r: Option<String>)
        ensures
            match r {
                Some(s) => placement_type_text(self@) == Some(s@),
                None => placement_type_text(self@) is None,
            },
    {
        match self {
            Generic::Const { .. } => None,
            _ => Some(self.placement()),
        }
    }
}

} // verus!
