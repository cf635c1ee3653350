use vstd::prelude::*;

verus! {

/// The key under which an asset is cached: a path on storage, or a token
/// handed out for a value that was supplied in memory.
#[derive(Debug, Hash)]
pub enum Identifier {
    Path(String),
    Token(u64),
}

/// The mathematical form of an [`Identifier`].
pub enum IdKey {
    Path(Seq<char>),
    Token(u64),
}

impl View for Identifier {
    type V = IdKey;

    open spec fn view(&self) -> IdKey {
        match self {
            Identifier::Path(p) => IdKey::Path(p@),
            Identifier::Token(t) => IdKey::Token(*t),
        }
    }
}

impl Identifier {
    /// An identifier naming the same asset as `self`.
    pub fn duplicate(&self) -> (r: Identifier)
        ensures
            r@ == self@,
    {
        match self {
            Identifier::Path(p) => Identifier::Path(p.clone()),
            Identifier::Token(t) => Identifier::Token(*t),
        }
    }

    /// Whether `self` and `other` name the same asset.
    pub fn same_as(&self, other: &Identifier) -> (r: bool)
        ensures
            r == (self@ == other@),
    {
        match self {
            Identifier::Path(a) => match other {
                Identifier::Path(b) => a.eq(b),
                Identifier::Token(_) => false,
            },
            Identifier::Token(a) => match other {
                Identifier::Path(_) => false,
                Identifier::Token(b) => *a == *b,
            },
        }
    }
}

impl PartialEq for Identifier {
    fn eq(&self, other: &Identifier) -> (r: bool) {
        self.same_as(other)
    }
}

impl vstd::std_specs::cmp::PartialEqSpecImpl for Identifier {
    open spec fn obeys_eq_spec() -> bool {
        true
    }

    open spec fn eq_spec(&self, other: &Identifier) -> bool {
        self@ == other@
    }
}

impl Eq for Identifier {
}

} // verus!
