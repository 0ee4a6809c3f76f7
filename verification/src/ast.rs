//! The parts of the parsed syntax tree that plans carry along.

use vstd::prelude::*;

verus! {

/// An identifier as written in a query.
#[derive(Debug, PartialEq, Eq)]
pub struct Ident {
    pub value: String,
    pub quoted: bool,
}

pub ghost struct IdentView {
    pub value: Seq<char>,
    pub quoted: bool,
}

impl View for Ident {
    type V = IdentView;

    open spec fn view(&self) -> IdentView {
        IdentView { value: self.value@, quoted: self.quoted }
    }
}

impl Clone for Ident {
    fn clone(&self) -> (r: Self)
        ensures
            r == *self,
    {
        Ident { value: self.value.clone(), quoted: self.quoted }
    }
}

/// A possibly qualified name of an object: `catalog.schema.table`.
#[derive(Debug, PartialEq, Eq)]
pub struct ObjectReference(pub Vec<Ident>);

impl View for ObjectReference {
    type V = Seq<IdentView>;

    open spec fn view(&self) -> Seq<IdentView> {
        Seq::new(self.0@.len(), |i: int| self.0@[i]@)
    }
}

/// The identifiers that unquoted strings stand for.
pub open spec fn unquoted_idents(strings: Seq<Seq<char>>) -> Seq<IdentView> {
    strings.map_values(|s: Seq<char>| IdentView { value: s, quoted: false })
}

impl ObjectReference {
    /// A reference whose parts are the given strings, unquoted.
    pub fn from_strings(strings: Vec<String>) -> (r: Self)
        ensures
            r@ == unquoted_idents(strings.deep_view()),
    {
        let mut idents: Vec<Ident> = Vec::new();
        let mut i: usize = 0;
        while i < strings.len()
            invariant
                i <= strings.len(),
                idents@.len() == i,
                forall|k: int|
                    0 <= k < i ==> (#[trigger] idents@[k])@ == (IdentView {
                        value: strings@[k]@,
                        quoted: false,
                    }),
            decreases strings.len() - i,
        {
            idents.push(Ident { value: strings[i].clone(), quoted: false });
            i += 1;
        }
        let r = ObjectReference(idents);
        assert(r@ =~= unquoted_idents(strings.deep_view()));
        r
    }
}

} // verus!
