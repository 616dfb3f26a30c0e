//! The names that tables, schemas and columns are made of.

use vstd::prelude::*;

verus! {

/// A value that holds the text of an SQL name.
pub trait Identifier: Clone {
    /// The text of the name.
    spec fn text(&self) -> Seq<char>;

    /// The text of the name.
    fn as_identifier(&self) -> (text: &str)
        ensures
            text@ == self.text(),
    ;

    /// A clone holds the same text as the value it was made from.
    proof fn lemma_clone_keeps_text(&self, copy: &Self)
        requires
            cloned(*self, *copy),
        ensures
            copy.text() == self.text(),
    ;
}

impl Identifier for String {
    open spec fn text(&self) -> Seq<char> {
        self@
    }

    fn as_identifier(&self) -> (text: &str) {
        self.as_str()
    }

    proof fn lemma_clone_keeps_text(&self, copy: &Self) {
    }
}

impl<'a> Identifier for &'a str {
    open spec fn text(&self) -> Seq<char> {
        self@
    }

    fn as_identifier(&self) -> (text: &str) {
        *self
    }

    proof fn lemma_clone_keeps_text(&self, copy: &Self) {
    }
}

} // verus!
