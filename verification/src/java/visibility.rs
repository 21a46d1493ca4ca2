//! Access modifiers.
use vstd::prelude::*;

verus! {

/// The access modifier of a field or method.
#[derive(Debug, Clone, Copy)]
pub enum Visibility {
    Public,
    Private,
}

impl Visibility {
    /// The modifier as it stands in source text.
    pub open spec fn keyword_text(self) -> Seq<char> {
        match self {
            Visibility::Public => "public"@,
            Visibility::Private => "private"@,
        }
    }

    /// The modifier as it stands in source text.
    pub fn keyword(&self) -> (out: &'static str)
        ensures
            out@ == self.keyword_text(),
    {
        match self {
            Visibility::Public => "public",
            Visibility::Private => "private",
        }
    }
}

impl Default for Visibility {
    fn default() -> (out: Visibility)
        ensures
            out == Visibility::Public,
    {
        Visibility::Public
    }
}

} // verus!
