//! Classification tags of ingredients and recipes.

use vstd::prelude::*;

verus! {

/// A classification that the library derives by itself.
#[derive(Clone, Copy, Debug, PartialEq, Eq, Structural)]
pub enum AutoTag {
    Alcoholic,
    NonAlcoholic,
}

/// A classification of an ingredient or a recipe.
#[derive(Debug)]
pub enum Tag {
    /// A tag from a fixed vocabulary, by its name.
    Defined(String),
    /// A tag that a user made up, by its name.
    Custom(String),
    /// A tag that the library derives.
    Auto(AutoTag),
}

/// The mathematical model of a tag: its kind and the characters of its name.
pub enum TagView {
    Defined(Seq<char>),
    Custom(Seq<char>),
    Auto(AutoTag),
}

impl View for Tag {
    type V = TagView;

    open spec fn view(&self) -> TagView {
        match self {
            Tag::Defined(name) => TagView::Defined(name@),
            Tag::Custom(name) => TagView::Custom(name@),
            Tag::Auto(auto) => TagView::Auto(*auto),
        }
    }
}

impl PartialEq for Tag {
    fn eq(&self, other: &Self) -> (r: bool) {
        match (self, other) {
            (Tag::Defined(a), Tag::Defined(b)) => *a == *b,
            (Tag::Custom(a), Tag::Custom(b)) => *a == *b,
            (Tag::Auto(a), Tag::Auto(b)) => *a == *b,
            _ => false,
        }
    }
}

impl vstd::std_specs::cmp::PartialEqSpecImpl for Tag {
    open spec fn obeys_eq_spec() -> bool {
        true
    }

    /// Two tags are equal if they are of the same kind and carry the same name.
    open spec fn eq_spec(&self, other: &Self) -> bool {
        self@ == other@
    }
}

impl Clone for Tag {
    fn clone(&self) -> (r: Self)
        ensures
            r == *self,
    {
        match self {
            Tag::Defined(name) => Tag::Defined(name.clone()),
            Tag::Custom(name) => Tag::Custom(name.clone()),
            Tag::Auto(auto) => Tag::Auto(*auto),
        }
    }
}

/// The tag that marks alcohol.
pub open spec fn alcoholic_tag() -> Tag {
    Tag::Auto(AutoTag::Alcoholic)
}

impl Tag {
    /// Whether this is the tag that marks alcohol.
    pub fn marks_alcohol(&self) -> (r: bool)
        ensures
            r == (*self == alcoholic_tag()),
    {
        match self {
            Tag::Auto(AutoTag::Alcoholic) => true,
            _ => false,
        }
    }
}

/// Whether the tag that marks alcohol is among `tags`.
pub fn contains_alcoholic_tag(tags: &Vec<Tag>) -> (r: bool)
    ensures
        r == tags@.contains(alcoholic_tag()),
{
    let mut i: usize = 0;
    while i < tags.len()
        invariant
            i <= tags@.len(),
            forall|j: int| 0 <= j < i ==> tags@[j] != alcoholic_tag(),
        decreases tags@.len() - i,
    {
        if tags[i].marks_alcohol() {
            return true;
        }
        i = i + 1;
    }
    false
}

} // verus!
