//! Ingredients.

use vstd::prelude::*;
use crate::scalar::Scalar;
use crate::tag::{alcoholic_tag, AutoTag, Tag};

verus! {

/// Something that goes into a recipe: a name, how much alcohol it holds, and
/// its tags.
///
/// The alcohol content is a note for the reader. Nothing ties it to the tag
/// that marks alcohol, and no range is asked of it.
#[derive(Debug)]
pub struct Ingredient<T> {
    pub name: String,
    pub alcohol_content: T,
    pub tags: Vec<Tag>,
}

impl<T> Ingredient<T> {
    /// Whether the ingredient carries the tag that marks alcohol.
    pub open spec fn is_alcoholic(self) -> bool {
        self.tags@.contains(alcoholic_tag())
    }
}

impl<T: Scalar> Ingredient<T> {
    /// An ingredient without alcohol and without tags.
    pub fn new(name: String) -> (r: Self)
        ensures
            r.name == name,
            T::obeys_scalar_spec() ==> r.alcohol_content == T::zero_spec(),
            r.tags@ == Seq::<Tag>::empty(),
    {
        Ingredient { name, alcohol_content: T::zero(), tags: Vec::new() }
    }

    /// An ingredient that holds alcohol: its only tag is the one that marks
    /// alcohol.
    pub fn with_alcohol(name: String, alcohol_content: T) -> (r: Self)
        ensures
            r.name == name,
            r.alcohol_content == alcohol_content,
            r.tags@ == seq![alcoholic_tag()],
            r.is_alcoholic(),
    {
        let mut tags: Vec<Tag> = Vec::new();
        tags.push(Tag::Auto(AutoTag::Alcoholic));
        assert(tags@[0] == alcoholic_tag());
        Ingredient { name, alcohol_content, tags }
    }

    /// An ingredient without alcohol that carries the given tags.
    pub fn with_tags(name: String, tags: Vec<Tag>) -> (r: Self)
        ensures
            r.name == name,
            T::obeys_scalar_spec() ==> r.alcohol_content == T::zero_spec(),
            r.tags == tags,
    {
        Ingredient { name, alcohol_content: T::zero(), tags }
    }

    /// An ingredient that holds alcohol and carries the given tags, with the
    /// tag that marks alcohol behind them. The tag is added even where `tags`
    /// holds it already.
    pub fn with_alcohol_and_tags(name: String, alcohol_content: T, tags: Vec<Tag>) -> (r: Self)
        ensures
            r.name == name,
            r.alcohol_content == alcohol_content,
            r.tags@ == tags@.push(alcoholic_tag()),
            r.is_alcoholic(),
    {
        let mut tags = tags;
        tags.push(Tag::Auto(AutoTag::Alcoholic));
        assert(tags@[tags@.len() - 1] == alcoholic_tag());
        Ingredient { name, alcohol_content, tags }
    }
}

} // verus!
