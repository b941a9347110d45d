//! Recipes and the tags that follow from their ingredients.

use vstd::prelude::*;
use crate::amount::Amount;
use crate::ingredient::Ingredient;
use crate::tag::{alcoholic_tag, contains_alcoholic_tag, AutoTag, Tag};

verus! {

/// A named list of ingredients with their amounts, the steps to take, and tags.
///
/// An ingredient is held by its name alone. The tags are those that followed
/// from the ingredients when the recipe was made.
#[derive(Debug)]
pub struct Recipe<T> {
    pub name: String,
    pub description: String,
    pub ingredients: Vec<(String, Amount<T>)>,
    pub instructions: Vec<String>,
    pub tags: Vec<Tag>,
}

/// Whether one of the ingredients carries the tag that marks alcohol.
pub open spec fn any_alcoholic<T>(ingredients: Seq<(&Ingredient<T>, Amount<T>)>) -> bool {
    exists|i: int| 0 <= i < ingredients.len() && (#[trigger] ingredients[i]).0.is_alcoholic()
}

/// The tags that follow from a list of ingredients: the tag that marks alcohol
/// if one of them carries it, and none otherwise.
pub open spec fn inferred_tags<T>(ingredients: Seq<(&Ingredient<T>, Amount<T>)>) -> Seq<Tag> {
    if any_alcoholic(ingredients) {
        seq![alcoholic_tag()]
    } else {
        Seq::empty()
    }
}

/// The tags that follow from a list of ingredients.
pub fn auto_tags_for<T>(ingredients: &Vec<(&Ingredient<T>, Amount<T>)>) -> (tags: Vec<Tag>)
    ensures
        tags@ == inferred_tags(ingredients@),
{
    let mut tags: Vec<Tag> = Vec::new();
    let mut i: usize = 0;
    while i < ingredients.len()
        invariant
            i <= ingredients@.len(),
            tags@ == Seq::<Tag>::empty(),
            forall|j: int| 0 <= j < i ==> !(#[trigger] ingredients@[j]).0.is_alcoholic(),
        decreases ingredients@.len() - i,
    {
        if contains_alcoholic_tag(&ingredients[i].0.tags) {
            tags.push(Tag::Auto(AutoTag::Alcoholic));
            return tags;
        }
        i = i + 1;
    }
    tags
}

impl<T> Recipe<T> {
    /// A recipe of the given ingredients.
    ///
    /// The ingredients are listed in the order given, each under its name. The
    /// recipe's tags follow from the ingredients; description and instructions
    /// start empty.
    pub fn new(name: String, ingredients: Vec<(&Ingredient<T>, Amount<T>)>) -> (r: Self)
        ensures
            r.name == name,
            r.description@ == Seq::<char>::empty(),
            r.instructions@ == Seq::<String>::empty(),
            r.tags@ == inferred_tags(ingredients@),
            r.ingredients@.len() == ingredients@.len(),
            forall|i: int|
                0 <= i < ingredients@.len() ==> (#[trigger] r.ingredients@[i]) == (
                    ingredients@[i].0.name,
                    ingredients@[i].1,
                ),
    {
        let tags = auto_tags_for(&ingredients);
        let mut listed: Vec<(String, Amount<T>)> = Vec::new();
        for pair in it: ingredients
            invariant
                listed@.len() == it.index(),
                forall|i: int|
                    0 <= i < listed@.len() ==> (#[trigger] listed@[i]) == (
                        it.seq()[i].0.name,
                        it.seq()[i].1,
                    ),
        {
            let (ingredient, amount) = pair;
            listed.push((ingredient.name.clone(), amount));
        }
        Recipe {
            name,
            description: String::new(),
            ingredients: listed,
            instructions: Vec::new(),
            tags,
        }
    }
}

} // verus!
