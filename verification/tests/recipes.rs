use gemisch::amount::{Amount, MeasurementUnit, Range};
use gemisch::recipe::auto_tags_for;
use gemisch::tag::contains_alcoholic_tag;
use gemisch::{AutoTag, Decimal, Ingredient, Recipe, Tag};

fn litres(mantissa: i64, places: u8) -> Amount<Decimal> {
    Amount {
        value: Range::from_scalar(Decimal::new(mantissa, places).unwrap()),
        unit: MeasurementUnit::Volume,
    }
}

fn zero() -> Decimal {
    Decimal { micros: 0 }
}

#[test]
fn plain_ingredient_has_no_alcohol_and_no_tags() {
    let water: Ingredient<Decimal> = Ingredient::new("Wasser".to_owned());
    assert_eq!(water.name, "Wasser");
    assert_eq!(water.alcohol_content, zero());
    assert!(water.tags.is_empty());
}

#[test]
fn ingredient_with_alcohol_is_tagged_alcoholic() {
    let rum = Ingredient::with_alcohol("Rum".to_owned(), Decimal::new(40, 0).unwrap());
    assert_eq!(rum.name, "Rum");
    assert_eq!(rum.alcohol_content, Decimal::new(40, 0).unwrap());
    assert_eq!(rum.tags, vec![Tag::Auto(AutoTag::Alcoholic)]);
}

#[test]
fn alcohol_content_is_not_checked() {
    let odd = Ingredient::with_alcohol("Odd".to_owned(), Decimal::new(-5, 0).unwrap());
    assert_eq!(odd.alcohol_content, Decimal::new(-5, 0).unwrap());
    let more = Ingredient::with_alcohol("More".to_owned(), 250i64);
    assert_eq!(more.alcohol_content, 250);
    assert_eq!(more.tags, vec![Tag::Auto(AutoTag::Alcoholic)]);
}

#[test]
fn ingredient_with_tags_keeps_them_as_given() {
    let tags = vec![
        Tag::Custom("sour".to_owned()),
        Tag::Defined("fruit".to_owned()),
        Tag::Custom("sour".to_owned()),
    ];
    let lime: Ingredient<Decimal> = Ingredient::with_tags("Limette".to_owned(), tags);
    assert_eq!(lime.alcohol_content, zero());
    assert_eq!(
        lime.tags,
        vec![
            Tag::Custom("sour".to_owned()),
            Tag::Defined("fruit".to_owned()),
            Tag::Custom("sour".to_owned()),
        ]
    );
}

#[test]
fn ingredient_with_alcohol_and_tags_appends_the_alcoholic_tag() {
    let gin = Ingredient::with_alcohol_and_tags(
        "Gin".to_owned(),
        Decimal::new(475, 1).unwrap(),
        vec![Tag::Defined("spirit".to_owned())],
    );
    assert_eq!(gin.alcohol_content, Decimal::new(475, 1).unwrap());
    assert_eq!(
        gin.tags,
        vec![Tag::Defined("spirit".to_owned()), Tag::Auto(AutoTag::Alcoholic)]
    );
}

#[test]
fn alcoholic_tag_is_appended_even_if_present() {
    let gin = Ingredient::with_alcohol_and_tags(
        "Gin".to_owned(),
        Decimal::new(40, 0).unwrap(),
        vec![Tag::Auto(AutoTag::Alcoholic)],
    );
    assert_eq!(
        gin.tags,
        vec![Tag::Auto(AutoTag::Alcoholic), Tag::Auto(AutoTag::Alcoholic)]
    );
}

#[test]
fn tags_are_equal_by_kind_and_name() {
    assert_eq!(Tag::Custom("a".to_owned()), Tag::Custom("a".to_owned()));
    assert_ne!(Tag::Custom("a".to_owned()), Tag::Custom("b".to_owned()));
    assert_ne!(Tag::Custom("a".to_owned()), Tag::Defined("a".to_owned()));
    assert_eq!(Tag::Auto(AutoTag::NonAlcoholic), Tag::Auto(AutoTag::NonAlcoholic));
    assert_ne!(Tag::Auto(AutoTag::Alcoholic), Tag::Auto(AutoTag::NonAlcoholic));
    assert_ne!(Tag::Auto(AutoTag::Alcoholic), Tag::Custom("Alcoholic".to_owned()));
    let tag = Tag::Defined("x".to_owned());
    assert_eq!(tag.clone(), tag);
}

#[test]
fn only_the_alcoholic_tag_marks_alcohol() {
    assert!(Tag::Auto(AutoTag::Alcoholic).marks_alcohol());
    assert!(!Tag::Auto(AutoTag::NonAlcoholic).marks_alcohol());
    assert!(!Tag::Custom("Alcoholic".to_owned()).marks_alcohol());
    assert!(!Tag::Defined("Alcoholic".to_owned()).marks_alcohol());
    assert!(!contains_alcoholic_tag(&Vec::new()));
    assert!(!contains_alcoholic_tag(&vec![
        Tag::Auto(AutoTag::NonAlcoholic),
        Tag::Custom("x".to_owned())
    ]));
    assert!(contains_alcoholic_tag(&vec![
        Tag::Custom("x".to_owned()),
        Tag::Auto(AutoTag::Alcoholic)
    ]));
}

#[test]
fn recipe_with_an_alcoholic_ingredient_is_alcoholic() {
    let rum = Ingredient::with_alcohol("Rum".to_owned(), Decimal::new(40, 0).unwrap());
    let coke: Ingredient<Decimal> = Ingredient::new("Cola".to_owned());
    let recipe = Recipe::new(
        "Cuba Libre".to_owned(),
        vec![(&rum, litres(4, 2)), (&coke, litres(2, 1))],
    );
    assert_eq!(recipe.tags, vec![Tag::Auto(AutoTag::Alcoholic)]);
    let other_order = Recipe::new(
        "Cuba Libre".to_owned(),
        vec![(&coke, litres(2, 1)), (&rum, litres(4, 2))],
    );
    assert_eq!(other_order.tags, vec![Tag::Auto(AutoTag::Alcoholic)]);
}

#[test]
fn recipe_without_alcoholic_ingredients_has_no_tags() {
    let coke: Ingredient<Decimal> = Ingredient::new("Cola".to_owned());
    let juice: Ingredient<Decimal> = Ingredient::with_tags(
        "Apfelsaft".to_owned(),
        vec![Tag::Custom("fruit".to_owned()), Tag::Auto(AutoTag::NonAlcoholic)],
    );
    let recipe = Recipe::new(
        "Apfelcola".to_owned(),
        vec![(&coke, litres(2, 1)), (&juice, litres(2, 1))],
    );
    assert!(recipe.tags.is_empty());
}

#[test]
fn recipe_of_several_alcoholic_ingredients_is_tagged_once() {
    let rum = Ingredient::with_alcohol("Rum".to_owned(), Decimal::new(40, 0).unwrap());
    let gin = Ingredient::with_alcohol_and_tags(
        "Gin".to_owned(),
        Decimal::new(40, 0).unwrap(),
        vec![Tag::Auto(AutoTag::Alcoholic)],
    );
    let recipe = Recipe::new("Both".to_owned(), vec![(&rum, litres(4, 2)), (&gin, litres(4, 2))]);
    assert_eq!(recipe.tags, vec![Tag::Auto(AutoTag::Alcoholic)]);
}

#[test]
fn empty_recipe_is_empty() {
    let recipe: Recipe<Decimal> = Recipe::new("Nichts".to_owned(), Vec::new());
    assert_eq!(recipe.name, "Nichts");
    assert_eq!(recipe.description, "");
    assert!(recipe.ingredients.is_empty());
    assert!(recipe.instructions.is_empty());
    assert!(recipe.tags.is_empty());
}

#[test]
fn recipe_lists_ingredients_by_name_in_the_order_given() {
    let coke: Ingredient<Decimal> = Ingredient::new("Cola".to_owned());
    let juice: Ingredient<Decimal> = Ingredient::new("Apfelsaft".to_owned());
    let ice: Ingredient<Decimal> = Ingredient::new("Eis".to_owned());
    let recipe = Recipe::new(
        "Apfelcola".to_owned(),
        vec![(&coke, litres(2, 1)), (&juice, litres(15, 2)), (&ice, litres(5, 2)), (&coke, litres(1, 2))],
    );
    assert_eq!(recipe.name, "Apfelcola");
    assert_eq!(recipe.description, "");
    assert!(recipe.instructions.is_empty());
    let names: Vec<&str> = recipe.ingredients.iter().map(|entry| entry.0.as_str()).collect();
    assert_eq!(names, vec!["Cola", "Apfelsaft", "Eis", "Cola"]);
    let amounts: Vec<String> =
        recipe.ingredients.iter().map(|entry| entry.1.to_display_string()).collect();
    assert_eq!(amounts, vec!["0.2l", "0.15l", "5cl", "1cl"]);
}

#[test]
fn recipe_does_not_follow_later_changes_of_an_ingredient() {
    let mut coke: Ingredient<Decimal> = Ingredient::new("Cola".to_owned());
    let recipe = Recipe::new("Pur".to_owned(), vec![(&coke, litres(2, 1))]);
    coke.name = "Whisky".to_owned();
    coke.tags.push(Tag::Auto(AutoTag::Alcoholic));
    assert_eq!(recipe.ingredients[0].0, "Cola");
    assert!(recipe.tags.is_empty());
    let again = Recipe::new("Pur".to_owned(), vec![(&coke, litres(2, 1))]);
    assert_eq!(again.ingredients[0].0, "Whisky");
    assert_eq!(again.tags, vec![Tag::Auto(AutoTag::Alcoholic)]);
}

#[test]
fn description_and_instructions_are_open_to_the_owner() {
    let coke: Ingredient<Decimal> = Ingredient::new("Cola".to_owned());
    let mut recipe = Recipe::new("Pur".to_owned(), vec![(&coke, litres(2, 1))]);
    recipe.description = "Nur Cola".to_owned();
    recipe.instructions = vec!["Cola eingiessen".to_owned()];
    assert_eq!(recipe.description, "Nur Cola");
    assert_eq!(recipe.instructions.len(), 1);
    assert_eq!(recipe.ingredients.len(), 1);
}

#[test]
fn tags_follow_from_the_ingredients_alone() {
    let rum = Ingredient::with_alcohol("Rum".to_owned(), 40i64);
    let coke: Ingredient<i64> = Ingredient::new("Cola".to_owned());
    let glass = |n: i64| Amount { value: Range::from_scalar(n), unit: MeasurementUnit::Unitless };
    assert_eq!(
        auto_tags_for(&vec![(&coke, glass(1)), (&rum, glass(2))]),
        vec![Tag::Auto(AutoTag::Alcoholic)]
    );
    assert!(auto_tags_for(&vec![(&coke, glass(1)), (&coke, glass(2))]).is_empty());
    assert!(auto_tags_for::<i64>(&Vec::new()).is_empty());
}
