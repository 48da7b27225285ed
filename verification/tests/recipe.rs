use recipes::domain::clock::Timestamp;
use recipes::domain::recipe::{
    Recipe, RecipeId, RecipeIngredients, RecipeInstructions, RecipeName, RecipeTags,
};

const STEP: &str = "To marinate the chicken: In a non-reactive dish, combine the lemon juice, olive oil, oregano, salt, and pepper and mix together";

fn chicken_tags() -> Vec<String> {
    vec!["main".to_string(), "chicken".to_string()]
}

fn chicken_ingredients() -> Vec<String> {
    vec!["4 (6 to 7-ounce) boneless skinless chicken breasts\r".to_string()]
}

fn chicken_instructions() -> Vec<String> {
    vec![STEP.to_string()]
}

fn noon() -> Timestamp {
    Timestamp { seconds: 1_700_000_000, nanoseconds: 250, offset: -10_800 }
}

#[test]
fn should_create_the_expected_recipe() {
    let tags = vec!["main".to_string(), "chicken".to_string()];
    let ingredients = vec!["4 (6 to 7-ounce) boneless skinless chicken breasts\r".to_string()];
    let instructions = vec!["To marinate the chicken: In a non-reactive dish, combine the lemon juice, olive oil, oregano, salt, and pepper and mix together".to_string()];
    let name: &str = "Oregano Marinated Chicken";

    let new_recipe = Recipe::new(
        "10".to_string(),
        name.to_string(),
        tags.clone(),
        ingredients.clone(),
        instructions.clone(),
    )
    .unwrap();

    assert_eq!(new_recipe.name.value(), name);
    assert_eq!(tags.len(), new_recipe.tags.value().len());
    assert_eq!(ingredients.len(), new_recipe.ingredients.value().len());
    for (i, exp_ins) in instructions.into_iter().enumerate() {
        assert_eq!(exp_ins, new_recipe.instructions.value()[i])
    }
}

#[test]
fn should_fail_without_a_name_or_ingredients_or_tags_or_instructions() {
    let tags = vec!["main".to_string(), "chicken".to_string()];
    let ingredients = vec!["4 (6 to 7-ounce) boneless skinless chicken breasts\r".to_string()];
    let instructions = vec!["To marinate the chicken: In a non-reactive dish, combine the lemon juice, olive oil, oregano, salt, and pepper and mix together".to_string()];
    let name = "Oregano Marinated Chicken";

    let err_recipe = Recipe::new(
        "10".to_string(),
        "".to_string(),
        tags.clone(),
        ingredients.clone(),
        instructions.clone(),
    );
    assert_eq!(err_recipe.is_err(), true);
    assert_eq!(err_recipe.unwrap_err(), "A receita precisa ter um nome");

    let err_recipe = Recipe::new(
        "10".to_string(),
        name.to_string(),
        vec![],
        ingredients.clone(),
        instructions.clone(),
    );
    assert_eq!(err_recipe.is_err(), true);
    assert_eq!(
        err_recipe.unwrap_err(),
        "A receita precisa pelo menos de uma tag"
    );

    let err_recipe = Recipe::new(
        "10".to_string(),
        name.to_string(),
        tags.clone(),
        vec![],
        instructions.clone(),
    );
    assert_eq!(err_recipe.is_err(), true);
    assert_eq!(
        err_recipe.unwrap_err(),
        "A receita precisa pelo menos de um ingrediente"
    );

    let err_recipe = Recipe::new(
        "10".to_string(),
        name.to_string(),
        tags.clone(),
        ingredients.clone(),
        vec![],
    );
    assert_eq!(err_recipe.is_err(), true);
    assert_eq!(
        err_recipe.unwrap_err(),
        "A receita precisa pelo menos de uma instrução"
    );
}

#[test]
fn oregano_chicken_is_made_as_given() {
    let recipe = Recipe::new(
        "10".to_string(),
        "Oregano Marinated Chicken".to_string(),
        chicken_tags(),
        chicken_ingredients(),
        chicken_instructions(),
    )
    .unwrap();

    assert_eq!(recipe.name().value(), "Oregano Marinated Chicken");
    assert_eq!(recipe.tags().value().len(), 2);
    assert_eq!(recipe.ingredients().value().len(), 1);
    assert_eq!(recipe.instructions().value()[0], STEP);
    assert_eq!(recipe.id().value(), &Some("10".to_string()));
    assert!(recipe.published_at.is_some());
}

#[test]
fn filled_input_round_trips() {
    let tags = vec!["a".to_string(), "b".to_string(), "a".to_string()];
    let ingredients = vec!["".to_string(), "salt".to_string()];
    let instructions = vec!["stir".to_string()];
    let recipe = Recipe::new(
        "x-1".to_string(),
        "n".to_string(),
        tags.clone(),
        ingredients.clone(),
        instructions.clone(),
    )
    .unwrap();

    assert_eq!(recipe.id().value(), &Some("x-1".to_string()));
    assert_eq!(recipe.name().value(), "n");
    assert_eq!(recipe.tags().value(), &tags);
    assert_eq!(recipe.ingredients().value(), &ingredients);
    assert_eq!(recipe.instructions().value(), &instructions);
    assert!(recipe.published_at.is_some());
}

#[test]
fn empty_identifier_is_no_identity() {
    let recipe = Recipe::new(
        "".to_string(),
        "Soup".to_string(),
        chicken_tags(),
        chicken_ingredients(),
        chicken_instructions(),
    )
    .unwrap();
    assert_eq!(recipe.id().value(), &None);
    assert!(recipe.id.value().is_none());

    let id = RecipeId::try_from("".to_string()).unwrap();
    assert_eq!(id.value(), &None);
}

#[test]
fn filled_identifier_is_kept() {
    let recipe = Recipe::new(
        "abc".to_string(),
        "Soup".to_string(),
        chicken_tags(),
        chicken_ingredients(),
        chicken_instructions(),
    )
    .unwrap();
    assert_eq!(recipe.id().value(), &Some("abc".to_string()));

    let id = RecipeId::try_from("abc".to_string()).unwrap();
    assert_eq!(id.value().as_deref(), Some("abc"));
}

#[test]
fn empty_name_is_refused() {
    let made = Recipe::new(
        "10".to_string(),
        String::new(),
        chicken_tags(),
        chicken_ingredients(),
        chicken_instructions(),
    );
    assert_eq!(made.unwrap_err(), "A receita precisa ter um nome");
}

#[test]
fn empty_tags_are_refused() {
    let made = Recipe::new(
        "10".to_string(),
        "Soup".to_string(),
        Vec::new(),
        chicken_ingredients(),
        chicken_instructions(),
    );
    assert_eq!(made.unwrap_err(), "A receita precisa pelo menos de uma tag");
}

#[test]
fn empty_ingredients_are_refused() {
    let made = Recipe::new(
        "10".to_string(),
        "Soup".to_string(),
        chicken_tags(),
        Vec::new(),
        chicken_instructions(),
    );
    assert_eq!(made.unwrap_err(), "A receita precisa pelo menos de um ingrediente");
}

#[test]
fn empty_instructions_are_refused() {
    let made = Recipe::new(
        "10".to_string(),
        "Soup".to_string(),
        chicken_tags(),
        chicken_ingredients(),
        Vec::new(),
    );
    assert_eq!(made.unwrap_err(), "A receita precisa pelo menos de uma instrução");
}

#[test]
fn name_is_checked_before_tags() {
    let made = Recipe::new(
        "10".to_string(),
        String::new(),
        Vec::new(),
        chicken_ingredients(),
        chicken_instructions(),
    );
    assert_eq!(made.unwrap_err(), "A receita precisa ter um nome");
}

#[test]
fn the_first_empty_field_in_order_is_reported() {
    let all_empty = Recipe::new(String::new(), String::new(), vec![], vec![], vec![]);
    assert_eq!(all_empty.unwrap_err(), "A receita precisa ter um nome");

    let from_tags = Recipe::new(String::new(), "n".to_string(), vec![], vec![], vec![]);
    assert_eq!(from_tags.unwrap_err(), "A receita precisa pelo menos de uma tag");

    let from_ingredients =
        Recipe::new(String::new(), "n".to_string(), chicken_tags(), vec![], vec![]);
    assert_eq!(
        from_ingredients.unwrap_err(),
        "A receita precisa pelo menos de um ingrediente"
    );

    let tags_and_instructions =
        Recipe::new("7".to_string(), "n".to_string(), vec![], chicken_ingredients(), vec![]);
    assert_eq!(
        tags_and_instructions.unwrap_err(),
        "A receita precisa pelo menos de uma tag"
    );
}

#[test]
fn a_list_of_one_empty_line_is_not_empty() {
    let blank = vec![String::new()];
    let recipe = Recipe::new(
        String::new(),
        " ".to_string(),
        blank.clone(),
        blank.clone(),
        blank.clone(),
    )
    .unwrap();
    assert_eq!(recipe.name().value(), " ");
    assert_eq!(recipe.tags().value(), &blank);
    assert_eq!(recipe.ingredients().value(), &blank);
    assert_eq!(recipe.instructions().value(), &blank);
}

#[test]
fn a_given_time_is_the_time_of_making() {
    let recipe = Recipe::new_at(
        "10".to_string(),
        "Soup".to_string(),
        chicken_tags(),
        chicken_ingredients(),
        chicken_instructions(),
        noon(),
    )
    .unwrap();
    assert_eq!(recipe.published_at, Some(noon()));
    assert_eq!(recipe.published_at.unwrap().seconds, 1_700_000_000);
    assert_eq!(recipe.published_at.unwrap().nanoseconds, 250);
    assert_eq!(recipe.published_at.unwrap().offset, -10_800);
    assert_eq!(recipe.name().value(), "Soup");
    assert_eq!(recipe.id().value(), &Some("10".to_string()));
    assert_eq!(recipe.tags().value(), &chicken_tags());
}

#[test]
fn making_at_a_given_time_is_repeatable() {
    let make = || {
        Recipe::new_at(
            "".to_string(),
            "Soup".to_string(),
            chicken_tags(),
            chicken_ingredients(),
            chicken_instructions(),
            noon(),
        )
        .unwrap()
    };
    let first = make();
    let second = make();
    assert_eq!(first.published_at, second.published_at);
    assert_eq!(first.id().value(), second.id().value());
    assert!(first.name == second.name);
    assert!(first.tags == second.tags);
    assert!(first.ingredients == second.ingredients);
    assert!(first.instructions == second.instructions);
}

#[test]
fn making_at_a_given_time_reports_the_same_refusals() {
    let no_name = Recipe::new_at(
        "10".to_string(),
        String::new(),
        vec![],
        chicken_ingredients(),
        chicken_instructions(),
        noon(),
    );
    assert_eq!(no_name.unwrap_err(), "A receita precisa ter um nome");

    let no_tags = Recipe::new_at(
        "10".to_string(),
        "Soup".to_string(),
        vec![],
        vec![],
        chicken_instructions(),
        noon(),
    );
    assert_eq!(no_tags.unwrap_err(), "A receita precisa pelo menos de uma tag");

    let no_ingredients = Recipe::new_at(
        "10".to_string(),
        "Soup".to_string(),
        chicken_tags(),
        vec![],
        vec![],
        noon(),
    );
    assert_eq!(
        no_ingredients.unwrap_err(),
        "A receita precisa pelo menos de um ingrediente"
    );

    let no_instructions = Recipe::new_at(
        "10".to_string(),
        "Soup".to_string(),
        chicken_tags(),
        chicken_ingredients(),
        vec![],
        noon(),
    );
    assert_eq!(
        no_instructions.unwrap_err(),
        "A receita precisa pelo menos de uma instrução"
    );
}

#[test]
fn the_clock_is_read_when_a_recipe_is_made() {
    let before = chrono::Local::now();
    let recipe = Recipe::new(
        "10".to_string(),
        "Soup".to_string(),
        chicken_tags(),
        chicken_ingredients(),
        chicken_instructions(),
    )
    .unwrap();
    let after = chrono::Local::now();

    let stamp = recipe.published_at.unwrap();
    assert!(before.timestamp() <= stamp.seconds);
    assert!(stamp.seconds <= after.timestamp());
    assert!(stamp.nanoseconds < 2_000_000_000);
    assert!(
        stamp.offset == before.offset().local_minus_utc()
            || stamp.offset == after.offset().local_minus_utc()
    );
}

#[test]
fn value_objects_refuse_empty_input() {
    assert_eq!(
        RecipeName::try_from(String::new()).unwrap_err(),
        "A receita precisa ter um nome"
    );
    assert_eq!(
        RecipeTags::try_from(Vec::new()).unwrap_err(),
        "A receita precisa pelo menos de uma tag"
    );
    assert_eq!(
        RecipeIngredients::try_from(Vec::new()).unwrap_err(),
        "A receita precisa pelo menos de um ingrediente"
    );
    assert_eq!(
        RecipeInstructions::try_from(Vec::new()).unwrap_err(),
        "A receita precisa pelo menos de uma instrução"
    );
}

#[test]
fn value_objects_keep_what_they_were_given() {
    let name = RecipeName::try_from("Soup".to_string()).unwrap();
    assert_eq!(name.value(), "Soup");

    let lines = vec!["one".to_string(), "two".to_string()];
    let tags = RecipeTags::try_from(lines.clone()).unwrap();
    assert_eq!(tags.value(), &lines);
    let ingredients = RecipeIngredients::try_from(lines.clone()).unwrap();
    assert_eq!(ingredients.value(), &lines);
    let instructions = RecipeInstructions::try_from(lines.clone()).unwrap();
    assert_eq!(instructions.value(), &lines);
}

#[test]
fn reading_twice_gives_the_same() {
    let recipe = Recipe::new(
        "10".to_string(),
        "Soup".to_string(),
        chicken_tags(),
        chicken_ingredients(),
        chicken_instructions(),
    )
    .unwrap();

    assert_eq!(recipe.id().value(), recipe.id().value());
    assert_eq!(recipe.name().value(), recipe.name().value());
    assert_eq!(recipe.tags().value(), recipe.tags().value());
    assert_eq!(recipe.ingredients().value(), recipe.ingredients().value());
    assert_eq!(recipe.instructions().value(), recipe.instructions().value());
    assert!(recipe.name() == recipe.name());
    assert!(recipe.tags() == recipe.tags());
    assert!(std::ptr::eq(recipe.name(), &recipe.name));
    assert!(std::ptr::eq(recipe.tags(), &recipe.tags));
}

#[test]
fn names_are_equal_when_their_texts_are() {
    let soup = RecipeName::try_from("Soup".to_string()).unwrap();
    let same = RecipeName::try_from("Soup".to_string()).unwrap();
    let stew = RecipeName::try_from("Stew".to_string()).unwrap();
    assert!(soup == same);
    assert!(soup != stew);
}

#[test]
fn lists_are_equal_when_their_lines_are() {
    let ab = vec!["a".to_string(), "b".to_string()];
    let ba = vec!["b".to_string(), "a".to_string()];
    let a = vec!["a".to_string()];
    let abc = vec!["a".to_string(), "b".to_string(), "c".to_string()];

    let tags = RecipeTags::try_from(ab.clone()).unwrap();
    assert!(tags == RecipeTags::try_from(ab.clone()).unwrap());
    assert!(tags != RecipeTags::try_from(ba.clone()).unwrap());
    assert!(tags != RecipeTags::try_from(a.clone()).unwrap());
    assert!(tags != RecipeTags::try_from(abc.clone()).unwrap());

    let ingredients = RecipeIngredients::try_from(ab.clone()).unwrap();
    assert!(ingredients == RecipeIngredients::try_from(ab.clone()).unwrap());
    assert!(ingredients != RecipeIngredients::try_from(ba.clone()).unwrap());
    assert!(ingredients != RecipeIngredients::try_from(a.clone()).unwrap());

    let instructions = RecipeInstructions::try_from(ab.clone()).unwrap();
    assert!(instructions == RecipeInstructions::try_from(ab).unwrap());
    assert!(instructions != RecipeInstructions::try_from(ba).unwrap());
    assert!(instructions != RecipeInstructions::try_from(abc).unwrap());
}

#[test]
fn copies_say_the_same() {
    let recipe = Recipe::new_at(
        "10".to_string(),
        "Soup".to_string(),
        chicken_tags(),
        chicken_ingredients(),
        chicken_instructions(),
        noon(),
    )
    .unwrap();
    let copy = recipe.clone();

    assert_eq!(copy.id().value(), recipe.id().value());
    assert!(copy.name == recipe.name);
    assert!(copy.tags == recipe.tags);
    assert!(copy.ingredients == recipe.ingredients);
    assert!(copy.instructions == recipe.instructions);
    assert_eq!(copy.published_at, recipe.published_at);

    let absent = RecipeId::try_from(String::new()).unwrap();
    assert_eq!(absent.clone().value(), &None);
}
