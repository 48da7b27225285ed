//! What holds of every recipe and of every attempt to make one.
//!
//! Each law speaks of the functions themselves: `call_ensures(f, args, out)`
//! says that `out` is a result that the call `f(args)` may give.

use crate::domain::clock::Timestamp;
use crate::domain::missing::{lemma_texts_tell_reasons_apart, Missing};
use crate::domain::recipe::{
    first_missing, Recipe, RecipeId, RecipeIngredients, RecipeInstructions, RecipeName,
    RecipeTags,
};
use vstd::prelude::*;

verus! {

/// Round trip: input whose name, tags, ingredients and instructions are all
/// filled is accepted whatever the identifier is, and the recipe says what
/// was put in. An empty identifier comes back as no identity, any other as
/// itself, and the time of making is recorded.
pub proof fn lemma_filled_input_round_trips(
    id: String,
    name: String,
    tags: Vec<String>,
    ingredients: Vec<String>,
    instructions: Vec<String>,
    made: Result<Recipe, String>,
)
    requires
        name@.len() > 0,
        tags@.len() > 0,
        ingredients@.len() > 0,
        instructions@.len() > 0,
        call_ensures(Recipe::new, (id, name, tags, ingredients, instructions), made),
    ensures
        made is Ok,
        made->Ok_0.id@ == RecipeId::assigned(id@),
        id@.len() == 0 ==> made->Ok_0.id@ is None,
        id@.len() > 0 ==> made->Ok_0.id@ == Some(id@),
        made->Ok_0.name@ == name@,
        made->Ok_0.tags@ == tags.deep_view(),
        made->Ok_0.ingredients@ == ingredients.deep_view(),
        made->Ok_0.instructions@ == instructions.deep_view(),
        made->Ok_0.published_at is Some,
{
}

/// Fail fast: where a required field is empty no recipe is made, and the
/// message is that of the first empty field in the order name, tags,
/// ingredients, instructions, whatever the fields after it hold.
pub proof fn lemma_first_empty_field_is_reported(
    id: String,
    name: String,
    tags: Vec<String>,
    ingredients: Vec<String>,
    instructions: Vec<String>,
    made: Result<Recipe, String>,
)
    requires
        call_ensures(Recipe::new, (id, name, tags, ingredients, instructions), made),
    ensures
        name@.len() == 0 ==> made is Err && made->Err_0@ == Missing::Name.text(),
        name@.len() > 0 && tags@.len() == 0 ==> made is Err && made->Err_0@
            == Missing::Tags.text(),
        name@.len() > 0 && tags@.len() > 0 && ingredients@.len() == 0 ==> made is Err
            && made->Err_0@ == Missing::Ingredients.text(),
        name@.len() > 0 && tags@.len() > 0 && ingredients@.len() > 0 && instructions@.len() == 0
            ==> made is Err && made->Err_0@ == Missing::Instructions.text(),
{
}

/// The message alone tells which field was missing: a refusal that carries
/// the text of a reason was given for that reason and no other.
pub proof fn lemma_message_tells_the_field(
    id: String,
    name: String,
    tags: Vec<String>,
    ingredients: Vec<String>,
    instructions: Vec<String>,
    made: Result<Recipe, String>,
    reason: Missing,
)
    requires
        call_ensures(Recipe::new, (id, name, tags, ingredients, instructions), made),
        made is Err,
        made->Err_0@ == reason.text(),
    ensures
        first_missing(
            name@,
            tags.deep_view(),
            ingredients.deep_view(),
            instructions.deep_view(),
        ) == Some(reason),
{
    let found = first_missing(
        name@,
        tags.deep_view(),
        ingredients.deep_view(),
        instructions.deep_view(),
    );
    assert(found is Some);
    if found->Some_0 != reason {
        lemma_texts_tell_reasons_apart(found->Some_0, reason);
    }
}

/// With the time given, making a recipe is repeatable: two attempts on the
/// same input at the same time end alike, with recipes that say the same or
/// with the same message.
pub proof fn lemma_making_at_a_time_is_repeatable(
    id: String,
    name: String,
    tags: Vec<String>,
    ingredients: Vec<String>,
    instructions: Vec<String>,
    now: Timestamp,
    first: Result<Recipe, String>,
    second: Result<Recipe, String>,
)
    requires
        call_ensures(Recipe::new_at, (id, name, tags, ingredients, instructions, now), first),
        call_ensures(Recipe::new_at, (id, name, tags, ingredients, instructions, now), second),
    ensures
        first is Ok <==> second is Ok,
        first is Ok ==> first->Ok_0@ == second->Ok_0@ && first->Ok_0.published_at == Some(now),
        first is Err ==> first->Err_0@ == second->Err_0@,
{
}

/// Two reads of one identity agree.
pub proof fn lemma_id_reads_agree(id: RecipeId)
    ensures
        forall|first: &Option<String>, second: &Option<String>|
            #![trigger call_ensures(RecipeId::value, (&id,), first), call_ensures(RecipeId::value, (&id,), second)]
            call_ensures(RecipeId::value, (&id,), first) && call_ensures(
                RecipeId::value,
                (&id,),
                second,
            ) ==> first.deep_view() == second.deep_view(),
{
}

/// Two reads of one name agree.
pub proof fn lemma_name_reads_agree(name: RecipeName)
    ensures
        forall|first: &String, second: &String|
            #![trigger call_ensures(RecipeName::value, (&name,), first), call_ensures(RecipeName::value, (&name,), second)]
            call_ensures(RecipeName::value, (&name,), first) && call_ensures(
                RecipeName::value,
                (&name,),
                second,
            ) ==> first@ == second@,
{
}

/// Two reads of one list of tags agree.
pub proof fn lemma_tags_reads_agree(tags: RecipeTags)
    ensures
        forall|first: &Vec<String>, second: &Vec<String>|
            #![trigger call_ensures(RecipeTags::value, (&tags,), first), call_ensures(RecipeTags::value, (&tags,), second)]
            call_ensures(RecipeTags::value, (&tags,), first) && call_ensures(
                RecipeTags::value,
                (&tags,),
                second,
            ) ==> first.deep_view() == second.deep_view(),
{
}

/// Two reads of one list of ingredients agree.
pub proof fn lemma_ingredients_reads_agree(ingredients: RecipeIngredients)
    ensures
        forall|first: &Vec<String>, second: &Vec<String>|
            #![trigger call_ensures(RecipeIngredients::value, (&ingredients,), first), call_ensures(RecipeIngredients::value, (&ingredients,), second)]
            call_ensures(RecipeIngredients::value, (&ingredients,), first) && call_ensures(
                RecipeIngredients::value,
                (&ingredients,),
                second,
            ) ==> first.deep_view() == second.deep_view(),
{
}

/// Two reads of one list of instructions agree.
pub proof fn lemma_instructions_reads_agree(instructions: RecipeInstructions)
    ensures
        forall|first: &Vec<String>, second: &Vec<String>|
            #![trigger call_ensures(RecipeInstructions::value, (&instructions,), first), call_ensures(RecipeInstructions::value, (&instructions,), second)]
            call_ensures(RecipeInstructions::value, (&instructions,), first) && call_ensures(
                RecipeInstructions::value,
                (&instructions,),
                second,
            ) ==> first.deep_view() == second.deep_view(),
{
}

/// Two reads of one field of a recipe hand out the same value object, and
/// that is the field itself.
pub proof fn lemma_recipe_reads_agree(recipe: Recipe)
    ensures
        forall|first: &RecipeId, second: &RecipeId|
            #![trigger call_ensures(Recipe::id, (&recipe,), first), call_ensures(Recipe::id, (&recipe,), second)]
            call_ensures(Recipe::id, (&recipe,), first) && call_ensures(
                Recipe::id,
                (&recipe,),
                second,
            ) ==> first == second,
        forall|first: &RecipeName, second: &RecipeName|
            #![trigger call_ensures(Recipe::name, (&recipe,), first), call_ensures(Recipe::name, (&recipe,), second)]
            call_ensures(Recipe::name, (&recipe,), first) && call_ensures(
                Recipe::name,
                (&recipe,),
                second,
            ) ==> first == second,
        forall|first: &RecipeTags, second: &RecipeTags|
            #![trigger call_ensures(Recipe::tags, (&recipe,), first), call_ensures(Recipe::tags, (&recipe,), second)]
            call_ensures(Recipe::tags, (&recipe,), first) && call_ensures(
                Recipe::tags,
                (&recipe,),
                second,
            ) ==> first == second,
        forall|first: &RecipeIngredients, second: &RecipeIngredients|
            #![trigger call_ensures(Recipe::ingredients, (&recipe,), first), call_ensures(Recipe::ingredients, (&recipe,), second)]
            call_ensures(Recipe::ingredients, (&recipe,), first) && call_ensures(
                Recipe::ingredients,
                (&recipe,),
                second,
            ) ==> first == second,
        forall|first: &RecipeInstructions, second: &RecipeInstructions|
            #![trigger call_ensures(Recipe::instructions, (&recipe,), first), call_ensures(Recipe::instructions, (&recipe,), second)]
            call_ensures(Recipe::instructions, (&recipe,), first) && call_ensures(
                Recipe::instructions,
                (&recipe,),
                second,
            ) ==> first == second,
{
}

} // verus!
