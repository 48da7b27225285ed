//! The recipe aggregate and the value objects it is made of.

use crate::domain::clock::{now, Timestamp};
use crate::domain::missing::Missing;
use vstd::prelude::*;
use vstd::std_specs::cmp::PartialEqSpecImpl;
use vstd::std_specs::convert::TryFromSpecImpl;

verus! {

/// Whether two lists hold the same lines in the same order.
fn same_lines(left: &Vec<String>, right: &Vec<String>) -> (same: bool)
    ensures
        same == (left.deep_view() == right.deep_view()),
{
    if left.len() != right.len() {
        assert(left.deep_view().len() != right.deep_view().len());
        return false;
    }
    let mut at: usize = 0;
    while at < left.len()
        invariant
            left.len() == right.len(),
            at <= left.len(),
            forall|i: int| 0 <= i < at ==> left@[i]@ == right@[i]@,
        decreases left.len() - at,
    {
        if left[at] != right[at] {
            assert(left.deep_view()[at as int] != right.deep_view()[at as int]);
            return false;
        }
        at += 1;
    }
    assert(left.deep_view() =~= right.deep_view());
    true
}

/// A copy of a list, line for line.
fn copied_lines(lines: &Vec<String>) -> (copy: Vec<String>)
    ensures
        copy.deep_view() == lines.deep_view(),
        copy@.len() == lines@.len(),
{
    let copy = lines.clone();
    assert(copy.deep_view() =~= lines.deep_view());
    copy
}

/// The identity under which a recipe is stored. A recipe that was never
/// stored has none; one that has an identity has a text that is not empty.
#[derive(Debug)]
pub struct RecipeId(Option<String>);

impl View for RecipeId {
    type V = Option<Seq<char>>;

    closed spec fn view(&self) -> Option<Seq<char>> {
        match self.0 {
            Some(text) => Some(text@),
            None => None,
        }
    }
}

impl RecipeId {
    #[verifier::type_invariant]
    spec fn normal(&self) -> bool {
        self.0 matches Some(text) ==> text@.len() > 0
    }

    /// The identity that a text stands for: none where the text is empty,
    /// else the text itself.
    pub open spec fn assigned(text: Seq<char>) -> Option<Seq<char>> {
        if text.len() == 0 {
            None
        } else {
            Some(text)
        }
    }

    /// The identity, if the recipe has one.
    pub fn value(&self) -> (held: &Option<String>)
        ensures
            held.deep_view() == self@,
            held matches Some(text) ==> text@.len() > 0,
    {
        proof {
            use_type_invariant(self);
        }
        &self.0
    }
}

impl Clone for RecipeId {
    /// A copy that holds the same.
    fn clone(&self) -> (copy: Self)
        ensures
            copy@ == self@,
    {
        proof {
            use_type_invariant(self);
        }
        match &self.0 {
            Some(text) => RecipeId(Some(text.clone())),
            None => RecipeId(None),
        }
    }
}

impl TryFromSpecImpl<String> for RecipeId {
    open spec fn obeys_try_from_spec() -> bool {
        true
    }

    closed spec fn try_from_spec(value: String) -> Result<Self, &'static str> {
        if value@.len() == 0 {
            Ok(RecipeId(None))
        } else {
            Ok(RecipeId(Some(value)))
        }
    }
}

impl TryFrom<String> for RecipeId {
    type Error = &'static str;

    /// Takes a text as an identity. No text is refused: the empty one stands
    /// for a recipe without identity.
    fn try_from(id: String) -> (made: Result<Self, Self::Error>)
        ensures
            made is Ok,
            made->Ok_0@ == RecipeId::assigned(id@),
    {
        if id.as_str().is_empty() {
            Ok(RecipeId(None))
        } else {
            Ok(RecipeId(Some(id)))
        }
    }
}

/// The title of a recipe: a text that is never empty.
#[derive(Debug)]
pub struct RecipeName(String);

impl View for RecipeName {
    type V = Seq<char>;

    closed spec fn view(&self) -> Seq<char> {
        self.0@
    }
}

impl RecipeName {
    #[verifier::type_invariant]
    spec fn filled(&self) -> bool {
        self.0@.len() > 0
    }

    /// The text of the name.
    pub fn value(&self) -> (text: &String)
        ensures
            text@ == self@,
            text@.len() > 0,
    {
        proof {
            use_type_invariant(self);
        }
        &self.0
    }
}

impl Clone for RecipeName {
    /// A copy that holds the same.
    fn clone(&self) -> (copy: Self)
        ensures
            copy@ == self@,
    {
        proof {
            use_type_invariant(self);
        }
        RecipeName(self.0.clone())
    }
}

impl PartialEqSpecImpl for RecipeName {
    open spec fn obeys_eq_spec() -> bool {
        true
    }

    open spec fn eq_spec(&self, other: &Self) -> bool {
        self@ == other@
    }
}

impl PartialEq for RecipeName {
    /// Whether both hold the same text.
    fn eq(&self, other: &Self) -> (same: bool) {
        self.0 == other.0
    }
}

impl TryFromSpecImpl<String> for RecipeName {
    open spec fn obeys_try_from_spec() -> bool {
        true
    }

    closed spec fn try_from_spec(value: String) -> Result<Self, &'static str> {
        if value@.len() == 0 {
            Err(Missing::Name.wording())
        } else {
            Ok(RecipeName(value))
        }
    }
}

impl TryFrom<String> for RecipeName {
    type Error = &'static str;

    /// Takes a text as a name, and refuses the empty one.
    fn try_from(value: String) -> (made: Result<Self, Self::Error>)
        ensures
            value@.len() > 0 ==> made is Ok && made->Ok_0@ == value@,
            value@.len() == 0 ==> made == Err::<Self, &'static str>(Missing::Name.wording()),
    {
        if value.as_str().is_empty() {
            Err(Missing::Name.message())
        } else {
            Ok(RecipeName(value))
        }
    }
}

/// The labels under which a recipe is filed: a list with at least one entry.
#[derive(Debug)]
pub struct RecipeTags(Vec<String>);

impl View for RecipeTags {
    type V = Seq<Seq<char>>;

    closed spec fn view(&self) -> Seq<Seq<char>> {
        self.0.deep_view()
    }
}

impl RecipeTags {
    #[verifier::type_invariant]
    spec fn filled(&self) -> bool {
        self.0@.len() > 0
    }

    /// The tags, in the order in which they were given.
    pub fn value(&self) -> (list: &Vec<String>)
        ensures
            list.deep_view() == self@,
            list@.len() > 0,
    {
        proof {
            use_type_invariant(self);
        }
        &self.0
    }
}

impl Clone for RecipeTags {
    /// A copy that holds the same.
    fn clone(&self) -> (copy: Self)
        ensures
            copy@ == self@,
    {
        proof {
            use_type_invariant(self);
        }
        RecipeTags(copied_lines(&self.0))
    }
}

impl PartialEqSpecImpl for RecipeTags {
    open spec fn obeys_eq_spec() -> bool {
        true
    }

    open spec fn eq_spec(&self, other: &Self) -> bool {
        self@ == other@
    }
}

impl PartialEq for RecipeTags {
    /// Whether both hold the same lines, in the same order.
    fn eq(&self, other: &Self) -> (same: bool) {
        same_lines(&self.0, &other.0)
    }
}

impl TryFromSpecImpl<Vec<String>> for RecipeTags {
    open spec fn obeys_try_from_spec() -> bool {
        true
    }

    closed spec fn try_from_spec(value: Vec<String>) -> Result<Self, &'static str> {
        if value@.len() == 0 {
            Err(Missing::Tags.wording())
        } else {
            Ok(RecipeTags(value))
        }
    }
}

impl TryFrom<Vec<String>> for RecipeTags {
    type Error = &'static str;

    /// Takes a list as the tags, and refuses the empty one.
    fn try_from(value: Vec<String>) -> (made: Result<Self, Self::Error>)
        ensures
            value@.len() > 0 ==> made is Ok && made->Ok_0@ == value.deep_view(),
            value@.len() == 0 ==> made == Err::<Self, &'static str>(Missing::Tags.wording()),
    {
        if value.is_empty() {
            Err(Missing::Tags.message())
        } else {
            Ok(RecipeTags(value))
        }
    }
}

/// What a recipe is cooked from: a list with at least one line.
#[derive(Debug)]
pub struct RecipeIngredients(Vec<String>);

impl View for RecipeIngredients {
    type V = Seq<Seq<char>>;

    closed spec fn view(&self) -> Seq<Seq<char>> {
        self.0.deep_view()
    }
}

impl RecipeIngredients {
    #[verifier::type_invariant]
    spec fn filled(&self) -> bool {
        self.0@.len() > 0
    }

    /// The ingredient lines, in the order in which they were given.
    pub fn value(&self) -> (list: &Vec<String>)
        ensures
            list.deep_view() == self@,
            list@.len() > 0,
    {
        proof {
            use_type_invariant(self);
        }
        &self.0
    }
}

impl Clone for RecipeIngredients {
    /// A copy that holds the same.
    fn clone(&self) -> (copy: Self)
        ensures
            copy@ == self@,
    {
        proof {
            use_type_invariant(self);
        }
        RecipeIngredients(copied_lines(&self.0))
    }
}

impl PartialEqSpecImpl for RecipeIngredients {
    open spec fn obeys_eq_spec() -> bool {
        true
    }

    open spec fn eq_spec(&self, other: &Self) -> bool {
        self@ == other@
    }
}

impl PartialEq for RecipeIngredients {
    /// Whether both hold the same lines, in the same order.
    fn eq(&self, other: &Self) -> (same: bool) {
        same_lines(&self.0, &other.0)
    }
}

impl TryFromSpecImpl<Vec<String>> for RecipeIngredients {
    open spec fn obeys_try_from_spec() -> bool {
        true
    }

    closed spec fn try_from_spec(value: Vec<String>) -> Result<Self, &'static str> {
        if value@.len() == 0 {
            Err(Missing::Ingredients.wording())
        } else {
            Ok(RecipeIngredients(value))
        }
    }
}

impl TryFrom<Vec<String>> for RecipeIngredients {
    type Error = &'static str;

    /// Takes a list as the ingredients, and refuses the empty one.
    fn try_from(value: Vec<String>) -> (made: Result<Self, Self::Error>)
        ensures
            value@.len() > 0 ==> made is Ok && made->Ok_0@ == value.deep_view(),
            value@.len() == 0 ==> made == Err::<Self, &'static str>(Missing::Ingredients.wording()),
    {
        if value.is_empty() {
            Err(Missing::Ingredients.message())
        } else {
            Ok(RecipeIngredients(value))
        }
    }
}

/// How a recipe is cooked: a list with at least one step.
#[derive(Debug)]
pub struct RecipeInstructions(Vec<String>);

impl View for RecipeInstructions {
    type V = Seq<Seq<char>>;

    closed spec fn view(&self) -> Seq<Seq<char>> {
        self.0.deep_view()
    }
}

impl RecipeInstructions {
    #[verifier::type_invariant]
    spec fn filled(&self) -> bool {
        self.0@.len() > 0
    }

    /// The steps, in the order in which they were given.
    pub fn value(&self) -> (list: &Vec<String>)
        ensures
            list.deep_view() == self@,
            list@.len() > 0,
    {
        proof {
            use_type_invariant(self);
        }
        &self.0
    }
}

impl Clone for RecipeInstructions {
    /// A copy that holds the same.
    fn clone(&self) -> (copy: Self)
        ensures
            copy@ == self@,
    {
        proof {
            use_type_invariant(self);
        }
        RecipeInstructions(copied_lines(&self.0))
    }
}

impl PartialEqSpecImpl for RecipeInstructions {
    open spec fn obeys_eq_spec() -> bool {
        true
    }

    open spec fn eq_spec(&self, other: &Self) -> bool {
        self@ == other@
    }
}

impl PartialEq for RecipeInstructions {
    /// Whether both hold the same lines, in the same order.
    fn eq(&self, other: &Self) -> (same: bool) {
        same_lines(&self.0, &other.0)
    }
}

impl TryFromSpecImpl<Vec<String>> for RecipeInstructions {
    open spec fn obeys_try_from_spec() -> bool {
        true
    }

    closed spec fn try_from_spec(value: Vec<String>) -> Result<Self, &'static str> {
        if value@.len() == 0 {
            Err(Missing::Instructions.wording())
        } else {
            Ok(RecipeInstructions(value))
        }
    }
}

impl TryFrom<Vec<String>> for RecipeInstructions {
    type Error = &'static str;

    /// Takes a list as the instructions, and refuses the empty one.
    fn try_from(value: Vec<String>) -> (made: Result<Self, Self::Error>)
        ensures
            value@.len() > 0 ==> made is Ok && made->Ok_0@ == value.deep_view(),
            value@.len() == 0 ==> made == Err::<Self, &'static str>(Missing::Instructions.wording()),
    {
        if value.is_empty() {
            Err(Missing::Instructions.message())
        } else {
            Ok(RecipeInstructions(value))
        }
    }
}

/// What a recipe says, apart from how it is held in memory.
pub struct RecipeView {
    /// The identity, if the recipe has one.
    pub id: Option<Seq<char>>,
    /// The name.
    pub name: Seq<char>,
    /// The tags, in order.
    pub tags: Seq<Seq<char>>,
    /// The ingredient lines, in order.
    pub ingredients: Seq<Seq<char>>,
    /// The steps, in order.
    pub instructions: Seq<Seq<char>>,
    /// When the recipe was made, if that was recorded.
    pub published_at: Option<Timestamp>,
}

/// The first required field that is empty, in the order name, tags,
/// ingredients, instructions; none where all four are filled.
pub open spec fn first_missing(
    name: Seq<char>,
    tags: Seq<Seq<char>>,
    ingredients: Seq<Seq<char>>,
    instructions: Seq<Seq<char>>,
) -> Option<Missing> {
    if name.len() == 0 {
        Some(Missing::Name)
    } else if tags.len() == 0 {
        Some(Missing::Tags)
    } else if ingredients.len() == 0 {
        Some(Missing::Ingredients)
    } else if instructions.len() == 0 {
        Some(Missing::Instructions)
    } else {
        None
    }
}

/// What making a recipe at the time `now` comes to: the reason for which the
/// input is refused, or what the recipe says.
pub open spec fn construct(
    id: Seq<char>,
    name: Seq<char>,
    tags: Seq<Seq<char>>,
    ingredients: Seq<Seq<char>>,
    instructions: Seq<Seq<char>>,
    now: Timestamp,
) -> Result<RecipeView, Missing> {
    match first_missing(name, tags, ingredients, instructions) {
        Some(reason) => Err(reason),
        None => Ok(
            RecipeView {
                id: RecipeId::assigned(id),
                name,
                tags,
                ingredients,
                instructions,
                published_at: Some(now),
            },
        ),
    }
}

/// Whether `made` is how `outcome` is handed to a caller: the recipe that
/// says what was asked for, or the message of the reason.
pub open spec fn delivers(made: Result<Recipe, String>, outcome: Result<RecipeView, Missing>) -> bool {
    match outcome {
        Ok(said) => made is Ok && made->Ok_0@ == said,
        Err(reason) => made is Err && made->Err_0@ == reason.text(),
    }
}

/// A recipe: five validated fields and the time at which it was made.
#[derive(Debug)]
pub struct Recipe {
    /// The identity under which the recipe is stored, if it was stored.
    pub id: RecipeId,
    /// The title.
    pub name: RecipeName,
    /// The labels under which the recipe is filed.
    pub tags: RecipeTags,
    /// What the recipe is cooked from.
    pub ingredients: RecipeIngredients,
    /// How the recipe is cooked.
    pub instructions: RecipeInstructions,
    /// When the recipe was made.
    pub published_at: Option<Timestamp>,
}

impl View for Recipe {
    type V = RecipeView;

    open spec fn view(&self) -> RecipeView {
        RecipeView {
            id: self.id@,
            name: self.name@,
            tags: self.tags@,
            ingredients: self.ingredients@,
            instructions: self.instructions@,
            published_at: self.published_at,
        }
    }
}

impl Clone for Recipe {
    /// A copy that says the same.
    fn clone(&self) -> (copy: Self)
        ensures
            copy@ == self@,
    {
        Recipe {
            id: self.id.clone(),
            name: self.name.clone(),
            tags: self.tags.clone(),
            ingredients: self.ingredients.clone(),
            instructions: self.instructions.clone(),
            published_at: self.published_at,
        }
    }
}

impl Recipe {
    /// Makes a recipe from raw input and stamps it with the current time.
    ///
    /// The fields are checked in the order identifier, name, tags,
    /// ingredients, instructions, and the first one that fails is reported;
    /// the clock is read once, and only when all of them passed.
    pub fn new(
        id: String,
        name: String,
        tags: Vec<String>,
        ingredients: Vec<String>,
        instructions: Vec<String>,
    ) -> (made: Result<Self, String>)
        ensures
            exists|now: Timestamp|
                delivers(
                    made,
                    #[trigger] construct(
                        id@,
                        name@,
                        tags.deep_view(),
                        ingredients.deep_view(),
                        instructions.deep_view(),
                        now,
                    ),
                ),
    {
        let ghost asked = (
            id@,
            name@,
            tags.deep_view(),
            ingredients.deep_view(),
            instructions.deep_view(),
        );
        match Self::unpublished(id, name, tags, ingredients, instructions) {
            Ok(draft) => {
                let read = now();
                let made = Ok(draft.published(read));
                assert(delivers(made, construct(asked.0, asked.1, asked.2, asked.3, asked.4, read)));
                made
            },
            Err(message) => {
                let made = Err(message);
                let ghost any = Timestamp { seconds: 0, nanoseconds: 0, offset: 0 };
                assert(delivers(made, construct(asked.0, asked.1, asked.2, asked.3, asked.4, any)));
                made
            },
        }
    }

    /// Makes a recipe from raw input and stamps it with the time `now`, which
    /// the caller has read from a clock of its choice.
    ///
    /// The fields are checked in the order identifier, name, tags,
    /// ingredients, instructions, and the first one that fails is reported.
    pub fn new_at(
        id: String,
        name: String,
        tags: Vec<String>,
        ingredients: Vec<String>,
        instructions: Vec<String>,
        now: Timestamp,
    ) -> (made: Result<Self, String>)
        ensures
            delivers(
                made,
                construct(
                    id@,
                    name@,
                    tags.deep_view(),
                    ingredients.deep_view(),
                    instructions.deep_view(),
                    now,
                ),
            ),
    {
        match Self::unpublished(id, name, tags, ingredients, instructions) {
            Ok(draft) => Ok(draft.published(now)),
            Err(message) => Err(message),
        }
    }

    /// Checks the five fields in their order and puts them together, without
    /// a time.
    fn unpublished(
        id: String,
        name: String,
        tags: Vec<String>,
        ingredients: Vec<String>,
        instructions: Vec<String>,
    ) -> (made: Result<Self, String>)
        ensures
            match first_missing(
                name@,
                tags.deep_view(),
                ingredients.deep_view(),
                instructions.deep_view(),
            ) {
                Some(reason) => made is Err && made->Err_0@ == reason.text(),
                None => made is Ok && made->Ok_0@ == (RecipeView {
                    id: RecipeId::assigned(id@),
                    name: name@,
                    tags: tags.deep_view(),
                    ingredients: ingredients.deep_view(),
                    instructions: instructions.deep_view(),
                    published_at: None,
                }),
            },
    {
        let recipe_id = match RecipeId::try_from(id) {
            Ok(value) => value,
            Err(message) => return Err(message.to_owned()),
        };
        let recipe_name = match RecipeName::try_from(name) {
            Ok(value) => value,
            Err(message) => return Err(message.to_owned()),
        };
        let recipe_tags = match RecipeTags::try_from(tags) {
            Ok(value) => value,
            Err(message) => return Err(message.to_owned()),
        };
        let recipe_ingredients = match RecipeIngredients::try_from(ingredients) {
            Ok(value) => value,
            Err(message) => return Err(message.to_owned()),
        };
        let recipe_instructions = match RecipeInstructions::try_from(instructions) {
            Ok(value) => value,
            Err(message) => return Err(message.to_owned()),
        };
        Ok(
            Recipe {
                id: recipe_id,
                name: recipe_name,
                tags: recipe_tags,
                ingredients: recipe_ingredients,
                instructions: recipe_instructions,
                published_at: None,
            },
        )
    }

    /// The same recipe, stamped with the time `now`.
    fn published(self, now: Timestamp) -> (stamped: Self)
        ensures
            stamped@ == (RecipeView { published_at: Some(now), ..self@ }),
    {
        Recipe { published_at: Some(now), ..self }
    }

    /// The identity of the recipe.
    pub fn id(&self) -> (id: &RecipeId)
        ensures
            *id == self.id,
            id@ == self@.id,
    {
        &self.id
    }

    /// The name of the recipe.
    pub fn name(&self) -> (name: &RecipeName)
        ensures
            *name == self.name,
            name@ == self@.name,
    {
        &self.name
    }

    /// The tags of the recipe.
    pub fn tags(&self) -> (tags: &RecipeTags)
        ensures
            *tags == self.tags,
            tags@ == self@.tags,
    {
        &self.tags
    }

    /// The ingredients of the recipe.
    pub fn ingredients(&self) -> (ingredients: &RecipeIngredients)
        ensures
            *ingredients == self.ingredients,
            ingredients@ == self@.ingredients,
    {
        &self.ingredients
    }

    /// The instructions of the recipe.
    pub fn instructions(&self) -> (instructions: &RecipeInstructions)
        ensures
            *instructions == self.instructions,
            instructions@ == self@.instructions,
    {
        &self.instructions
    }
}

} // verus!
