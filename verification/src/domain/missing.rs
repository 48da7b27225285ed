//! The reasons for which a recipe is refused, and the text that reports each.

use vstd::prelude::*;

verus! {

/// What a refused recipe lacked. Each required field has one reason of its
/// own; the identifier has none, since a recipe may be new.
#[derive(Debug, Clone, Copy, PartialEq, Eq, Structural)]
pub enum Missing {
    /// The name was empty.
    Name,
    /// There was no tag.
    Tags,
    /// There was no ingredient.
    Ingredients,
    /// There was no instruction.
    Instructions,
}

impl Missing {
    /// The message that reports this reason, as a value.
    pub open spec fn wording(self) -> &'static str {
        match self {
            Missing::Name => "A receita precisa ter um nome",
            Missing::Tags => "A receita precisa pelo menos de uma tag",
            Missing::Ingredients => "A receita precisa pelo menos de um ingrediente",
            Missing::Instructions => "A receita precisa pelo menos de uma instrução",
        }
    }

    /// The characters of the message that reports this reason.
    pub open spec fn text(self) -> Seq<char> {
        self.wording()@
    }

    /// The message that reports this reason.
    pub fn message(self) -> (message: &'static str)
        ensures
            message == self.wording(),
            message@ == self.text(),
    {
        match self {
            Missing::Name => "A receita precisa ter um nome",
            Missing::Tags => "A receita precisa pelo menos de uma tag",
            Missing::Ingredients => "A receita precisa pelo menos de um ingrediente",
            Missing::Instructions => "A receita precisa pelo menos de uma instrução",
        }
    }
}

/// Two different reasons are never reported by the same text, so a caller who
/// sees only the message still knows which field was missing.
pub proof fn lemma_texts_tell_reasons_apart(a: Missing, b: Missing)
    requires
        a != b,
    ensures
        a.text() != b.text(),
{
    reveal_strlit("A receita precisa ter um nome");
    reveal_strlit("A receita precisa pelo menos de uma tag");
    reveal_strlit("A receita precisa pelo menos de um ingrediente");
    reveal_strlit("A receita precisa pelo menos de uma instrução");
    assert(Missing::Name.text().len() == 29);
    assert(Missing::Tags.text().len() == 39);
    assert(Missing::Ingredients.text().len() == 46);
    assert(Missing::Instructions.text().len() == 45);
}

} // verus!
