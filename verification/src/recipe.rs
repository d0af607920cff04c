//! A recipe and its mathematical model.

use vstd::prelude::*;

verus! {

/// A named item with ordered ingredients and ordered instructions.
/// The name is the recipe's identity; the number of instructions is its step count.
#[derive(Debug, PartialEq, Eq)]
pub struct Recipe {
    pub name: String,
    pub ingredients: Vec<String>,
    pub instructions: Vec<String>,
}

/// What a recipe is, as plain sequences of characters.
pub struct RecipeView {
    pub name: Seq<char>,
    pub ingredients: Seq<Seq<char>>,
    pub instructions: Seq<Seq<char>>,
}

impl View for Recipe {
    type V = RecipeView;

    open spec fn view(&self) -> RecipeView {
        RecipeView {
            name: self.name@,
            ingredients: self.ingredients.deep_view(),
            instructions: self.instructions.deep_view(),
        }
    }
}

impl RecipeView {
    /// The step count: the number of instructions.
    pub open spec fn num_steps(self) -> nat {
        self.instructions.len()
    }
}

/// A copy of a list of strings, equal to it text for text.
pub fn copy_strings(items: &Vec<String>) -> (copy: Vec<String>)
    ensures
        copy.deep_view() == items.deep_view(),
{
    let copy = items.clone();
    assert(copy.deep_view() =~= items.deep_view());
    copy
}

impl Recipe {
    /// Builds a recipe from its three parts.
    pub fn new(name: String, ingredients: Vec<String>, instructions: Vec<String>) -> (recipe: Recipe)
        ensures
            recipe.name == name,
            recipe.ingredients == ingredients,
            recipe.instructions == instructions,
    {
        Recipe { name, ingredients, instructions }
    }

    /// The step count: the number of instructions.
    pub fn num_steps(&self) -> (n: usize)
        ensures
            n == self@.num_steps(),
    {
        self.instructions.len()
    }
}

impl Clone for Recipe {
    fn clone(&self) -> (copy: Recipe)
        ensures
            copy@ == self@,
    {
        Recipe {
            name: self.name.clone(),
            ingredients: copy_strings(&self.ingredients),
            instructions: copy_strings(&self.instructions),
        }
    }
}

} // verus!
