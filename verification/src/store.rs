//! The recipe collection: an ordered sequence of recipes in which no two share
//! a name, with the operations that read and change it.

use vstd::prelude::*;
use crate::recipe::Recipe;
use crate::recipe::RecipeView;

verus! {

/// Why an operation on the collection failed.
#[derive(Clone, Copy, Debug, PartialEq, Eq, Structural)]
pub enum StoreError {
    /// The stored document is missing or cannot be reached.
    StorageUnavailable,
    /// The stored document is not a valid collection.
    CorruptDocument,
    /// A recipe with that name is already in the collection.
    Conflict,
    /// No recipe with that name is in the collection.
    NotFound,
}

/// The names of the recipes, in collection order.
pub open spec fn names_of(c: Seq<RecipeView>) -> Seq<Seq<char>> {
    Seq::new(c.len(), |i: int| c[i].name)
}

/// Some recipe of the collection has this name, compared character for character.
pub open spec fn has_name(c: Seq<RecipeView>, name: Seq<char>) -> bool {
    exists|i: int| 0 <= i < c.len() && (#[trigger] c[i]).name == name
}

/// No two recipes of the collection share a name.
pub open spec fn distinct_names(c: Seq<RecipeView>) -> bool {
    forall|i: int, j: int| 0 <= i < j < c.len() ==> (#[trigger] c[i]).name != (#[trigger] c[j]).name
}

/// Position `i` holds the first recipe with this name.
pub open spec fn is_first_match(c: Seq<RecipeView>, name: Seq<char>, i: int) -> bool {
    &&& 0 <= i < c.len()
    &&& c[i].name == name
    &&& forall|j: int| 0 <= j < i ==> (#[trigger] c[j]).name != name
}

/// The position of the first recipe with this name; meaningful where one exists.
pub open spec fn first_match(c: Seq<RecipeView>, name: Seq<char>) -> int {
    choose|i: int| is_first_match(c, name, i)
}

/// The recipe found under a name: the first one that carries it, if any.
pub open spec fn find_in(c: Seq<RecipeView>, name: Seq<char>) -> Option<RecipeView> {
    if has_name(c, name) {
        Some(c[first_match(c, name)])
    } else {
        None
    }
}

/// The collection after creating `r`: `r` appended at the end, or a conflict
/// when its name is taken.
pub open spec fn created(c: Seq<RecipeView>, r: RecipeView) -> Result<Seq<RecipeView>, StoreError> {
    if has_name(c, r.name) {
        Err(StoreError::Conflict)
    } else {
        Ok(c.push(r))
    }
}

/// The collection after replacing by `r`: the slot that carries `r`'s name
/// now holds `r`, or not-found when no slot carries it.
pub open spec fn replaced(c: Seq<RecipeView>, r: RecipeView) -> Result<Seq<RecipeView>, StoreError> {
    if has_name(c, r.name) {
        Ok(c.update(first_match(c, r.name), r))
    } else {
        Err(StoreError::NotFound)
    }
}

/// The models of a list of recipes, position by position.
pub open spec fn views_of(recipes: Seq<Recipe>) -> Seq<RecipeView> {
    Seq::new(recipes.len(), |i: int| recipes[i]@)
}

/// Where a name occurs, a first occurrence exists and `first_match` is one.
pub proof fn lemma_first_match(c: Seq<RecipeView>, name: Seq<char>)
    requires
        has_name(c, name),
    ensures
        is_first_match(c, name, first_match(c, name)),
{
    let k = choose|i: int| 0 <= i < c.len() && (#[trigger] c[i]).name == name;
    lemma_first_match_below(c, name, k);
}

/// A match at position `k` gives a first match at or before `k`.
proof fn lemma_first_match_below(c: Seq<RecipeView>, name: Seq<char>, k: int)
    requires
        0 <= k < c.len(),
        c[k].name == name,
    ensures
        exists|i: int| is_first_match(c, name, i),
    decreases k,
{
    if exists|j: int| 0 <= j < k && (#[trigger] c[j]).name == name {
        let j = choose|j: int| 0 <= j < k && (#[trigger] c[j]).name == name;
        lemma_first_match_below(c, name, j);
    } else {
        assert(is_first_match(c, name, k));
    }
}

/// A first match is the only first match.
pub proof fn lemma_first_match_unique(c: Seq<RecipeView>, name: Seq<char>, i: int)
    requires
        is_first_match(c, name, i),
    ensures
        has_name(c, name),
        first_match(c, name) == i,
{
    let m = first_match(c, name);
    assert(is_first_match(c, name, m));
    if m < i {
        assert(c[m].name != name);
    } else if i < m {
        assert(c[i].name != name);
    }
}

/// What reading the stored document gave.
#[derive(Debug)]
pub enum DocumentRead {
    /// The document is missing or cannot be reached.
    Missing,
    /// The document's contents are not a list of recipes.
    Malformed,
    /// The recipes that the document holds, in its order.
    Parsed(Vec<Recipe>),
}

/// The collection that a read yields: the recipes read, where they make a valid
/// collection, and otherwise the reason why there is none.
pub open spec fn loaded(document: DocumentRead) -> Result<Seq<RecipeView>, StoreError> {
    match document {
        DocumentRead::Missing => Err(StoreError::StorageUnavailable),
        DocumentRead::Malformed => Err(StoreError::CorruptDocument),
        DocumentRead::Parsed(recipes) => if distinct_names(views_of(recipes@)) {
            Ok(views_of(recipes@))
        } else {
            Err(StoreError::CorruptDocument)
        },
    }
}

/// The collection of recipes, in the order in which they were added.
/// No two of its recipes share a name.
#[derive(Debug)]
pub struct RecipeList {
    recipes: Vec<Recipe>,
}

impl View for RecipeList {
    type V = Seq<RecipeView>;

    closed spec fn view(&self) -> Seq<RecipeView> {
        views_of(self.recipes@)
    }
}

impl RecipeList {
    #[verifier::type_invariant]
    spec fn names_are_distinct(&self) -> bool {
        distinct_names(views_of(self.recipes@))
    }

    /// The empty collection.
    pub fn new() -> (list: RecipeList)
        ensures
            list@ == Seq::<RecipeView>::empty(),
    {
        let list = RecipeList { recipes: Vec::new() };
        assert(list@ =~= Seq::<RecipeView>::empty());
        list
    }

    /// The collection that holds exactly `recipes`, in their order. Fails with
    /// `CorruptDocument` where two of them share a name.
    pub fn from_recipes(recipes: Vec<Recipe>) -> (outcome: Result<RecipeList, StoreError>)
        ensures
            match outcome {
                Ok(list) => distinct_names(views_of(recipes@)) && list@ == views_of(recipes@),
                Err(e) => e == StoreError::CorruptDocument && !distinct_names(views_of(recipes@)),
            },
    {
        let ghost c = views_of(recipes@);
        let mut j: usize = 0;
        while j < recipes.len()
            invariant
                j <= recipes.len(),
                c == views_of(recipes@),
                forall|a: int, b: int| 0 <= a < b < j ==> (#[trigger] c[a]).name != (#[trigger] c[b]).name,
            decreases recipes.len() - j,
        {
            let mut i: usize = 0;
            while i < j
                invariant
                    i <= j < recipes.len(),
                    c == views_of(recipes@),
                    forall|a: int| 0 <= a < i ==> (#[trigger] c[a]).name != c[j as int].name,
                decreases j - i,
            {
                if recipes[i].name == recipes[j].name {
                    assert(c[i as int].name == c[j as int].name);
                    return Err(StoreError::CorruptDocument);
                }
                i += 1;
            }
            j += 1;
        }
        Ok(RecipeList { recipes })
    }

    /// The number of recipes.
    pub fn len(&self) -> (n: usize)
        ensures
            n == self@.len(),
            distinct_names(self@),
    {
        proof {
            use_type_invariant(self);
        }
        self.recipes.len()
    }

    /// The recipes in collection order.
    pub fn recipes(&self) -> (recipes: &Vec<Recipe>)
        ensures
            views_of(recipes@) == self@,
            distinct_names(self@),
    {
        proof {
            use_type_invariant(self);
        }
        &self.recipes
    }

    /// The position of the recipe with this name, if the collection has one.
    pub fn position(&self, name: &String) -> (found: Option<usize>)
        ensures
            match found {
                Some(i) => is_first_match(self@, name@, i as int),
                None => !has_name(self@, name@),
            },
    {
        let mut i: usize = 0;
        while i < self.recipes.len()
            invariant
                i <= self.recipes.len(),
                forall|j: int| 0 <= j < i ==> (#[trigger] self@[j]).name != name@,
            decreases self.recipes.len() - i,
        {
            if self.recipes[i].name == *name {
                assert(self@[i as int].name == name@);
                return Some(i);
            }
            i += 1;
        }
        None
    }

    /// The names of the recipes, in collection order.
    pub fn list_names(&self) -> (names: Vec<String>)
        ensures
            names.deep_view() == names_of(self@),
    {
        let mut names: Vec<String> = Vec::new();
        let mut i: usize = 0;
        while i < self.recipes.len()
            invariant
                i <= self.recipes.len(),
                names.len() == i,
                forall|j: int| 0 <= j < i ==> names[j]@ == self@[j].name,
            decreases self.recipes.len() - i,
        {
            names.push(self.recipes[i].name.clone());
            i += 1;
        }
        assert(names.deep_view() =~= names_of(self@));
        names
    }

    /// The recipe whose name is exactly `name`, if the collection has one.
    pub fn find_by_name(&self, name: &String) -> (found: Option<&Recipe>)
        ensures
            match found {
                Some(recipe) => Some(recipe@) == find_in(self@, name@),
                None => find_in(self@, name@).is_none(),
            },
            found matches Some(recipe) ==> recipe@.name == name@,
    {
        match self.position(name) {
            Some(i) => {
                proof {
                    lemma_first_match_unique(self@, name@, i as int);
                }
                Some(&self.recipes[i])
            },
            None => None,
        }
    }

    /// Adds `recipe` at the end of the collection, unless its name is taken:
    /// then the collection stays as it was and the call fails with a conflict.
    pub fn create(&mut self, recipe: Recipe) -> (outcome: Result<(), StoreError>)
        ensures
            match created(old(self)@, recipe@) {
                Ok(after) => outcome == Ok::<(), StoreError>(()) && final(self)@ == after,
                Err(e) => outcome == Err::<(), StoreError>(e) && final(self)@ == old(self)@,
            },
            distinct_names(final(self)@),
    {
        proof {
            use_type_invariant(&*self);
        }
        match self.position(&recipe.name) {
            Some(_) => Err(StoreError::Conflict),
            None => {
                let ghost before = self@;
                let mut recipes: Vec<Recipe> = Vec::new();
                core::mem::swap(&mut self.recipes, &mut recipes);
                recipes.push(recipe);
                proof {
                    let after = views_of(recipes@);
                    assert(after =~= before.push(recipe@));
                    assert forall|i: int, j: int| 0 <= i < j < after.len() implies (#[trigger] after[i]).name
                        != (#[trigger] after[j]).name by {
                        if j == before.len() {
                            assert(before[i].name != recipe@.name);
                        } else {
                            assert(before[i].name != before[j].name);
                        }
                    }
                }
                self.recipes = recipes;
                assert(self@ =~= before.push(recipe@));
                Ok(())
            },
        }
    }

    /// Overwrites the recipe that carries `recipe`'s name with `recipe`. Where no
    /// recipe carries it, the collection stays as it was and the call fails with
    /// not-found.
    pub fn replace(&mut self, recipe: Recipe) -> (outcome: Result<(), StoreError>)
        ensures
            match replaced(old(self)@, recipe@) {
                Ok(after) => outcome == Ok::<(), StoreError>(()) && final(self)@ == after,
                Err(e) => outcome == Err::<(), StoreError>(e) && final(self)@ == old(self)@,
            },
            distinct_names(final(self)@),
    {
        proof {
            use_type_invariant(&*self);
        }
        match self.position(&recipe.name) {
            Some(i) => {
                let ghost before = self@;
                proof {
                    lemma_first_match_unique(before, recipe@.name, i as int);
                }
                let mut recipes: Vec<Recipe> = Vec::new();
                core::mem::swap(&mut self.recipes, &mut recipes);
                recipes.set(i, recipe);
                proof {
                    let after = views_of(recipes@);
                    assert(after =~= before.update(i as int, recipe@));
                    assert forall|a: int, b: int| 0 <= a < b < after.len() implies (#[trigger] after[a]).name
                        != (#[trigger] after[b]).name by {
                        assert(after[a].name == before[a].name);
                        assert(after[b].name == before[b].name);
                    }
                }
                self.recipes = recipes;
                assert(self@ =~= before.update(i as int, recipe@));
                Ok(())
            },
            None => Err(StoreError::NotFound),
        }
    }
}

/// The current collection, from what reading the stored document gave.
/// Fails with `StorageUnavailable` where the document could not be reached, and
/// with `CorruptDocument` where its contents are not a valid collection.
pub fn load(document: DocumentRead) -> (outcome: Result<RecipeList, StoreError>)
    ensures
        match loaded(document) {
            Ok(c) => outcome matches Ok(list) && list@ == c,
            Err(e) => outcome matches Err(f) && f == e,
        },
{
    match document {
        DocumentRead::Missing => Err(StoreError::StorageUnavailable),
        DocumentRead::Malformed => Err(StoreError::CorruptDocument),
        DocumentRead::Parsed(recipes) => RecipeList::from_recipes(recipes),
    }
}

} // verus!
