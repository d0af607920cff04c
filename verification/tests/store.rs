use recipe_catalog::recipe::copy_strings;
use recipe_catalog::recipe::Recipe;
use recipe_catalog::store::load;
use recipe_catalog::store::DocumentRead;
use recipe_catalog::store::RecipeList;
use recipe_catalog::store::StoreError;

fn strings(items: &[&str]) -> Vec<String> {
    items.iter().map(|s| s.to_string()).collect()
}

fn recipe(name: &str, ingredients: &[&str], instructions: &[&str]) -> Recipe {
    Recipe::new(name.to_string(), strings(ingredients), strings(instructions))
}

fn pasta() -> Recipe {
    recipe("Pasta", &["pasta", "sauce"], &["boil", "mix"])
}

fn salad() -> Recipe {
    recipe("Salad", &["lettuce", "oil", "salt"], &["wash", "toss"])
}

fn soup() -> Recipe {
    recipe("Soup", &["water", "onion"], &["chop", "simmer", "season"])
}

fn catalog() -> RecipeList {
    RecipeList::from_recipes(vec![pasta(), salad(), soup()]).unwrap()
}

#[test]
fn new_collection_is_empty() {
    let list = RecipeList::new();
    assert_eq!(list.len(), 0);
    assert!(list.list_names().is_empty());
    assert!(list.recipes().is_empty());
    assert_eq!(list.find_by_name(&"Pasta".to_string()), None);
    assert_eq!(list.position(&"Pasta".to_string()), None);
}

#[test]
fn recipe_new_keeps_its_parts() {
    let r = pasta();
    assert_eq!(r.name, "Pasta");
    assert_eq!(r.ingredients, strings(&["pasta", "sauce"]));
    assert_eq!(r.instructions, strings(&["boil", "mix"]));
    assert_eq!(r.num_steps(), 2);
    assert_eq!(recipe("Water", &[], &[]).num_steps(), 0);
}

#[test]
fn recipe_clone_is_equal() {
    let r = soup();
    let copy = r.clone();
    assert_eq!(copy, r);
    assert_eq!(copy_strings(&r.ingredients), r.ingredients);
    assert_eq!(copy_strings(&Vec::new()), Vec::<String>::new());
}

#[test]
fn create_then_find_returns_the_recipe() {
    let mut list = catalog();
    let bread = recipe("Bread", &["flour", "water", "yeast"], &["knead", "rise", "bake"]);
    assert_eq!(list.create(bread.clone()), Ok(()));
    assert_eq!(list.len(), 4);
    assert_eq!(list.find_by_name(&"Bread".to_string()), Some(&bread));
    assert_eq!(list.position(&"Bread".to_string()), Some(3));
    assert_eq!(list.recipes()[3], bread);
}

#[test]
fn create_into_empty_collection() {
    let mut list = RecipeList::new();
    assert_eq!(list.create(pasta()), Ok(()));
    assert_eq!(list.len(), 1);
    assert_eq!(list.find_by_name(&"Pasta".to_string()), Some(&pasta()));
}

#[test]
fn create_twice_conflicts_and_keeps_one_entry() {
    let mut list = RecipeList::new();
    assert_eq!(list.create(pasta()), Ok(()));
    assert_eq!(list.create(pasta()), Err(StoreError::Conflict));
    assert_eq!(list.len(), 1);
    let count = list.recipes().iter().filter(|r| r.name == "Pasta").count();
    assert_eq!(count, 1);
}

#[test]
fn create_conflict_leaves_the_collection_unchanged() {
    let mut list = catalog();
    let other = recipe("Salad", &["kale"], &["massage"]);
    assert_eq!(list.create(other), Err(StoreError::Conflict));
    assert_eq!(list.recipes(), &vec![pasta(), salad(), soup()]);
}

#[test]
fn replace_absent_name_is_not_found_and_changes_nothing() {
    let mut list = catalog();
    let bread = recipe("Bread", &["flour"], &["bake"]);
    assert_eq!(list.replace(bread), Err(StoreError::NotFound));
    assert_eq!(list.list_names(), strings(&["Pasta", "Salad", "Soup"]));
    assert_eq!(list.recipes(), &vec![pasta(), salad(), soup()]);
}

#[test]
fn replace_in_empty_collection_is_not_found() {
    let mut list = RecipeList::new();
    assert_eq!(list.replace(pasta()), Err(StoreError::NotFound));
    assert_eq!(list.len(), 0);
}

#[test]
fn replace_existing_overwrites_the_slot() {
    let mut list = catalog();
    let better = recipe("Salad", &["kale", "lemon"], &["massage", "dress", "serve"]);
    assert_eq!(list.replace(better.clone()), Ok(()));
    assert_eq!(list.len(), 3);
    assert_eq!(list.find_by_name(&"Salad".to_string()), Some(&better));
    assert_eq!(list.list_names(), strings(&["Pasta", "Salad", "Soup"]));
    assert_eq!(list.recipes(), &vec![pasta(), better, soup()]);
}

#[test]
fn replace_cannot_rename() {
    let mut list = catalog();
    let renamed = recipe("Noodles", &["pasta", "sauce"], &["boil", "mix"]);
    assert_eq!(list.replace(renamed), Err(StoreError::NotFound));
    assert_eq!(list.find_by_name(&"Pasta".to_string()), Some(&pasta()));
    assert_eq!(list.find_by_name(&"Noodles".to_string()), None);
}

#[test]
fn list_names_follows_creation_order() {
    let mut list = RecipeList::new();
    for name in ["Zucchini", "Apple", "Mango", "Bread"] {
        assert_eq!(list.create(recipe(name, &[], &[])), Ok(()));
    }
    assert_eq!(list.list_names(), strings(&["Zucchini", "Apple", "Mango", "Bread"]));
}

#[test]
fn names_are_compared_exactly() {
    let mut list = catalog();
    assert_eq!(list.find_by_name(&"pasta".to_string()), None);
    assert_eq!(list.find_by_name(&"Pasta ".to_string()), None);
    assert_eq!(list.find_by_name(&" Pasta".to_string()), None);
    assert_eq!(list.find_by_name(&"".to_string()), None);
    assert_eq!(list.create(recipe("pasta", &[], &[])), Ok(()));
    assert_eq!(list.create(recipe("Pasta ", &[], &[])), Ok(()));
    assert_eq!(list.list_names(), strings(&["Pasta", "Salad", "Soup", "pasta", "Pasta "]));
}

#[test]
fn position_is_the_index_in_the_collection() {
    let list = catalog();
    assert_eq!(list.position(&"Pasta".to_string()), Some(0));
    assert_eq!(list.position(&"Salad".to_string()), Some(1));
    assert_eq!(list.position(&"Soup".to_string()), Some(2));
    assert_eq!(list.position(&"Stew".to_string()), None);
}

#[test]
fn two_creates_in_either_order_keep_both() {
    let mut first = catalog();
    assert_eq!(first.create(recipe("A", &[], &[])), Ok(()));
    assert_eq!(first.create(recipe("B", &[], &[])), Ok(()));
    assert_eq!(first.list_names(), strings(&["Pasta", "Salad", "Soup", "A", "B"]));
    let mut second = catalog();
    assert_eq!(second.create(recipe("B", &[], &[])), Ok(()));
    assert_eq!(second.create(recipe("A", &[], &[])), Ok(()));
    assert_eq!(second.list_names(), strings(&["Pasta", "Salad", "Soup", "B", "A"]));
}

#[test]
fn from_recipes_keeps_order_and_contents() {
    let list = RecipeList::from_recipes(vec![soup(), pasta()]).unwrap();
    assert_eq!(list.len(), 2);
    assert_eq!(list.recipes(), &vec![soup(), pasta()]);
    assert_eq!(RecipeList::from_recipes(Vec::new()).unwrap().len(), 0);
}

#[test]
fn from_recipes_rejects_a_shared_name() {
    let twice = vec![pasta(), salad(), recipe("Pasta", &["rice"], &[])];
    assert_eq!(RecipeList::from_recipes(twice).unwrap_err(), StoreError::CorruptDocument);
    let adjacent = vec![salad(), salad()];
    assert_eq!(RecipeList::from_recipes(adjacent).unwrap_err(), StoreError::CorruptDocument);
    let last_two = vec![pasta(), salad(), soup(), soup()];
    assert_eq!(RecipeList::from_recipes(last_two).unwrap_err(), StoreError::CorruptDocument);
}

#[test]
fn load_missing_document_is_storage_unavailable() {
    assert_eq!(load(DocumentRead::Missing).unwrap_err(), StoreError::StorageUnavailable);
}

#[test]
fn load_malformed_document_is_corrupt() {
    assert_eq!(load(DocumentRead::Malformed).unwrap_err(), StoreError::CorruptDocument);
}

#[test]
fn load_document_with_shared_name_is_corrupt() {
    let document = DocumentRead::Parsed(vec![pasta(), pasta()]);
    assert_eq!(load(document).unwrap_err(), StoreError::CorruptDocument);
}

#[test]
fn load_parsed_document_gives_its_recipes() {
    let list = load(DocumentRead::Parsed(vec![pasta(), salad()])).unwrap();
    assert_eq!(list.list_names(), strings(&["Pasta", "Salad"]));
    assert_eq!(list.find_by_name(&"Salad".to_string()), Some(&salad()));
    let empty = load(DocumentRead::Parsed(Vec::new())).unwrap();
    assert_eq!(empty.len(), 0);
}
