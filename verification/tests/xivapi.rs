use xivtools::xivapi::{
    recipe_links_ok,
    sort_recipes, ApiRecipe, CraftType, GameContentLinks, KeyError, RecipeLevelTable, RecipeOrder, RECIPE_COLUMNS,
};

fn recipe(id: u32, job: u32, level: u32, stars: u32, column: &str, row: u32) -> ApiRecipe {
    ApiRecipe {
        ID: id,
        Name: format!("r{}", id),
        CraftType: CraftType { ID: job },
        RecipeLevelTable: RecipeLevelTable {
            ClassJobLevel: level,
            Difficulty: 0,
            Durability: 0,
            ID: 0,
            Quality: 0,
            Stars: stars,
            SuggestedControl: 0,
            SuggestedCraftsmanship: 0,
        },
        AmountIngredient0: 0,
        AmountIngredient1: 0,
        AmountIngredient2: 0,
        AmountIngredient3: 0,
        AmountIngredient4: 0,
        AmountIngredient5: 0,
        AmountResult: 1,
        DifficultyFactor: 100,
        DurabilityFactor: 100,
        QualityFactor: 100,
        IsSpecializationRequired: 0,
        ItemIngredient0: None,
        ItemIngredient1: None,
        ItemIngredient2: None,
        ItemIngredient3: None,
        ItemIngredient4: None,
        ItemIngredient5: None,
        GameContentLinks: Some(GameContentLinks { RecipeNotebookList: vec![(column.to_string(), vec![row])] }),
    }
}

#[test]
fn recipe_key_reads_the_notebook() {
    assert_eq!(recipe(1, 5, 60, 1, "Recipe9", 1053).key(), Ok((5, 60, 1, 1053, 9)));
    assert_eq!(recipe(1, 5, 60, 1, "RecipeRecipe12", 3).key(), Ok((5, 60, 1, 3, 12)));
    assert_eq!(recipe(1, 5, 60, 1, "Column9", 3).key(), Err(KeyError::BadColumn));
    let mut bare = recipe(1, 5, 60, 1, "Recipe9", 3);
    bare.GameContentLinks = None;
    assert_eq!(bare.key(), Err(KeyError::NoGameContentLinks));
}

#[test]
fn recipes_compare_by_key_then_craft_type() {
    let a = recipe(1, 1, 50, 0, "Recipe2", 7);
    let b = recipe(2, 1, 50, 0, "Recipe3", 7);
    let c = recipe(3, 0, 90, 4, "Recipe1", 1);
    assert_eq!(a.partial_compare(&b), Some(RecipeOrder::Less));
    assert_eq!(a.compare(&c), RecipeOrder::Greater);
    assert_eq!(a.compare(&a), RecipeOrder::Equal);
    let mut d = recipe(4, 2, 1, 0, "Nope", 1);
    d.GameContentLinks = Some(GameContentLinks { RecipeNotebookList: vec![("Nope".to_string(), vec![1])] });
    assert_eq!(a.partial_compare(&d), None);
    // No key: the craft types decide.
    assert_eq!(a.compare(&d), RecipeOrder::Less);
    assert!(a.same_recipe(&recipe(1, 7, 7, 7, "Recipe1", 1)));
    assert!(!a.same_recipe(&b));
}

#[test]
fn sort_is_stable_and_ordered() {
    let mut v = vec![
        recipe(10, 5, 60, 0, "Recipe1", 2),
        recipe(11, 1, 60, 0, "Recipe1", 2),
        recipe(12, 5, 10, 0, "Recipe1", 2),
        recipe(13, 1, 60, 0, "Recipe1", 2),
    ];
    sort_recipes(&mut v);
    let ids: Vec<u32> = v.iter().map(|r| r.ID).collect();
    assert_eq!(ids, vec![11, 13, 12, 10]);
}

#[test]
fn search_columns() {
    assert!(RECIPE_COLUMNS.starts_with("AmountIngredient0,"));
    assert!(RECIPE_COLUMNS.ends_with("GameContentLinks,"));
    assert_eq!(RECIPE_COLUMNS.matches(',').count(), 22);
}

#[test]
fn notebook_links_checked() {
    assert!(recipe_links_ok(&recipe(1, 1, 1, 0, "Recipe1", 1)));
    let mut r = recipe(1, 1, 1, 0, "Recipe1", 1);
    r.GameContentLinks = Some(GameContentLinks { RecipeNotebookList: vec![("Recipe1".to_string(), vec![])] });
    assert!(!recipe_links_ok(&r));
    r.GameContentLinks = None;
    assert!(recipe_links_ok(&r));
}
