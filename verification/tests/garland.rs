use xivtools::cli::garland::{json_item_display, Item as CliItem};
use xivtools::garland::{
    craft_covers_ingredients,
    item_id_from_results, item_url, search_url, GarlandError, Item, JsonCraft, JsonCraftIngredient, JsonItem,
    JsonItemData, JsonItemIngredient, JsonItemSearchResult,
};

fn cider() -> JsonItem {
    let craft = vec![
        JsonCraftIngredient { id: 8, amount: 2, quality: None },
        JsonCraftIngredient { id: 4831, amount: 1, quality: None },
        JsonCraftIngredient { id: 4832, amount: 3, quality: None },
    ];
    JsonItem {
        item: JsonItemData {
            name: "Crimson Cider".to_string(),
            id: 22436,
            craft: vec![JsonCraft { job: 15, quality: 0, progress: 0, ingredients: craft }],
        },
        ingredients: vec![
            JsonItemIngredient { id: 8, name: "Fire Crystal".to_string() },
            JsonItemIngredient { id: 4831, name: "Crimson Pepper".to_string() },
            JsonItemIngredient { id: 4832, name: "Loquat".to_string() },
        ],
    }
}

#[test]
fn item_skips_crystals_and_names_materials() {
    let item = Item::from(cider());
    assert_eq!(item.name, "Crimson Cider");
    assert_eq!(item.materials.len(), 2);
    assert_eq!(item.materials[0].name, "Crimson Pepper");
    assert_eq!(item.materials[0].count, 1);
    assert_eq!(item.materials[1].name, "Loquat");
    assert_eq!(item.materials[1].id, 4832);
    assert_eq!(item.materials[1].count, 3);
    assert_eq!(item.to_display_string(), "Crimson Cider\n[\n  1x Crimson Pepper\n  3x Loquat\n]\n");
}

#[test]
fn cli_item_pairs_ingredients_by_position() {
    let item = CliItem::from(cider());
    assert_eq!(item.materials.len(), 3);
    assert_eq!(item.materials[0].name, "Fire Crystal");
    assert_eq!(item.materials[0].count, 2);
    assert_eq!(item.to_display_string(), "Crimson Cider\n[\n  2x Fire Crystal\n  1x Crimson Pepper\n  3x Loquat\n]\n");
}

#[test]
fn json_item_text() {
    let mut j = cider();
    j.ingredients.truncate(1);
    assert_eq!(
        j.to_display_string(),
        "item {\n\tname: Crimson Cider\n\tid:   22436\tingredients; {\t\t 2x Fire Crystal (id: 8)\n\t}\n}\n"
    );
    assert_eq!(
        json_item_display(&j),
        "item {\n\tname: Crimson Cider\n\tid:   22436\n\tingredients; {\n\t\t 2x Fire Crystal (id: 8)\n\t}\n}\n"
    );
}

#[test]
fn search_results_give_the_id() {
    let none: Vec<JsonItemSearchResult> = Vec::new();
    assert_eq!(
        item_id_from_results("Nothing", &none),
        Err(GarlandError::NotFound("Nothing".to_string()))
    );
    let ok = vec![JsonItemSearchResult { id: "23821".to_string() }, JsonItemSearchResult { id: "1".to_string() }];
    assert_eq!(item_id_from_results("Rakshasa Dogi of Casting", &ok), Ok(Some(23821)));
    let bad = vec![JsonItemSearchResult { id: "x1".to_string() }];
    assert_eq!(item_id_from_results("Odd", &bad), Err(GarlandError::BadId("x1".to_string())));
}

#[test]
fn addresses() {
    assert_eq!(item_url(22436), "http://www.garlandtools.org/db/doc/item/en/3/22436.json");
    assert_eq!(
        search_url("Crimson Cider"),
        "https://www.garlandtools.org/api/search.php?&craftable=1&type=item&text=Crimson+Cider&lang=en&exact=1"
    );
    assert_eq!(
        search_url("Sui-no-Sato Special & Co."),
        "https://www.garlandtools.org/api/search.php?&craftable=1&type=item&text=Sui-no-Sato+Special+%26+Co.&lang=en&exact=1"
    );
    assert_eq!(
        search_url("Dogi é"),
        "https://www.garlandtools.org/api/search.php?&craftable=1&type=item&text=Dogi+%C3%A9&lang=en&exact=1"
    );
}

#[test]
fn craft_coverage_checked() {
    let mut j = cider();
    assert!(craft_covers_ingredients(&j));
    j.ingredients.push(JsonItemIngredient { id: 1, name: "Extra".to_string() });
    assert!(!craft_covers_ingredients(&j));
    j.item.craft.clear();
    assert!(!craft_covers_ingredients(&j));
}
