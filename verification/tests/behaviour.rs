use lau_recipe::book::has_sufficient_materials;
use lau_recipe::inventory::has_sufficient_materials_map;
use lau_recipe::{default_recipes, Inventory, Material, Recipe, RecipeBook};

fn stock_of(inv: &Inventory, material: Material) -> Option<usize> {
    inv.materials.iter().find(|(m, _)| *m == material).map(|(_, c)| *c)
}

#[test]
fn labels_of_every_material() {
    let expected = [
        (Material::Stone, "Stone"),
        (Material::Wood, "Wood"),
        (Material::Crystal, "Crystal"),
        (Material::GlowDust, "Glow Dust"),
        (Material::WaterEssence, "Water Essence"),
        (Material::FireShard, "Fire Shard"),
        (Material::WindLeaf, "Wind Leaf"),
        (Material::EarthShard, "Earth Shard"),
        (Material::MoonStone, "Moon Stone"),
        (Material::StarFragment, "Star Fragment"),
        (Material::HeartCrystal, "Heart Crystal"),
        (Material::BuildKit, "Build Kit"),
        (Material::MistVial, "Mist Vial"),
        (Material::SunSpark, "Sun Spark"),
        (Material::IronBloom, "Iron Bloom"),
    ];
    for (material, label) in expected {
        assert_eq!(material.label(), label);
    }
}

#[test]
fn difficulty_bounds_are_kept() {
    assert_eq!(Recipe::new("a", vec![], (Material::Stone, 1), 1).difficulty, 1);
    assert_eq!(Recipe::new("b", vec![], (Material::Stone, 1), 3).difficulty, 3);
    assert_eq!(Recipe::new("c", vec![], (Material::Stone, 1), 5).difficulty, 5);
    assert_eq!(Recipe::new("d", vec![], (Material::Stone, 1), 6).difficulty, 5);
    assert_eq!(Recipe::new("e", vec![], (Material::Stone, 1), u32::MAX).difficulty, 5);
}

#[test]
fn total_input_count_of_empty_and_repeated_inputs() {
    let empty = Recipe::new("none", vec![], (Material::Stone, 1), 1);
    assert_eq!(empty.total_input_count(), 0);
    let repeated = Recipe::new(
        "twice",
        vec![(Material::Wood, 2), (Material::Wood, 4), (Material::Stone, 1)],
        (Material::BuildKit, 1),
        2,
    );
    assert_eq!(repeated.total_input_count(), 7);
}

#[test]
fn discover_keeps_everything_but_the_discoverer() {
    let mut r = Recipe::new("Keep", vec![(Material::Wood, 2)], (Material::BuildKit, 1), 4);
    r.discover("Ada");
    r.discover("Bea");
    assert_eq!(r.name, "Keep");
    assert_eq!(r.inputs, vec![(Material::Wood, 2)]);
    assert_eq!(r.output, (Material::BuildKit, 1));
    assert_eq!(r.difficulty, 4);
    assert_eq!(r.discovered_by.as_deref(), Some("Bea"));
}

#[test]
fn default_list_in_order() {
    let recipes = default_recipes();
    let names: Vec<&str> = recipes.iter().map(|r| r.name.as_str()).collect();
    assert_eq!(
        names,
        vec![
            "Glow Star", "Tidal Stone", "Build Kit", "Heart Shard", "Mist Essence", "Sun Spark",
            "Earth Bloom", "Lunar Lance", "Breeze Vessel", "Forge Heart", "Crystal Focus",
            "Stone Wall", "Glow Lantern", "Tempest Core", "Stellar Forge", "Primordial Clay",
        ]
    );
    assert_eq!(recipes[14].inputs, vec![
        (Material::StarFragment, 2),
        (Material::FireShard, 2),
        (Material::HeartCrystal, 1),
    ]);
    assert_eq!(recipes[14].output, (Material::Crystal, 5));
    assert_eq!(recipes[14].difficulty, 5);
    assert_eq!(recipes[11].inputs, vec![(Material::Stone, 3)]);
    assert!(recipes.iter().all(|r| r.discovered_by.is_none()));
}

#[test]
fn discover_moves_the_recipe_and_keeps_the_count() {
    let mut book = RecipeBook::with_defaults();
    let before = book.known_count() + book.undiscovered_count();
    let found = book.discover("Lunar Lance", "Cy").map(|r| r.name.clone());
    assert_eq!(found.as_deref(), Some("Lunar Lance"));
    assert_eq!(book.known_count() + book.undiscovered_count(), before);
    assert_eq!(book.known_recipes[0].discovered_by.as_deref(), Some("Cy"));
    assert!(book.discoverable_recipes.iter().all(|r| r.name != "Lunar Lance"));
    // A second discovery of the same name finds nothing left to discover.
    assert!(book.discover("Lunar Lance", "Cy").is_none());
    assert_eq!(book.known_count(), 1);
}

#[test]
fn discover_returns_the_recipe_just_moved() {
    let mut book = RecipeBook::new();
    book.discoverable_recipes.push(Recipe::new("X", vec![], (Material::Stone, 1), 1));
    book.discoverable_recipes.push(Recipe::new("X", vec![], (Material::Wood, 1), 1));
    let first = book.discover("X", "A").map(|r| (r.output, r.discovered_by.clone()));
    assert_eq!(first, Some(((Material::Stone, 1), Some("A".to_string()))));
    let second = book.discover("X", "B").map(|r| (r.output, r.discovered_by.clone()));
    assert_eq!(second, Some(((Material::Wood, 1), Some("B".to_string()))));
    assert_eq!(book.known_count(), 2);
    assert_eq!(book.known_recipes[1].discovered_by.as_deref(), Some("B"));
}

#[test]
fn craft_errors_name_the_recipe() {
    let mut book = RecipeBook::with_defaults();
    assert_eq!(book.craft("Glow Star", &[]), Err("Recipe 'Glow Star' is not yet known".to_string()));
    book.discover("Glow Star", "Alice");
    assert_eq!(
        book.craft("Glow Star", &[(Material::Crystal, 1)]),
        Err("Not enough materials for recipe 'Glow Star'".to_string())
    );
    assert_eq!(
        book.craft("Glow Star", &[(Material::Crystal, 1), (Material::GlowDust, 2)]),
        Ok(vec![(Material::Crystal, 1), (Material::GlowDust, 2)])
    );
}

#[test]
fn craft_sums_split_stock_entries() {
    let mut book = RecipeBook::with_defaults();
    book.discover("Glow Star", "Alice");
    let stock = [(Material::GlowDust, 1), (Material::Crystal, 1), (Material::GlowDust, 1)];
    assert!(book.can_craft("Glow Star", &stock));
    assert!(book.craft("Glow Star", &stock).is_ok());
}

#[test]
fn can_craft_agrees_with_craft() {
    let mut book = RecipeBook::with_defaults();
    book.discover("Tidal Stone", "Alice");
    let stocks: Vec<Vec<(Material, usize)>> = vec![
        vec![],
        vec![(Material::WaterEssence, 2)],
        vec![(Material::WaterEssence, 2), (Material::FireShard, 1)],
        vec![(Material::WaterEssence, 1), (Material::FireShard, 5)],
    ];
    for stock in &stocks {
        for name in ["Tidal Stone", "Glow Star"] {
            assert_eq!(book.can_craft(name, stock), book.craft(name, stock).is_ok());
        }
    }
}

#[test]
fn search_all_lists_known_matches_first() {
    let mut book = RecipeBook::with_defaults();
    book.discover("Crystal Focus", "Alice");
    let known: Vec<String> = book.search_by_input(Material::Crystal).iter().map(|r| r.name.clone()).collect();
    let all: Vec<String> = book.search_all_by_input(Material::Crystal).iter().map(|r| r.name.clone()).collect();
    assert_eq!(known, vec!["Crystal Focus".to_string()]);
    assert_eq!(all, vec!["Crystal Focus".to_string(), "Glow Star".to_string(), "Lunar Lance".to_string()]);
}

#[test]
fn add_then_remove_restores_the_stock() {
    let mut inv = Inventory::new();
    inv.add(Material::Wood, 3);
    inv.add(Material::MoonStone, 4);
    assert!(inv.remove(Material::MoonStone, 4));
    assert_eq!(stock_of(&inv, Material::MoonStone), None);
    assert_eq!(stock_of(&inv, Material::Wood), Some(3));
    inv.add(Material::Wood, 2);
    assert!(inv.remove(Material::Wood, 2));
    assert_eq!(stock_of(&inv, Material::Wood), Some(3));
    assert_eq!(inv.total_items(), 3);
}

#[test]
fn adding_zero_makes_an_entry() {
    let mut inv = Inventory::new();
    inv.add(Material::Wood, 0);
    assert_eq!(stock_of(&inv, Material::Wood), Some(0));
    assert!(inv.has(Material::Wood, 0));
    assert!(!inv.has(Material::Wood, 1));
    // Removing zero from a zero entry succeeds and drops the entry.
    assert!(inv.remove(Material::Wood, 0));
    assert_eq!(stock_of(&inv, Material::Wood), None);
    // Removing zero of a material without an entry succeeds (enough is held)
    // and makes no entry.
    assert!(inv.remove(Material::Wood, 0));
    assert_eq!(stock_of(&inv, Material::Wood), None);
    assert!(inv.has(Material::Wood, 0));
    // Removing more than is held fails.
    assert!(!inv.remove(Material::Wood, 1));
}

#[test]
fn one_entry_per_material() {
    let mut inv = Inventory::new();
    inv.add(Material::Stone, 1);
    inv.add(Material::Wood, 1);
    inv.add(Material::Stone, 1);
    assert_eq!(inv.materials.len(), 2);
    assert_eq!(stock_of(&inv, Material::Stone), Some(2));
}

#[test]
fn inventory_craft_with_repeated_inputs_consumes_in_order() {
    let mut book = RecipeBook::new();
    book.known_recipes.push(Recipe::new(
        "Double",
        vec![(Material::Wood, 2), (Material::Wood, 2)],
        (Material::BuildKit, 1),
        1,
    ));
    let mut inv = Inventory::new();
    inv.add(Material::Wood, 3);
    // Each input is checked on its own, then removals are tried in order:
    // the second one finds only 1 left and is skipped.
    assert_eq!(inv.craft("Double", &book), Ok(vec![(Material::BuildKit, 1)]));
    assert_eq!(stock_of(&inv, Material::Wood), Some(1));
}

#[test]
fn inventory_craft_errors() {
    let mut book = RecipeBook::with_defaults();
    let mut inv = Inventory::new();
    inv.add(Material::Wood, 1);
    assert_eq!(inv.craft("Build Kit", &book), Err("Recipe 'Build Kit' is not yet known".to_string()));
    book.discover("Build Kit", "Alice");
    assert_eq!(
        inv.craft("Build Kit", &book),
        Err("Not enough materials for recipe 'Build Kit'".to_string())
    );
    assert_eq!(stock_of(&inv, Material::Wood), Some(1));
}

#[test]
fn inventory_and_book_checks_agree() {
    let mut book = RecipeBook::with_defaults();
    book.discover("Earth Bloom", "Alice");
    let mut inv = Inventory::new();
    inv.add(Material::EarthShard, 2);
    inv.add(Material::WaterEssence, 1);
    let book_says = book.can_craft("Earth Bloom", &inv.materials);
    assert!(!book_says);
    assert_eq!(inv.craft("Earth Bloom", &book).is_ok(), book_says);
    inv.add(Material::Wood, 1);
    let book_says = book.can_craft("Earth Bloom", &inv.materials);
    assert!(book_says);
    assert_eq!(inv.craft("Earth Bloom", &book).is_ok(), book_says);
    assert_eq!(inv.total_items(), 0);
}

#[test]
fn consume_for_recipe_takes_exactly_the_inputs() {
    let mut inv = Inventory::new();
    inv.add(Material::FireShard, 5);
    inv.add(Material::GlowDust, 2);
    inv.add(Material::Wood, 7);
    let recipe = Recipe::new(
        "Sun Spark",
        vec![(Material::FireShard, 1), (Material::GlowDust, 2)],
        (Material::SunSpark, 1),
        2,
    );
    inv.consume_for_recipe(&recipe);
    assert_eq!(stock_of(&inv, Material::FireShard), Some(4));
    assert_eq!(stock_of(&inv, Material::GlowDust), None);
    assert_eq!(stock_of(&inv, Material::Wood), Some(7));
    assert_eq!(inv.total_items(), 11);
}

#[test]
fn defaults_and_clones() {
    let book = RecipeBook::default();
    assert_eq!(book.known_count(), 0);
    assert_eq!(book.undiscovered_count(), 0);
    let inv = Inventory::default();
    assert_eq!(inv.total_items(), 0);

    let mut original = RecipeBook::with_defaults();
    original.discover("Stone Wall", "Dee");
    let copy = original.clone();
    assert_eq!(copy.known_count(), 1);
    assert_eq!(copy.undiscovered_count(), 15);
    assert_eq!(copy.known_recipes[0].discovered_by.as_deref(), Some("Dee"));
    assert_eq!(copy.known_recipes[0].inputs, vec![(Material::Stone, 3)]);

    let mut stock = Inventory::new();
    stock.add(Material::Crystal, 9);
    let stock_copy = stock.clone();
    assert_eq!(stock_copy.materials, stock.materials);
}

#[test]
fn map_check_agrees_with_list_check() {
    let recipe = Recipe::new(
        "Earth Bloom",
        vec![(Material::EarthShard, 2), (Material::WaterEssence, 1), (Material::Wood, 1)],
        (Material::IronBloom, 1),
        2,
    );
    let mut inv = Inventory::new();
    inv.add(Material::Wood, 1);
    inv.add(Material::EarthShard, 2);
    assert!(!has_sufficient_materials_map(&recipe, &inv));
    assert!(!has_sufficient_materials(&recipe, &inv.materials));
    inv.add(Material::WaterEssence, 3);
    let mut listing = inv.materials.clone();
    listing.reverse();
    assert!(has_sufficient_materials_map(&recipe, &inv));
    assert!(has_sufficient_materials(&recipe, &listing));
}
