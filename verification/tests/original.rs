use lau_recipe::{default_recipes, Inventory, Material, Recipe, RecipeBook};
use std::collections::HashSet;

// ---------------------------------------------------------------------------
// Material tests
// ---------------------------------------------------------------------------

#[test]
fn test_material_label() {
    assert_eq!(Material::Stone.label(), "Stone");
    assert_eq!(Material::WaterEssence.label(), "Water Essence");
    assert_eq!(Material::StarFragment.label(), "Star Fragment");
}

#[test]
fn test_material_equality() {
    assert_eq!(Material::Crystal, Material::Crystal);
    assert_ne!(Material::Wood, Material::Stone);
}

#[test]
fn test_material_hash() {
    let mut set = HashSet::new();
    set.insert(Material::GlowDust);
    set.insert(Material::GlowDust);
    set.insert(Material::FireShard);
    assert_eq!(set.len(), 2);
}

// ---------------------------------------------------------------------------
// Recipe tests
// ---------------------------------------------------------------------------

#[test]
fn test_recipe_new() {
    let r = Recipe::new("Test", vec![(Material::Wood, 2)], (Material::BuildKit, 1), 1);
    assert_eq!(r.name, "Test");
    assert_eq!(r.inputs, vec![(Material::Wood, 2)]);
    assert_eq!(r.output, (Material::BuildKit, 1));
    assert!(r.discovered_by.is_none());
    assert_eq!(r.difficulty, 1);
}

#[test]
fn test_recipe_difficulty_clamped() {
    let r = Recipe::new("Oops", vec![], (Material::Stone, 1), 99);
    assert_eq!(r.difficulty, 5);
    let r = Recipe::new("Safe", vec![], (Material::Stone, 1), 0);
    assert_eq!(r.difficulty, 1);
}

#[test]
fn test_recipe_discover() {
    let mut r = Recipe::new("Test", vec![], (Material::Stone, 1), 1);
    r.discover("Phoenix");
    assert_eq!(r.discovered_by, Some("Phoenix".to_string()));
}

#[test]
fn test_total_input_count() {
    let r = Recipe::new(
        "Multi",
        vec![(Material::Wood, 2), (Material::Stone, 3)],
        (Material::BuildKit, 1),
        1,
    );
    assert_eq!(r.total_input_count(), 5);
}

// ---------------------------------------------------------------------------
// RecipeBook tests
// ---------------------------------------------------------------------------

#[test]
fn test_recipe_book_new() {
    let book = RecipeBook::new();
    assert_eq!(book.known_count(), 0);
    assert_eq!(book.undiscovered_count(), 0);
}

#[test]
fn test_recipe_book_with_defaults() {
    let book = RecipeBook::with_defaults();
    assert_eq!(book.known_count(), 0);
    assert_eq!(book.undiscovered_count(), 16);
}

#[test]
fn test_discover_recipe() {
    let mut book = RecipeBook::with_defaults();
    let recipe = book.discover("Glow Star", "Alice");
    assert!(recipe.is_some());
    assert_eq!(recipe.unwrap().name, "Glow Star");
    assert_eq!(recipe.unwrap().discovered_by.as_deref(), Some("Alice"));
    assert_eq!(book.known_count(), 1);
    assert_eq!(book.undiscovered_count(), 15);
}

#[test]
fn test_discover_nonexistent_recipe() {
    let mut book = RecipeBook::with_defaults();
    let recipe = book.discover("Fake Recipe", "Bob");
    assert!(recipe.is_none());
    assert_eq!(book.known_count(), 0);
}

#[test]
fn test_craft_known_recipe_success() {
    let mut book = RecipeBook::with_defaults();
    book.discover("Glow Star", "Alice");
    let inventory = vec![(Material::Crystal, 1), (Material::GlowDust, 2)];
    let consumed = book.craft("Glow Star", &inventory);
    assert!(consumed.is_ok());
    let consumed = consumed.unwrap();
    assert_eq!(consumed.len(), 2);
}

#[test]
fn test_craft_unknown_recipe_fails() {
    let book = RecipeBook::with_defaults();
    let inventory = vec![(Material::Crystal, 1)];
    let result = book.craft("Glow Star", &inventory);
    assert!(result.is_err());
    assert!(result.unwrap_err().contains("is not yet known"));
}

#[test]
fn test_craft_insufficient_materials() {
    let mut book = RecipeBook::with_defaults();
    book.discover("Glow Star", "Alice");
    let inventory = vec![(Material::Crystal, 1)]; // missing GlowDust
    let result = book.craft("Glow Star", &inventory);
    assert!(result.is_err());
    assert!(result.unwrap_err().contains("Not enough materials"));
}

#[test]
fn test_can_craft() {
    let mut book = RecipeBook::with_defaults();
    book.discover("Glow Star", "Alice");
    assert!(book.can_craft("Glow Star", &[(Material::Crystal, 1), (Material::GlowDust, 2)]));
    assert!(!book.can_craft("Glow Star", &[(Material::Crystal, 1)]));
    assert!(!book.can_craft("Unknown", &[]));
}

#[test]
fn test_search_by_input() {
    let mut book = RecipeBook::with_defaults();
    book.discover("Glow Star", "Alice");
    book.discover("Build Kit", "Alice");
    // Crystal is an input for Glow Star (and Lunar Lance, but not discovered yet)
    let results = book.search_by_input(Material::Crystal);
    assert_eq!(results.len(), 1);
    assert_eq!(results[0].name, "Glow Star");
}

#[test]
fn test_search_by_input_no_matches() {
    let book = RecipeBook::with_defaults();
    let results = book.search_by_input(Material::IronBloom);
    assert!(results.is_empty());
}

#[test]
fn test_search_all_by_input() {
    let book = RecipeBook::with_defaults();
    // Crystal appears in "Glow Star" and "Lunar Lance" and "Crystal Focus"
    let results = book.search_all_by_input(Material::Crystal);
    let names: Vec<&str> = results.iter().map(|r| r.name.as_str()).collect();
    assert!(names.contains(&"Glow Star"));
    assert!(names.contains(&"Lunar Lance"));
    assert!(names.contains(&"Crystal Focus"));
}

// ---------------------------------------------------------------------------
// Inventory tests
// ---------------------------------------------------------------------------

#[test]
fn test_inventory_new() {
    let inv = Inventory::new();
    assert_eq!(inv.total_items(), 0);
}

#[test]
fn test_inventory_add() {
    let mut inv = Inventory::new();
    inv.add(Material::Wood, 5);
    assert_eq!(inv.total_items(), 5);
    assert!(inv.has(Material::Wood, 5));
    assert!(inv.has(Material::Wood, 3));
    assert!(!inv.has(Material::Wood, 6));
}

#[test]
fn test_inventory_add_twice() {
    let mut inv = Inventory::new();
    inv.add(Material::Crystal, 3);
    inv.add(Material::Crystal, 2);
    assert_eq!(inv.total_items(), 5);
    assert!(inv.has(Material::Crystal, 5));
}

#[test]
fn test_inventory_remove_success() {
    let mut inv = Inventory::new();
    inv.add(Material::Stone, 10);
    assert!(inv.remove(Material::Stone, 3));
    assert_eq!(inv.total_items(), 7);
    assert!(inv.has(Material::Stone, 7));
}

#[test]
fn test_inventory_remove_removes_empty_entry() {
    let mut inv = Inventory::new();
    inv.add(Material::Stone, 5);
    inv.remove(Material::Stone, 5);
    assert_eq!(inv.total_items(), 0);
    assert!(!inv.materials.iter().any(|(m, _)| *m == Material::Stone));
}

#[test]
fn test_inventory_remove_insufficient() {
    let mut inv = Inventory::new();
    inv.add(Material::Wood, 2);
    assert!(!inv.remove(Material::Wood, 5));
    assert_eq!(inv.total_items(), 2); // unchanged
}

#[test]
fn test_inventory_remove_nonexistent() {
    let mut inv = Inventory::new();
    assert!(!inv.remove(Material::Crystal, 1));
}

#[test]
fn test_inventory_has_nonexistent() {
    let inv = Inventory::new();
    assert!(!inv.has(Material::GlowDust, 1));
}

#[test]
fn test_inventory_craft_success() {
    let mut book = RecipeBook::with_defaults();
    book.discover("Build Kit", "Alice");

    let mut inv = Inventory::new();
    inv.add(Material::Wood, 2);
    inv.add(Material::Stone, 1);

    let output = inv.craft("Build Kit", &book);
    assert!(output.is_ok());
    let output = output.unwrap();
    assert_eq!(output, vec![(Material::BuildKit, 1)]);

    // Materials consumed
    assert!(!inv.has(Material::Wood, 1));
    assert!(!inv.has(Material::Stone, 1));
    assert_eq!(inv.total_items(), 0); // BuildKit wasn't auto-added, only returned
}

#[test]
fn test_inventory_craft_insufficient() {
    let mut book = RecipeBook::with_defaults();
    book.discover("Build Kit", "Alice");

    let mut inv = Inventory::new();
    inv.add(Material::Wood, 1); // only 1, need 2
    inv.add(Material::Stone, 1);

    let result = inv.craft("Build Kit", &book);
    assert!(result.is_err());
    // Inventory should be untouched
    assert!(inv.has(Material::Wood, 1));
    assert!(inv.has(Material::Stone, 1));
}

#[test]
fn test_inventory_craft_unknown_recipe() {
    let book = RecipeBook::with_defaults();
    let mut inv = Inventory::new();
    inv.add(Material::Wood, 10);
    let result = inv.craft("Build Kit", &book);
    assert!(result.is_err());
    assert!(result.unwrap_err().contains("not yet known"));
}

// ---------------------------------------------------------------------------
// Full integration test: discovery -> craft flow
// ---------------------------------------------------------------------------

#[test]
fn test_full_crafting_flow() {
    let mut book = RecipeBook::with_defaults();
    let mut inv = Inventory::new();

    // Gather materials
    inv.add(Material::Crystal, 1);
    inv.add(Material::GlowDust, 2);

    // Discover recipe
    let recipe = book.discover("Glow Star", "Phoenix");
    assert!(recipe.is_some());
    assert_eq!(recipe.unwrap().discovered_by.as_deref(), Some("Phoenix"));

    // Can craft
    assert!(book.can_craft("Glow Star", &[(Material::Crystal, 1), (Material::GlowDust, 2)]));

    // Actually craft
    let output = inv.craft("Glow Star", &book);
    assert!(output.is_ok());
    let output = output.unwrap();
    assert_eq!(output, vec![(Material::StarFragment, 1)]);

    // Verify consumption
    assert!(!inv.has(Material::Crystal, 1));
    assert!(!inv.has(Material::GlowDust, 1));
    // Output is returned (not auto-added to inventory)
    assert!(!inv.has(Material::StarFragment, 1));
}

// ---------------------------------------------------------------------------
// Default recipe count and difficulty ranges
// ---------------------------------------------------------------------------

#[test]
fn test_default_recipes_count() {
    let recipes = default_recipes();
    assert!(recipes.len() >= 15, "Expected >= 15 recipes, got {}", recipes.len());
}

#[test]
fn test_all_default_recipes_valid_difficulty() {
    for r in default_recipes() {
        assert!(
            (1..=5).contains(&r.difficulty),
            "Recipe '{}' has difficulty {} (should be 1–5)",
            r.name,
            r.difficulty
        );
    }
}

#[test]
fn test_no_duplicate_recipe_names() {
    let recipes = default_recipes();
    let mut names: Vec<&str> = recipes.iter().map(|r| r.name.as_str()).collect();
    names.sort();
    names.dedup();
    assert_eq!(names.len(), recipes.len(), "Duplicate recipe names found");
}
