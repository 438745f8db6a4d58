use vstd::prelude::*;
use crate::material::Material;
use crate::tally::{amount_of, covers, distinct_materials, lemma_amount_absent, lemma_amount_single, lists};
use crate::inventory::{held, stock_covers, with_added, with_removals, with_removed, Inventory};
use crate::book::{recipes_using, RecipeBook};
use crate::recipe::{clamped_difficulty, Recipe};
use crate::defaults::{is_standard_list, standard_names};

verus! {

/// Removing from a stock the units just added to it gives the stock back, unless
/// the stock had an entry of count zero for that material (the removal drops it).
pub proof fn law_remove_undoes_add(stock: Map<Material, nat>, material: Material, count: nat)
    requires
        !(stock.contains_key(material) && stock[material] == 0),
    ensures
        with_removed(with_added(stock, material, count), material, count) == stock,
{
    let added = with_added(stock, material, count);
    assert(added.contains_key(material) && added[material] >= count);
    if held(stock, material) == 0 {
        assert(added.remove(material) =~= stock);
    } else {
        assert(added.insert(material, (added[material] - count) as nat) =~= stock);
    }
}

/// After `count` units of a material are added, at least `count` units of it are
/// held, and what is held of every other material is unchanged.
pub proof fn law_added_units_are_held(stock: Map<Material, nat>, material: Material, count: nat)
    ensures
        held(with_added(stock, material, count), material) == held(stock, material) + count,
        held(with_added(stock, material, count), material) >= count,
        forall|other: Material|
            other != material ==> #[trigger] held(with_added(stock, material, count), other) == held(
                stock,
                other,
            ),
{
}

/// An inventory can craft a recipe of a book exactly when the book's own check,
/// run on the inventory's entries, says it can.
pub proof fn law_inventory_check_matches_book_check(
    book: RecipeBook,
    inventory: Inventory,
    name: Seq<char>,
)
    ensures
        (book.knows(name) && stock_covers(inventory@, book.known_recipe(name).inputs@))
            == book.craftable(name, inventory.materials@),
{
    let needs = book.known_recipe(name).inputs@;
    assert forall|i: int| 0 <= i < needs.len() implies held(inventory@, #[trigger] needs[i].0)
        == amount_of(inventory.materials@, needs[i].0) by {
        inventory.lemma_count_is_held(needs[i].0);
    }
}

/// Checking inputs against a stock map (a material without an entry counts as 0)
/// agrees with checking them against any list of the map's entries, in any
/// order, where the per-material counts of the list are summed.
pub proof fn law_map_check_matches_any_listing(
    stock: Map<Material, nat>,
    listing: Seq<(Material, usize)>,
    needs: Seq<(Material, usize)>,
)
    requires
        distinct_materials(listing),
        forall|m: Material| #[trigger] stock.contains_key(m) == lists(listing, m),
        forall|i: int| 0 <= i < listing.len() ==> stock[#[trigger] listing[i].0] == listing[i].1,
    ensures
        stock_covers(stock, needs) == covers(listing, needs),
{
    assert forall|i: int| 0 <= i < needs.len() implies held(stock, #[trigger] needs[i].0)
        == amount_of(listing, needs[i].0) by {
        let m = needs[i].0;
        if lists(listing, m) {
            let k = choose|k: int| 0 <= k < listing.len() && #[trigger] listing[k].0 == m;
            lemma_amount_single(listing, k);
        } else {
            lemma_amount_absent(listing, m);
        }
    }
}

/// Consuming inputs that name distinct materials from a stock that covers them
/// takes away exactly the inputs: for every material, what is left plus what
/// the inputs ask of it is what was held.
pub proof fn law_consume_removes_inputs(
    stock: Map<Material, nat>,
    needs: Seq<(Material, usize)>,
    material: Material,
)
    requires
        distinct_materials(needs),
        stock_covers(stock, needs),
    ensures
        held(with_removals(stock, needs), material) + amount_of(needs, material) == held(
            stock,
            material,
        ),
    decreases needs.len(),
{
    if needs.len() > 0 {
        let prefix = needs.drop_last();
        let last = needs.last();
        assert forall|i: int| 0 <= i < prefix.len() implies held(stock, #[trigger] prefix[i].0)
            >= prefix[i].1 by {
            assert(prefix[i] == needs[i]);
        }
        law_consume_removes_inputs(stock, prefix, material);
        law_consume_removes_inputs(stock, prefix, last.0);
        assert(!lists(prefix, last.0)) by {
            if lists(prefix, last.0) {
                let k = choose|k: int| 0 <= k < prefix.len() && #[trigger] prefix[k].0 == last.0;
                assert(needs[k].0 == needs[needs.len() - 1].0);
            }
        }
        lemma_amount_absent(prefix, last.0);
        assert(held(stock, needs[needs.len() - 1].0) >= needs[needs.len() - 1].1);
    }
}

/// The built-in recipe list, recipe by recipe in order: each name, what it takes,
/// what it makes and how hard it is.
pub proof fn law_standard_recipes(recipes: Seq<Recipe>)
    requires
        is_standard_list(recipes),
    ensures
        recipes.len() == 16,
        recipes[0].name@ == "Glow Star"@ && recipes[0].inputs@ == seq![(Material::Crystal, 1usize), (Material::GlowDust, 2usize)]
            && recipes[0].output == (Material::StarFragment, 1usize) && recipes[0].difficulty == 1,
        recipes[1].name@ == "Tidal Stone"@ && recipes[1].inputs@ == seq![(Material::WaterEssence, 2usize), (Material::FireShard, 1usize)]
            && recipes[1].output == (Material::MoonStone, 1usize) && recipes[1].difficulty == 2,
        recipes[2].name@ == "Build Kit"@ && recipes[2].inputs@ == seq![(Material::Wood, 2usize), (Material::Stone, 1usize)]
            && recipes[2].output == (Material::BuildKit, 1usize) && recipes[2].difficulty == 1,
        recipes[3].name@ == "Heart Shard"@ && recipes[3].inputs@ == seq![(Material::HeartCrystal, 1usize), (Material::MoonStone, 1usize), (Material::GlowDust, 1usize)]
            && recipes[3].output == (Material::StarFragment, 2usize) && recipes[3].difficulty == 3,
        recipes[4].name@ == "Mist Essence"@ && recipes[4].inputs@ == seq![(Material::WaterEssence, 1usize), (Material::WindLeaf, 1usize)]
            && recipes[4].output == (Material::MistVial, 2usize) && recipes[4].difficulty == 1,
        recipes[5].name@ == "Sun Spark"@ && recipes[5].inputs@ == seq![(Material::FireShard, 1usize), (Material::GlowDust, 2usize)]
            && recipes[5].output == (Material::SunSpark, 1usize) && recipes[5].difficulty == 2,
        recipes[6].name@ == "Earth Bloom"@ && recipes[6].inputs@ == seq![(Material::EarthShard, 2usize), (Material::WaterEssence, 1usize), (Material::Wood, 1usize)]
            && recipes[6].output == (Material::IronBloom, 1usize) && recipes[6].difficulty == 2,
        recipes[7].name@ == "Lunar Lance"@ && recipes[7].inputs@ == seq![(Material::MoonStone, 2usize), (Material::Crystal, 1usize)]
            && recipes[7].output == (Material::StarFragment, 3usize) && recipes[7].difficulty == 3,
        recipes[8].name@ == "Breeze Vessel"@ && recipes[8].inputs@ == seq![(Material::WindLeaf, 2usize), (Material::MistVial, 1usize)]
            && recipes[8].output == (Material::BuildKit, 2usize) && recipes[8].difficulty == 2,
        recipes[9].name@ == "Forge Heart"@ && recipes[9].inputs@ == seq![(Material::FireShard, 2usize), (Material::IronBloom, 1usize), (Material::SunSpark, 1usize)]
            && recipes[9].output == (Material::HeartCrystal, 1usize) && recipes[9].difficulty == 4,
        recipes[10].name@ == "Crystal Focus"@ && recipes[10].inputs@ == seq![(Material::Crystal, 3usize), (Material::StarFragment, 1usize)]
            && recipes[10].output == (Material::HeartCrystal, 1usize) && recipes[10].difficulty == 3,
        recipes[11].name@ == "Stone Wall"@ && recipes[11].inputs@ == seq![(Material::Stone, 3usize)]
            && recipes[11].output == (Material::BuildKit, 1usize) && recipes[11].difficulty == 1,
        recipes[12].name@ == "Glow Lantern"@ && recipes[12].inputs@ == seq![(Material::GlowDust, 3usize), (Material::Wood, 1usize)]
            && recipes[12].output == (Material::SunSpark, 2usize) && recipes[12].difficulty == 1,
        recipes[13].name@ == "Tempest Core"@ && recipes[13].inputs@ == seq![(Material::WindLeaf, 2usize), (Material::WaterEssence, 2usize), (Material::EarthShard, 1usize)]
            && recipes[13].output == (Material::MoonStone, 3usize) && recipes[13].difficulty == 4,
        recipes[14].name@ == "Stellar Forge"@ && recipes[14].inputs@ == seq![(Material::StarFragment, 2usize), (Material::FireShard, 2usize), (Material::HeartCrystal, 1usize)]
            && recipes[14].output == (Material::Crystal, 5usize) && recipes[14].difficulty == 5,
        recipes[15].name@ == "Primordial Clay"@ && recipes[15].inputs@ == seq![(Material::EarthShard, 1usize), (Material::WaterEssence, 1usize)]
            && recipes[15].output == (Material::Stone, 3usize) && recipes[15].difficulty == 1,
{
    assert(recipes[0].name@ == standard_names()[0]);
    assert(recipes[1].name@ == standard_names()[1]);
    assert(recipes[2].name@ == standard_names()[2]);
    assert(recipes[3].name@ == standard_names()[3]);
    assert(recipes[4].name@ == standard_names()[4]);
    assert(recipes[5].name@ == standard_names()[5]);
    assert(recipes[6].name@ == standard_names()[6]);
    assert(recipes[7].name@ == standard_names()[7]);
    assert(recipes[8].name@ == standard_names()[8]);
    assert(recipes[9].name@ == standard_names()[9]);
    assert(recipes[10].name@ == standard_names()[10]);
    assert(recipes[11].name@ == standard_names()[11]);
    assert(recipes[12].name@ == standard_names()[12]);
    assert(recipes[13].name@ == standard_names()[13]);
    assert(recipes[14].name@ == standard_names()[14]);
    assert(recipes[15].name@ == standard_names()[15]);
}

/// A difficulty already in 1..=5 is kept; one below is raised to 1 and one above
/// is lowered to 5.
pub proof fn law_difficulty_clamp(difficulty: u32)
    ensures
        1 <= difficulty <= 5 ==> clamped_difficulty(difficulty) == difficulty,
        difficulty < 1 ==> clamped_difficulty(difficulty) == 1,
        difficulty > 5 ==> clamped_difficulty(difficulty) == 5,
{
}

/// A recipe uses a material exactly when some input, at any position, names it.
pub proof fn law_uses_any_input(recipe: Recipe, material: Material)
    ensures
        recipe.uses(material) <==> exists|j: int|
            0 <= j < recipe.inputs@.len() && #[trigger] recipe.inputs@[j].0 == material,
{
}

/// The search keeps exactly the recipes of the list that have some input, at any
/// position, naming the material: each such recipe is in the result, and each
/// recipe of the result is one of the list with such an input.
pub proof fn law_search_finds_every_user(recipes: Seq<Recipe>, material: Material)
    ensures
        forall|i: int, j: int|
            0 <= i < recipes.len() && 0 <= j < recipes[i].inputs@.len()
                && #[trigger] recipes[i].inputs@[j].0 == material ==> recipes_using(
                recipes,
                material,
            ).contains(recipes[i]),
        forall|k: int|
            0 <= k < recipes_using(recipes, material).len() ==> recipes.contains(
                #[trigger] recipes_using(recipes, material)[k],
            ) && exists|j: int|
                0 <= j < recipes_using(recipes, material)[k].inputs@.len()
                    && recipes_using(recipes, material)[k].inputs@[j].0 == material,
    decreases recipes.len(),
{
    if recipes.len() > 0 {
        let rest = recipes.drop_last();
        let last = recipes.last();
        law_search_finds_every_user(rest, material);
        let found = recipes_using(recipes, material);
        let found_rest = recipes_using(rest, material);
        assert forall|i: int, j: int|
            0 <= i < recipes.len() && 0 <= j < recipes[i].inputs@.len()
                && #[trigger] recipes[i].inputs@[j].0 == material implies found.contains(
            recipes[i],
        ) by {
            if i < recipes.len() - 1 {
                assert(rest[i] == recipes[i]);
                assert(rest[i].inputs@[j].0 == material);
                let k = choose|k: int| 0 <= k < found_rest.len() && found_rest[k] == recipes[i];
                if last.uses(material) {
                    assert(found[k] == found_rest[k]);
                } else {
                    assert(found[k] == found_rest[k]);
                }
            } else {
                assert(last.inputs@[j].0 == material);
                assert(last.uses(material));
                assert(found[found.len() - 1] == last);
            }
        }
        assert forall|k: int| 0 <= k < found.len() implies recipes.contains(#[trigger] found[k])
            && exists|j: int|
            0 <= j < found[k].inputs@.len() && found[k].inputs@[j].0 == material by {
            if k < found_rest.len() {
                assert(found[k] == found_rest[k]);
                let r = found_rest[k];
                assert(recipes_using(rest, material)[k] == r);
                let m = choose|m: int| 0 <= m < rest.len() && rest[m] == r;
                assert(recipes[m] == r);
            } else {
                assert(last.uses(material));
                assert(found[k] == last);
                assert(recipes[recipes.len() - 1] == last);
                let j = choose|j: int| 0 <= j < last.inputs@.len() && #[trigger] last.inputs@[j].0 == material;
                assert(found[k].inputs@[j].0 == material);
            }
        }
    }
}

/// A stock covers a list of needs exactly when, for every need, the stock's
/// units of that material (summed over its pairs) are at least the count needed.
pub proof fn law_covers_is_at_least(stock: Seq<(Material, usize)>, needs: Seq<(Material, usize)>)
    ensures
        covers(stock, needs) <==> forall|i: int|
            0 <= i < needs.len() ==> amount_of(stock, #[trigger] needs[i].0) >= needs[i].1,
{
}

/// A stock map covers a list of needs exactly when, for every need, the map
/// holds at least the count needed of that material (0 without an entry).
pub proof fn law_stock_covers_is_at_least(stock: Map<Material, nat>, needs: Seq<(Material, usize)>)
    ensures
        stock_covers(stock, needs) <==> forall|i: int|
            0 <= i < needs.len() ==> (if stock.contains_key(#[trigger] needs[i].0) {
                stock[needs[i].0]
            } else {
                0
            }) >= needs[i].1,
{
}

/// A book can craft a recipe from a stock exactly when it knows a recipe of that
/// name and the stock holds, for each input of the first such recipe, at least
/// the count needed of its material.
pub proof fn law_craftable_is_known_and_enough(
    book: RecipeBook,
    name: Seq<char>,
    stock: Seq<(Material, usize)>,
)
    ensures
        book.craftable(name, stock) <==> (book.knows(name) && forall|i: int|
            0 <= i < book.known_recipe(name).inputs@.len() ==> amount_of(
                stock,
                #[trigger] book.known_recipe(name).inputs@[i].0,
            ) >= book.known_recipe(name).inputs@[i].1),
{
}

} // verus!
