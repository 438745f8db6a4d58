use vstd::prelude::*;
use crate::material::Material;
use crate::recipe::Recipe;

verus! {

/// The names of the standard recipes, in order.
pub open spec fn standard_names() -> Seq<Seq<char>> {
    seq![
        "Glow Star"@,
        "Tidal Stone"@,
        "Build Kit"@,
        "Heart Shard"@,
        "Mist Essence"@,
        "Sun Spark"@,
        "Earth Bloom"@,
        "Lunar Lance"@,
        "Breeze Vessel"@,
        "Forge Heart"@,
        "Crystal Focus"@,
        "Stone Wall"@,
        "Glow Lantern"@,
        "Tempest Core"@,
        "Stellar Forge"@,
        "Primordial Clay"@,
    ]
}

/// The inputs of the standard recipes, in order.
pub open spec fn standard_inputs() -> Seq<Seq<(Material, usize)>> {
    seq![
        seq![(Material::Crystal, 1usize), (Material::GlowDust, 2usize)],
        seq![(Material::WaterEssence, 2usize), (Material::FireShard, 1usize)],
        seq![(Material::Wood, 2usize), (Material::Stone, 1usize)],
        seq![(Material::HeartCrystal, 1usize), (Material::MoonStone, 1usize), (Material::GlowDust, 1usize)],
        seq![(Material::WaterEssence, 1usize), (Material::WindLeaf, 1usize)],
        seq![(Material::FireShard, 1usize), (Material::GlowDust, 2usize)],
        seq![(Material::EarthShard, 2usize), (Material::WaterEssence, 1usize), (Material::Wood, 1usize)],
        seq![(Material::MoonStone, 2usize), (Material::Crystal, 1usize)],
        seq![(Material::WindLeaf, 2usize), (Material::MistVial, 1usize)],
        seq![(Material::FireShard, 2usize), (Material::IronBloom, 1usize), (Material::SunSpark, 1usize)],
        seq![(Material::Crystal, 3usize), (Material::StarFragment, 1usize)],
        seq![(Material::Stone, 3usize)],
        seq![(Material::GlowDust, 3usize), (Material::Wood, 1usize)],
        seq![(Material::WindLeaf, 2usize), (Material::WaterEssence, 2usize), (Material::EarthShard, 1usize)],
        seq![(Material::StarFragment, 2usize), (Material::FireShard, 2usize), (Material::HeartCrystal, 1usize)],
        seq![(Material::EarthShard, 1usize), (Material::WaterEssence, 1usize)],
    ]
}

/// The outputs of the standard recipes, in order.
pub open spec fn standard_outputs() -> Seq<(Material, usize)> {
    seq![
        (Material::StarFragment, 1usize),
        (Material::MoonStone, 1usize),
        (Material::BuildKit, 1usize),
        (Material::StarFragment, 2usize),
        (Material::MistVial, 2usize),
        (Material::SunSpark, 1usize),
        (Material::IronBloom, 1usize),
        (Material::StarFragment, 3usize),
        (Material::BuildKit, 2usize),
        (Material::HeartCrystal, 1usize),
        (Material::HeartCrystal, 1usize),
        (Material::BuildKit, 1usize),
        (Material::SunSpark, 2usize),
        (Material::MoonStone, 3usize),
        (Material::Crystal, 5usize),
        (Material::Stone, 3usize),
    ]
}

/// The difficulties of the standard recipes, in order.
pub open spec fn standard_difficulties() -> Seq<u32> {
    seq![1u32, 2u32, 1u32, 3u32, 1u32, 2u32, 2u32, 3u32, 2u32, 4u32, 3u32, 1u32, 1u32, 4u32, 5u32, 1u32]
}

/// `recipes` is the standard recipe list, none of it discovered yet.
pub open spec fn is_standard_list(recipes: Seq<Recipe>) -> bool {
    &&& recipes.len() == standard_names().len()
    &&& forall|i: int|
        #![trigger recipes[i]]
        0 <= i < recipes.len() ==> {
            &&& recipes[i].name@ == standard_names()[i]
            &&& recipes[i].inputs@ == standard_inputs()[i]
            &&& recipes[i].output == standard_outputs()[i]
            &&& recipes[i].difficulty == standard_difficulties()[i]
            &&& recipes[i].discovered_by is None
        }
}

/// No two standard recipes share a name.
proof fn lemma_standard_names_distinct()
    ensures
        forall|i: int, j: int|
            0 <= i < j < standard_names().len() ==> #[trigger] standard_names()[i]
                != #[trigger] standard_names()[j],
{
    reveal_strlit("Glow Star");
    reveal_strlit("Tidal Stone");
    reveal_strlit("Build Kit");
    reveal_strlit("Heart Shard");
    reveal_strlit("Mist Essence");
    reveal_strlit("Sun Spark");
    reveal_strlit("Earth Bloom");
    reveal_strlit("Lunar Lance");
    reveal_strlit("Breeze Vessel");
    reveal_strlit("Forge Heart");
    reveal_strlit("Crystal Focus");
    reveal_strlit("Stone Wall");
    reveal_strlit("Glow Lantern");
    reveal_strlit("Tempest Core");
    reveal_strlit("Stellar Forge");
    reveal_strlit("Primordial Clay");
    let names = standard_names();
    assert forall|i: int, j: int| 0 <= i < j < names.len() implies names[i].len() != names[j].len()
        || names[i][0] != names[j][0] by {
    }
}

/// Build the standard set of discoverable recipes for the Lau platform.
#[verifier::rlimit(50)]
pub fn default_recipes() -> (recipes: Vec<Recipe>)
    ensures
        is_standard_list(recipes@),
        recipes@.len() == 16,
        forall|i: int| 0 <= i < recipes@.len() ==> 1 <= #[trigger] recipes@[i].difficulty <= 5,
        forall|i: int, j: int|
            0 <= i < j < recipes@.len() ==> #[trigger] recipes@[i].name@ != #[trigger] recipes@[j].name@,
{
    let mut recipes: Vec<Recipe> = Vec::new();
    recipes.push(
        Recipe::new(
            "Glow Star",
            vec![(Material::Crystal, 1), (Material::GlowDust, 2)],
            (Material::StarFragment, 1),
            1,
        ),
    );
    recipes.push(
        Recipe::new(
            "Tidal Stone",
            vec![(Material::WaterEssence, 2), (Material::FireShard, 1)],
            (Material::MoonStone, 1),
            2,
        ),
    );
    recipes.push(
        Recipe::new(
            "Build Kit",
            vec![(Material::Wood, 2), (Material::Stone, 1)],
            (Material::BuildKit, 1),
            1,
        ),
    );
    recipes.push(
        Recipe::new(
            "Heart Shard",
            vec![(Material::HeartCrystal, 1), (Material::MoonStone, 1), (Material::GlowDust, 1)],
            (Material::StarFragment, 2),
            3,
        ),
    );
    recipes.push(
        Recipe::new(
            "Mist Essence",
            vec![(Material::WaterEssence, 1), (Material::WindLeaf, 1)],
            (Material::MistVial, 2),
            1,
        ),
    );
    recipes.push(
        Recipe::new(
            "Sun Spark",
            vec![(Material::FireShard, 1), (Material::GlowDust, 2)],
            (Material::SunSpark, 1),
            2,
        ),
    );
    recipes.push(
        Recipe::new(
            "Earth Bloom",
            vec![(Material::EarthShard, 2), (Material::WaterEssence, 1), (Material::Wood, 1)],
            (Material::IronBloom, 1),
            2,
        ),
    );
    recipes.push(
        Recipe::new(
            "Lunar Lance",
            vec![(Material::MoonStone, 2), (Material::Crystal, 1)],
            (Material::StarFragment, 3),
            3,
        ),
    );
    recipes.push(
        Recipe::new(
            "Breeze Vessel",
            vec![(Material::WindLeaf, 2), (Material::MistVial, 1)],
            (Material::BuildKit, 2),
            2,
        ),
    );
    recipes.push(
        Recipe::new(
            "Forge Heart",
            vec![(Material::FireShard, 2), (Material::IronBloom, 1), (Material::SunSpark, 1)],
            (Material::HeartCrystal, 1),
            4,
        ),
    );
    recipes.push(
        Recipe::new(
            "Crystal Focus",
            vec![(Material::Crystal, 3), (Material::StarFragment, 1)],
            (Material::HeartCrystal, 1),
            3,
        ),
    );
    recipes.push(
        Recipe::new(
            "Stone Wall",
            vec![(Material::Stone, 3)],
            (Material::BuildKit, 1),
            1,
        ),
    );
    recipes.push(
        Recipe::new(
            "Glow Lantern",
            vec![(Material::GlowDust, 3), (Material::Wood, 1)],
            (Material::SunSpark, 2),
            1,
        ),
    );
    recipes.push(
        Recipe::new(
            "Tempest Core",
            vec![(Material::WindLeaf, 2), (Material::WaterEssence, 2), (Material::EarthShard, 1)],
            (Material::MoonStone, 3),
            4,
        ),
    );
    recipes.push(
        Recipe::new(
            "Stellar Forge",
            vec![(Material::StarFragment, 2), (Material::FireShard, 2), (Material::HeartCrystal, 1)],
            (Material::Crystal, 5),
            5,
        ),
    );
    recipes.push(
        Recipe::new(
            "Primordial Clay",
            vec![(Material::EarthShard, 1), (Material::WaterEssence, 1)],
            (Material::Stone, 3),
            1,
        ),
    );
    proof {
        lemma_standard_names_distinct();
        assert(recipes@[0].name@ == standard_names()[0]);
        assert(recipes@[1].name@ == standard_names()[1]);
        assert(recipes@[2].name@ == standard_names()[2]);
        assert(recipes@[3].name@ == standard_names()[3]);
        assert(recipes@[4].name@ == standard_names()[4]);
        assert(recipes@[5].name@ == standard_names()[5]);
        assert(recipes@[6].name@ == standard_names()[6]);
        assert(recipes@[7].name@ == standard_names()[7]);
        assert(recipes@[8].name@ == standard_names()[8]);
        assert(recipes@[9].name@ == standard_names()[9]);
        assert(recipes@[10].name@ == standard_names()[10]);
        assert(recipes@[11].name@ == standard_names()[11]);
        assert(recipes@[12].name@ == standard_names()[12]);
        assert(recipes@[13].name@ == standard_names()[13]);
        assert(recipes@[14].name@ == standard_names()[14]);
        assert(recipes@[15].name@ == standard_names()[15]);
        assert(recipes@[0].inputs@ == standard_inputs()[0]);
        assert(recipes@[0].output == standard_outputs()[0]);
        assert(recipes@[0].difficulty == standard_difficulties()[0]);
        assert(recipes@[1].inputs@ == standard_inputs()[1]);
        assert(recipes@[1].output == standard_outputs()[1]);
        assert(recipes@[1].difficulty == standard_difficulties()[1]);
        assert(recipes@[2].inputs@ == standard_inputs()[2]);
        assert(recipes@[2].output == standard_outputs()[2]);
        assert(recipes@[2].difficulty == standard_difficulties()[2]);
        assert(recipes@[3].inputs@ == standard_inputs()[3]);
        assert(recipes@[3].output == standard_outputs()[3]);
        assert(recipes@[3].difficulty == standard_difficulties()[3]);
        assert(recipes@[4].inputs@ == standard_inputs()[4]);
        assert(recipes@[4].output == standard_outputs()[4]);
        assert(recipes@[4].difficulty == standard_difficulties()[4]);
        assert(recipes@[5].inputs@ == standard_inputs()[5]);
        assert(recipes@[5].output == standard_outputs()[5]);
        assert(recipes@[5].difficulty == standard_difficulties()[5]);
        assert(recipes@[6].inputs@ == standard_inputs()[6]);
        assert(recipes@[6].output == standard_outputs()[6]);
        assert(recipes@[6].difficulty == standard_difficulties()[6]);
        assert(recipes@[7].inputs@ == standard_inputs()[7]);
        assert(recipes@[7].output == standard_outputs()[7]);
        assert(recipes@[7].difficulty == standard_difficulties()[7]);
        assert(recipes@[8].inputs@ == standard_inputs()[8]);
        assert(recipes@[8].output == standard_outputs()[8]);
        assert(recipes@[8].difficulty == standard_difficulties()[8]);
        assert(recipes@[9].inputs@ == standard_inputs()[9]);
        assert(recipes@[9].output == standard_outputs()[9]);
        assert(recipes@[9].difficulty == standard_difficulties()[9]);
        assert(recipes@[10].inputs@ == standard_inputs()[10]);
        assert(recipes@[10].output == standard_outputs()[10]);
        assert(recipes@[10].difficulty == standard_difficulties()[10]);
        assert(recipes@[11].inputs@ == standard_inputs()[11]);
        assert(recipes@[11].output == standard_outputs()[11]);
        assert(recipes@[11].difficulty == standard_difficulties()[11]);
        assert(recipes@[12].inputs@ == standard_inputs()[12]);
        assert(recipes@[12].output == standard_outputs()[12]);
        assert(recipes@[12].difficulty == standard_difficulties()[12]);
        assert(recipes@[13].inputs@ == standard_inputs()[13]);
        assert(recipes@[13].output == standard_outputs()[13]);
        assert(recipes@[13].difficulty == standard_difficulties()[13]);
        assert(recipes@[14].inputs@ == standard_inputs()[14]);
        assert(recipes@[14].output == standard_outputs()[14]);
        assert(recipes@[14].difficulty == standard_difficulties()[14]);
        assert(recipes@[15].inputs@ == standard_inputs()[15]);
        assert(recipes@[15].output == standard_outputs()[15]);
        assert(recipes@[15].difficulty == standard_difficulties()[15]);
        assert(is_standard_list(recipes@));
    }
    recipes
}

} // verus!
