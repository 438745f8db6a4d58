use vstd::prelude::*;

verus! {

/// Raw materials that can be combined in recipes.
#[derive(Debug, Clone, Copy, PartialEq, Eq, Hash, Structural)]
pub enum Material {
    Stone,
    Wood,
    Crystal,
    GlowDust,
    WaterEssence,
    FireShard,
    WindLeaf,
    EarthShard,
    MoonStone,
    StarFragment,
    HeartCrystal,
    BuildKit,
    MistVial,
    SunSpark,
    IronBloom,
}

impl Material {
    /// The human-readable label of a material, as characters.
    pub open spec fn label_text(self) -> Seq<char> {
        match self {
            Material::Stone => "Stone"@,
            Material::Wood => "Wood"@,
            Material::Crystal => "Crystal"@,
            Material::GlowDust => "Glow Dust"@,
            Material::WaterEssence => "Water Essence"@,
            Material::FireShard => "Fire Shard"@,
            Material::WindLeaf => "Wind Leaf"@,
            Material::EarthShard => "Earth Shard"@,
            Material::MoonStone => "Moon Stone"@,
            Material::StarFragment => "Star Fragment"@,
            Material::HeartCrystal => "Heart Crystal"@,
            Material::BuildKit => "Build Kit"@,
            Material::MistVial => "Mist Vial"@,
            Material::SunSpark => "Sun Spark"@,
            Material::IronBloom => "Iron Bloom"@,
        }
    }

    /// Human-readable label for each material.
    pub fn label(&self) -> (text: &'static str)
        ensures
            text@ == self.label_text(),
    {
        match self {
            Material::Stone => "Stone",
            Material::Wood => "Wood",
            Material::Crystal => "Crystal",
            Material::GlowDust => "Glow Dust",
            Material::WaterEssence => "Water Essence",
            Material::FireShard => "Fire Shard",
            Material::WindLeaf => "Wind Leaf",
            Material::EarthShard => "Earth Shard",
            Material::MoonStone => "Moon Stone",
            Material::StarFragment => "Star Fragment",
            Material::HeartCrystal => "Heart Crystal",
            Material::BuildKit => "Build Kit",
            Material::MistVial => "Mist Vial",
            Material::SunSpark => "Sun Spark",
            Material::IronBloom => "Iron Bloom",
        }
    }
}

} // verus!
