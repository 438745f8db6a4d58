//! Crafting recipes for the Lau platform: raw materials, recipes that turn
//! inputs into an output, a book of known and discoverable recipes, and a
//! player's inventory that recipes are crafted from.

pub mod material;
pub mod tally;
pub mod recipe;
pub mod inventory;
pub mod book;
pub mod defaults;
pub mod laws;

pub use material::Material;
pub use recipe::Recipe;
pub use book::RecipeBook;
pub use inventory::Inventory;
pub use defaults::default_recipes;
