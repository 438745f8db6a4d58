use vstd::prelude::*;
use vstd::string::*;
use crate::material::Material;
use crate::recipe::Recipe;
use crate::defaults::{default_recipes, is_standard_list};
use crate::tally::{amount_in, copy_pairs, covers, tallies_fit};

verus! {

/// Some recipe of the list has this name.
pub open spec fn has_named(recipes: Seq<Recipe>, name: Seq<char>) -> bool {
    exists|i: int| 0 <= i < recipes.len() && #[trigger] recipes[i].name@ == name
}

/// `i` is the first position of the list that holds a recipe of this name.
pub open spec fn is_first_named(recipes: Seq<Recipe>, name: Seq<char>, i: int) -> bool {
    &&& 0 <= i < recipes.len()
    &&& recipes[i].name@ == name
    &&& forall|j: int| 0 <= j < i ==> #[trigger] recipes[j].name@ != name
}

/// The first position of the list that holds a recipe of this name
/// (meaningful where `has_named` holds).
pub open spec fn first_named(recipes: Seq<Recipe>, name: Seq<char>) -> int {
    choose|i: int| is_first_named(recipes, name, i)
}

/// A first position is the only first position.
pub proof fn lemma_first_named_unique(recipes: Seq<Recipe>, name: Seq<char>, i: int)
    requires
        is_first_named(recipes, name, i),
    ensures
        first_named(recipes, name) == i,
{
    let k = first_named(recipes, name);
    assert(is_first_named(recipes, name, k));
    if k < i {
        assert(recipes[k].name@ != name);
    }
    if i < k {
        assert(recipes[i].name@ != name);
    }
}

/// Where a name occurs in the list, it has a first position.
pub proof fn lemma_first_named_exists(recipes: Seq<Recipe>, name: Seq<char>)
    requires
        has_named(recipes, name),
    ensures
        is_first_named(recipes, name, first_named(recipes, name)),
    decreases recipes.len(),
{
    let rest = recipes.drop_last();
    if has_named(rest, name) {
        lemma_first_named_exists(rest, name);
        let k = first_named(rest, name);
        assert forall|j: int| 0 <= j < k implies #[trigger] recipes[j].name@ != name by {
            assert(rest[j] == recipes[j]);
        }
        assert(is_first_named(recipes, name, k));
    } else {
        let last = recipes.len() - 1;
        assert forall|j: int| 0 <= j < last implies #[trigger] recipes[j].name@ != name by {
            assert(rest[j] == recipes[j]);
        }
        let i = choose|i: int| 0 <= i < recipes.len() && #[trigger] recipes[i].name@ == name;
        if i < last {
            assert(rest[i] == recipes[i]);
        }
        assert(is_first_named(recipes, name, last));
    }
}

/// The recipes of the list that take `material` as an input, in list order.
pub open spec fn recipes_using(recipes: Seq<Recipe>, material: Material) -> Seq<Recipe>
    decreases recipes.len(),
{
    if recipes.len() == 0 {
        Seq::empty()
    } else {
        let rest = recipes_using(recipes.drop_last(), material);
        if recipes.last().uses(material) {
            rest.push(recipes.last())
        } else {
            rest
        }
    }
}

/// The references point, in order, at the recipes of `recipes`.
pub open spec fn refers_to(refs: Seq<&Recipe>, recipes: Seq<Recipe>) -> bool {
    &&& refs.len() == recipes.len()
    &&& forall|i: int| 0 <= i < refs.len() ==> *#[trigger] refs[i] == recipes[i]
}

/// The error text for a recipe name that is not known.
pub open spec fn unknown_recipe_message(name: Seq<char>) -> Seq<char> {
    "Recipe '"@ + name + "' is not yet known"@
}

/// The error text for a known recipe whose inputs are not all at hand.
pub open spec fn short_of_materials_message(name: Seq<char>) -> Seq<char> {
    "Not enough materials for recipe '"@ + name + "'"@
}

/// The error text for a recipe name that is not known.
pub fn unknown_recipe_error(name: &str) -> (message: String)
    ensures
        message@ == unknown_recipe_message(name@),
{
    let mut message = String::from_str("Recipe '");
    message.append(name);
    message.append("' is not yet known");
    message
}

/// The error text for a known recipe whose inputs are not all at hand.
pub fn short_of_materials_error(name: &str) -> (message: String)
    ensures
        message@ == short_of_materials_message(name@),
{
    let mut message = String::from_str("Not enough materials for recipe '");
    message.append(name);
    message.append("'");
    message
}

/// The first position of the list that holds a recipe named `name`.
pub fn find_named(recipes: &Vec<Recipe>, name: &String) -> (pos: Option<usize>)
    ensures
        match pos {
            Some(i) => is_first_named(recipes@, name@, i as int) && first_named(recipes@, name@)
                == i,
            None => !has_named(recipes@, name@),
        },
{
    let mut i: usize = 0;
    while i < recipes.len()
        invariant
            i <= recipes@.len(),
            forall|j: int| 0 <= j < i ==> #[trigger] recipes@[j].name@ != name@,
        decreases recipes@.len() - i,
    {
        if recipes[i].name == *name {
            proof {
                lemma_first_named_unique(recipes@, name@, i as int);
            }
            return Some(i);
        }
        i += 1;
    }
    None
}

/// Check that the stock holds enough of each required material: the counts of
/// the stock are summed per material, and each input is checked on its own.
pub fn has_sufficient_materials(recipe: &Recipe, inventory: &[(Material, usize)]) -> (enough: bool)
    requires
        tallies_fit(inventory@),
    ensures
        enough == covers(inventory@, recipe.inputs@),
        enough == forall|i: int|
            0 <= i < recipe.inputs@.len() ==> crate::tally::amount_of(
                inventory@,
                #[trigger] recipe.inputs@[i].0,
            ) >= recipe.inputs@[i].1,
{
    let mut i: usize = 0;
    while i < recipe.inputs.len()
        invariant
            i <= recipe.inputs@.len(),
            tallies_fit(inventory@),
            forall|j: int|
                0 <= j < i ==> crate::tally::amount_of(inventory@, #[trigger] recipe.inputs@[j].0)
                    >= recipe.inputs@[j].1,
        decreases recipe.inputs@.len() - i,
    {
        let (material, need) = recipe.inputs[i];
        let have = amount_in(inventory, material);
        if have < need {
            return false;
        }
        i += 1;
    }
    true
}

/// A book of known and discoverable recipes.
#[derive(Debug)]
pub struct RecipeBook {
    pub known_recipes: Vec<Recipe>,
    pub discoverable_recipes: Vec<Recipe>,
}

impl RecipeBook {
    /// A known recipe has this name.
    pub open spec fn knows(&self, name: Seq<char>) -> bool {
        has_named(self.known_recipes@, name)
    }

    /// The first known recipe of this name (meaningful where `knows` holds).
    pub open spec fn known_recipe(&self, name: Seq<char>) -> Recipe {
        self.known_recipes@[first_named(self.known_recipes@, name)]
    }

    /// The recipe of this name is known and the stock covers each of its inputs.
    pub open spec fn craftable(&self, name: Seq<char>, stock: Seq<(Material, usize)>) -> bool {
        self.knows(name) && covers(stock, self.known_recipe(name).inputs@)
    }

    /// Create a new empty recipe book.
    pub fn new() -> (book: Self)
        ensures
            book.known_recipes@.len() == 0,
            book.discoverable_recipes@.len() == 0,
    {
        RecipeBook { known_recipes: Vec::new(), discoverable_recipes: Vec::new() }
    }

    /// Create a recipe book with the built-in recipe list, all of it yet to be
    /// discovered.
    pub fn with_defaults() -> (book: Self)
        ensures
            book.known_recipes@.len() == 0,
            is_standard_list(book.discoverable_recipes@),
    {
        RecipeBook { known_recipes: Vec::new(), discoverable_recipes: default_recipes() }
    }

    /// Unlock a discoverable recipe so it can be crafted: the first discoverable
    /// recipe of that name moves, marked with its discoverer, to the end of the
    /// known recipes. Returns the recipe just moved.
    pub fn discover(&mut self, recipe_name: &str, discoverer: &str) -> (found: Option<&Recipe>)
        ensures
            final(self).known_recipes@.len() + final(self).discoverable_recipes@.len()
                == old(self).known_recipes@.len() + old(self).discoverable_recipes@.len(),
            !has_named(old(self).discoverable_recipes@, recipe_name@) ==> {
                &&& found is None
                &&& final(self).known_recipes@ == old(self).known_recipes@
                &&& final(self).discoverable_recipes@ == old(self).discoverable_recipes@
            },
            has_named(old(self).discoverable_recipes@, recipe_name@) ==> {
                let p = first_named(old(self).discoverable_recipes@, recipe_name@);
                &&& final(self).discoverable_recipes@ == old(self).discoverable_recipes@.remove(p)
                &&& final(self).known_recipes@.len() == old(self).known_recipes@.len() + 1
                &&& final(self).known_recipes@.drop_last() == old(self).known_recipes@
                &&& final(self).known_recipes@.last().discovered_from(
                    &old(self).discoverable_recipes@[p],
                    discoverer@,
                )
                &&& final(self).knows(recipe_name@)
                &&& found == Some(&final(self).known_recipes@.last())
            },
    {
        let wanted = recipe_name.to_owned();
        let pos = find_named(&self.discoverable_recipes, &wanted);
        match pos {
            None => None,
            Some(p) => {
                let mut recipe = self.discoverable_recipes.remove(p);
                recipe.discover(discoverer);
                self.known_recipes.push(recipe);
                proof {
                    let known = self.known_recipes@;
                    assert(known[known.len() - 1].name@ == recipe_name@);
                    assert(known.drop_last() =~= old(self).known_recipes@);
                }
                let last = self.known_recipes.len() - 1;
                Some(&self.known_recipes[last])
            },
        }
    }

    /// Try to craft a known recipe from the stock `inventory`. On success returns
    /// the recipe's inputs, for the caller to remove; else an error text.
    pub fn craft(&self, recipe_name: &str, inventory: &[(Material, usize)]) -> (result: Result<
        Vec<(Material, usize)>,
        String,
    >)
        requires
            self.knows(recipe_name@) ==> tallies_fit(inventory@),
        ensures
            match result {
                Ok(consumed) => self.craftable(recipe_name@, inventory@) && consumed@
                    == self.known_recipe(recipe_name@).inputs@,
                Err(message) => !self.craftable(recipe_name@, inventory@) && message@ == if self.knows(
                    recipe_name@,
                ) {
                    short_of_materials_message(recipe_name@)
                } else {
                    unknown_recipe_message(recipe_name@)
                },
            },
    {
        let wanted = recipe_name.to_owned();
        let recipe = match find_named(&self.known_recipes, &wanted) {
            Some(k) => &self.known_recipes[k],
            None => {
                return Err(unknown_recipe_error(recipe_name));
            },
        };
        if !has_sufficient_materials(recipe, inventory) {
            return Err(short_of_materials_error(recipe_name));
        }
        Ok(copy_pairs(&recipe.inputs))
    }

    /// Check whether a recipe can be crafted with the given stock.
    pub fn can_craft(&self, recipe_name: &str, inventory: &[(Material, usize)]) -> (craftable: bool)
        requires
            self.knows(recipe_name@) ==> tallies_fit(inventory@),
        ensures
            craftable == self.craftable(recipe_name@, inventory@),
    {
        let wanted = recipe_name.to_owned();
        match find_named(&self.known_recipes, &wanted) {
            Some(k) => has_sufficient_materials(&self.known_recipes[k], inventory),
            None => false,
        }
    }

    /// Search known recipes by an input material: what can I make with it?
    pub fn search_by_input(&self, material: Material) -> (found: Vec<&Recipe>)
        ensures
            refers_to(found@, recipes_using(self.known_recipes@, material)),
            forall|i: int, j: int|
                0 <= i < (self.known_recipes@).len() && 0 <= j < (self.known_recipes@)[i].inputs@.len()
                    && #[trigger] (self.known_recipes@)[i].inputs@[j].0 == material ==> exists|k: int|
                    0 <= k < found@.len() && *found@[k] == (self.known_recipes@)[i],
            forall|k: int|
                0 <= k < found@.len() ==> exists|j: int|
                    0 <= j < (*#[trigger] found@[k]).inputs@.len() && (*found@[k]).inputs@[j].0
                        == material,
    {
        let mut found: Vec<&Recipe> = Vec::new();
        assert(refers_to(found@, Seq::<Recipe>::empty()));
        collect_using(&self.known_recipes, material, &mut found);
        assert(Seq::<Recipe>::empty() + recipes_using(self.known_recipes@, material) =~= recipes_using(
            self.known_recipes@,
            material,
        ));
        proof {
            crate::laws::law_search_finds_every_user(self.known_recipes@, material);
            let all = self.known_recipes@;
            let using = recipes_using(all, material);
            assert forall|i: int, j: int|
                0 <= i < all.len() && 0 <= j < all[i].inputs@.len() && #[trigger] all[i].inputs@[j].0
                    == material implies exists|k: int| 0 <= k < found@.len() && *found@[k] == all[i] by {
                assert(using.contains(all[i]));
                let k = choose|k: int| 0 <= k < using.len() && using[k] == all[i];
                assert(*found@[k] == all[i]);
            }
            assert forall|k: int| 0 <= k < found@.len() implies exists|j: int|
                0 <= j < (*#[trigger] found@[k]).inputs@.len() && (*found@[k]).inputs@[j].0 == material by {
                assert(*found@[k] == using[k]);
            }
        }
        found
    }

    /// Search all recipes (known, then discoverable) by an input material.
    pub fn search_all_by_input(&self, material: Material) -> (found: Vec<&Recipe>)
        ensures
            refers_to(
                found@,
                recipes_using(self.known_recipes@ + self.discoverable_recipes@, material),
            ),
            forall|i: int, j: int|
                0 <= i < (self.known_recipes@ + self.discoverable_recipes@).len() && 0 <= j < (self.known_recipes@ + self.discoverable_recipes@)[i].inputs@.len()
                    && #[trigger] (self.known_recipes@ + self.discoverable_recipes@)[i].inputs@[j].0 == material ==> exists|k: int|
                    0 <= k < found@.len() && *found@[k] == (self.known_recipes@ + self.discoverable_recipes@)[i],
            forall|k: int|
                0 <= k < found@.len() ==> exists|j: int|
                    0 <= j < (*#[trigger] found@[k]).inputs@.len() && (*found@[k]).inputs@[j].0
                        == material,
    {
        let mut found: Vec<&Recipe> = Vec::new();
        assert(refers_to(found@, Seq::<Recipe>::empty()));
        collect_using(&self.known_recipes, material, &mut found);
        assert(Seq::<Recipe>::empty() + recipes_using(self.known_recipes@, material)
            =~= recipes_using(self.known_recipes@, material));
        assert(refers_to(found@, recipes_using(self.known_recipes@, material)));
        collect_using(&self.discoverable_recipes, material, &mut found);
        proof {
            lemma_using_concat(self.known_recipes@, self.discoverable_recipes@, material);
            crate::laws::law_search_finds_every_user(
                self.known_recipes@ + self.discoverable_recipes@,
                material,
            );
            let all = self.known_recipes@ + self.discoverable_recipes@;
            let using = recipes_using(all, material);
            assert forall|i: int, j: int|
                0 <= i < all.len() && 0 <= j < all[i].inputs@.len() && #[trigger] all[i].inputs@[j].0
                    == material implies exists|k: int| 0 <= k < found@.len() && *found@[k] == all[i] by {
                assert(using.contains(all[i]));
                let k = choose|k: int| 0 <= k < using.len() && using[k] == all[i];
                assert(*found@[k] == all[i]);
            }
            assert forall|k: int| 0 <= k < found@.len() implies exists|j: int|
                0 <= j < (*#[trigger] found@[k]).inputs@.len() && (*found@[k]).inputs@[j].0 == material by {
                assert(*found@[k] == using[k]);
            }
        }
        found
    }

    /// Number of known recipes.
    pub fn known_count(&self) -> (count: usize)
        ensures
            count == self.known_recipes@.len(),
    {
        self.known_recipes.len()
    }

    /// Number of undiscovered recipes.
    pub fn undiscovered_count(&self) -> (count: usize)
        ensures
            count == self.discoverable_recipes@.len(),
    {
        self.discoverable_recipes.len()
    }
}

impl Default for RecipeBook {
    /// An empty recipe book.
    fn default() -> (book: Self)
        ensures
            book.known_recipes@.len() == 0,
            book.discoverable_recipes@.len() == 0,
    {
        Self::new()
    }
}

/// Copies of the recipes of a list, in order.
fn clone_recipes(recipes: &Vec<Recipe>) -> (copies: Vec<Recipe>)
    ensures
        copies@.len() == recipes@.len(),
        forall|i: int| 0 <= i < recipes@.len() ==> #[trigger] copies@[i].same_as(&recipes@[i]),
{
    let mut copies: Vec<Recipe> = Vec::new();
    let mut i: usize = 0;
    while i < recipes.len()
        invariant
            i <= recipes@.len(),
            copies@.len() == i,
            forall|j: int| 0 <= j < i ==> #[trigger] copies@[j].same_as(&recipes@[j]),
        decreases recipes@.len() - i,
    {
        copies.push(recipes[i].clone());
        i += 1;
    }
    copies
}

impl Clone for RecipeBook {
    /// A book with the same recipes, recipe for recipe.
    fn clone(&self) -> (copy: Self)
        ensures
            copy.known_recipes@.len() == self.known_recipes@.len(),
            copy.discoverable_recipes@.len() == self.discoverable_recipes@.len(),
            forall|i: int|
                0 <= i < self.known_recipes@.len() ==> #[trigger] copy.known_recipes@[i].same_as(
                    &self.known_recipes@[i],
                ),
            forall|i: int|
                0 <= i < self.discoverable_recipes@.len()
                    ==> #[trigger] copy.discoverable_recipes@[i].same_as(
                    &self.discoverable_recipes@[i],
                ),
    {
        RecipeBook {
            known_recipes: clone_recipes(&self.known_recipes),
            discoverable_recipes: clone_recipes(&self.discoverable_recipes),
        }
    }
}

/// Append to `found` a reference to each recipe of `recipes` that uses `material`.
fn collect_using<'a>(recipes: &'a Vec<Recipe>, material: Material, found: &mut Vec<&'a Recipe>)
    ensures
        forall|target: Seq<Recipe>|
            #![trigger refers_to(old(found)@, target)]
            refers_to(old(found)@, target) ==> refers_to(
                final(found)@,
                target + recipes_using(recipes@, material),
            ),
{
    let ghost start = found@;
    let mut i: usize = 0;
    while i < recipes.len()
        invariant
            i <= recipes@.len(),
            found@.len() == start.len() + recipes_using(recipes@.take(i as int), material).len(),
            forall|j: int| 0 <= j < start.len() ==> found@[j] == start[j],
            forall|j: int|
                0 <= j < recipes_using(recipes@.take(i as int), material).len() ==> *found@[start.len()
                    + j] == recipes_using(recipes@.take(i as int), material)[j],
        decreases recipes@.len() - i,
    {
        assert(recipes@.take(i + 1).drop_last() =~= recipes@.take(i as int));
        if recipes[i].uses_material(material) {
            found.push(&recipes[i]);
        }
        i += 1;
    }
    assert(recipes@.take(i as int) =~= recipes@);
    assert forall|target: Seq<Recipe>| refers_to(start, target) implies refers_to(
        found@,
        target + recipes_using(recipes@, material),
    ) by {
        let whole = target + recipes_using(recipes@, material);
        assert forall|j: int| 0 <= j < found@.len() implies *#[trigger] found@[j] == whole[j] by {
            if j < start.len() {
                assert(found@[j] == start[j]);
            } else {
                assert(*found@[start.len() + (j - start.len())] == recipes_using(recipes@, material)[j
                    - start.len()]);
            }
        }
    }
}

/// Filtering by an input material distributes over concatenation.
pub proof fn lemma_using_concat(first: Seq<Recipe>, second: Seq<Recipe>, material: Material)
    ensures
        recipes_using(first + second, material) == recipes_using(first, material) + recipes_using(
            second,
            material,
        ),
    decreases second.len(),
{
    if second.len() == 0 {
        assert(first + second =~= first);
        assert(recipes_using(first, material) + recipes_using(second, material) =~= recipes_using(
            first,
            material,
        ));
    } else {
        assert((first + second).drop_last() =~= first + second.drop_last());
        lemma_using_concat(first, second.drop_last(), material);
        assert(recipes_using(first, material) + recipes_using(second.drop_last(), material).push(
            second.last(),
        ) =~= (recipes_using(first, material) + recipes_using(second.drop_last(), material)).push(
            second.last(),
        ));
    }
}

} // verus!
