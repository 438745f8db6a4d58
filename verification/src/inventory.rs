use vstd::prelude::*;
use crate::material::Material;
use crate::recipe::Recipe;
use crate::book::{
    find_named, short_of_materials_error, short_of_materials_message, unknown_recipe_error,
    unknown_recipe_message, RecipeBook,
};
use crate::tally::{
    amount_of, copy_pairs, count_sum, covers, distinct_materials, lemma_amount_absent,
    lemma_amount_prefix, lemma_amount_push, lemma_amount_remove, lemma_amount_single,
    lemma_amount_step, lemma_amount_update, lists,
};

verus! {

/// A stock after `count` units of `material` were added to it.
pub open spec fn with_added(stock: Map<Material, nat>, material: Material, count: nat) -> Map<Material, nat> {
    stock.insert(material, held(stock, material) + count)
}

/// What a stock holds of `material`, or 0 where it has no entry for it.
pub open spec fn held(stock: Map<Material, nat>, material: Material) -> nat {
    if stock.contains_key(material) {
        stock[material]
    } else {
        0
    }
}

/// A removal of `count` units of `material` succeeds on this stock: enough is held.
pub open spec fn removable(stock: Map<Material, nat>, material: Material, count: nat) -> bool {
    held(stock, material) >= count
}

/// A stock after an attempt to remove `count` units of `material`: an entry that
/// falls to zero leaves the stock, and a failed attempt changes nothing (nor
/// does removing nothing of a material without an entry).
pub open spec fn with_removed(stock: Map<Material, nat>, material: Material, count: nat) -> Map<
    Material,
    nat,
> {
    if removable(stock, material, count) && stock.contains_key(material) {
        if stock[material] == count {
            stock.remove(material)
        } else {
            stock.insert(material, (stock[material] - count) as nat)
        }
    } else {
        stock
    }
}

/// A stock after one removal attempt per pair of `needs`, in order.
pub open spec fn with_removals(stock: Map<Material, nat>, needs: Seq<(Material, usize)>) -> Map<
    Material,
    nat,
>
    decreases needs.len(),
{
    if needs.len() == 0 {
        stock
    } else {
        let before = with_removals(stock, needs.drop_last());
        with_removed(before, needs.last().0, needs.last().1 as nat)
    }
}

/// The stock holds, for each required pair, at least the required count of its
/// material (a material without an entry counts as 0).
pub open spec fn stock_covers(stock: Map<Material, nat>, needs: Seq<(Material, usize)>) -> bool {
    forall|i: int| 0 <= i < needs.len() ==> held(stock, #[trigger] needs[i].0) >= needs[i].1
}

/// A player's material inventory: one entry per material it holds.
#[derive(Debug)]
pub struct Inventory {
    pub materials: Vec<(Material, usize)>,
}

impl View for Inventory {
    type V = Map<Material, nat>;

    /// The stock: each material with an entry, mapped to its count.
    open spec fn view(&self) -> Map<Material, nat> {
        Map::new(|m: Material| lists(self.materials@, m), |m: Material| amount_of(self.materials@, m))
    }
}

impl Inventory {
    /// No material has two entries.
    pub open spec fn well_formed(&self) -> bool {
        distinct_materials(self.materials@)
    }

    /// Units of `material` held (0 where there is no entry).
    pub open spec fn count(&self, material: Material) -> nat {
        amount_of(self.materials@, material)
    }

    /// The number of units of all materials held.
    pub open spec fn total(&self) -> nat {
        count_sum(self.materials@)
    }

    /// The count of a material is what the stock holds of it.
    pub proof fn lemma_count_is_held(&self, material: Material)
        ensures
            self.count(material) == held(self@, material),
    {
        if !lists(self.materials@, material) {
            lemma_amount_absent(self.materials@, material);
        }
    }

    /// Create an empty inventory.
    pub fn new() -> (inv: Self)
        ensures
            inv.well_formed(),
            inv.materials@.len() == 0,
            inv@ == Map::<Material, nat>::empty(),
    {
        let inv = Inventory { materials: Vec::new() };
        assert(inv@ =~= Map::<Material, nat>::empty());
        inv
    }

    /// The index of the entry of `material`, if it has one.
    fn position(&self, material: Material) -> (pos: Option<usize>)
        ensures
            match pos {
                Some(i) => i < self.materials@.len() && self.materials@[i as int].0 == material,
                None => !lists(self.materials@, material),
            },
    {
        let mut i: usize = 0;
        while i < self.materials.len()
            invariant
                i <= self.materials@.len(),
                forall|j: int| 0 <= j < i ==> self.materials@[j].0 != material,
            decreases self.materials@.len() - i,
        {
            if self.materials[i].0 == material {
                return Some(i);
            }
            i += 1;
        }
        None
    }

    /// Add `count` units of `material`.
    pub fn add(&mut self, material: Material, count: usize)
        requires
            old(self).well_formed(),
            old(self).count(material) + count <= usize::MAX,
        ensures
            final(self).well_formed(),
            final(self)@ == with_added(old(self)@, material, count as nat),
            final(self).total() == old(self).total() + count,
    {
        proof {
            self.lemma_count_is_held(material);
        }
        let ghost before = self.materials@;
        match self.position(material) {
            Some(i) => {
                let current = self.materials[i].1;
                proof {
                    lemma_amount_single(before, i as int);
                }
                self.materials.set(i, (material, current + count));
                proof {
                    let after = self.materials@;
                    assert(after =~= before.update(i as int, (material, (current + count) as usize)));
                    assert forall|m: Material| #[trigger] lists(after, m) == lists(before, m) by {
                        if lists(after, m) {
                            let k = choose|k: int| 0 <= k < after.len() && #[trigger] after[k].0 == m;
                            assert(before[k].0 == m);
                        }
                        if lists(before, m) {
                            let k = choose|k: int| 0 <= k < before.len() && #[trigger] before[k].0 == m;
                            assert(after[k].0 == m);
                        }
                    }
                    assert forall|m: Material| #[trigger] amount_of(after, m) == if m == material {
                        amount_of(before, m) + count as nat
                    } else {
                        amount_of(before, m)
                    } by {
                        lemma_amount_update(before, i as int, (material, (current + count) as usize), m);
                    }
                    lemma_amount_update(before, i as int, (material, (current + count) as usize), material);
                    assert(self@ =~= with_added(old(self)@, material, count as nat));
                }
            },
            None => {
                self.materials.push((material, count));
                proof {
                    let after = self.materials@;
                    assert(after =~= before.push((material, count)));
                    lemma_amount_absent(before, material);
                    assert forall|m: Material| #[trigger] lists(after, m) == (lists(before, m) || m
                        == material) by {
                        if lists(after, m) {
                            let k = choose|k: int| 0 <= k < after.len() && #[trigger] after[k].0 == m;
                            if k < before.len() {
                                assert(before[k].0 == m);
                            }
                        }
                        if lists(before, m) {
                            let k = choose|k: int| 0 <= k < before.len() && #[trigger] before[k].0 == m;
                            assert(after[k].0 == m);
                        }
                        if m == material {
                            assert(after[before.len() as int].0 == m);
                        }
                    }
                    assert forall|m: Material| #[trigger] amount_of(after, m) == if m == material {
                        amount_of(before, m) + count as nat
                    } else {
                        amount_of(before, m)
                    } by {
                        lemma_amount_push(before, (material, count), m);
                    }
                    lemma_amount_push(before, (material, count), material);
                    assert(self@ =~= with_added(old(self)@, material, count as nat));
                }
            },
        }
    }

    /// Remove `count` units of `material`. Returns `false`, and changes nothing,
    /// if not enough are held; an entry that falls to zero is dropped.
    pub fn remove(&mut self, material: Material, count: usize) -> (removed: bool)
        requires
            old(self).well_formed(),
        ensures
            final(self).well_formed(),
            removed == removable(old(self)@, material, count as nat),
            final(self)@ == with_removed(old(self)@, material, count as nat),
            removed ==> final(self).total() + count == old(self).total(),
            !removed ==> final(self).materials@ == old(self).materials@,
    {
        let ghost before = self.materials@;
        match self.position(material) {
            Some(i) => {
                let available = self.materials[i].1;
                proof {
                    lemma_amount_single(before, i as int);
                    assert(old(self)@.contains_key(material));
                }
                if available >= count {
                    let left = available - count;
                    if left == 0 {
                        self.materials.remove(i);
                        proof {
                            let after = self.materials@;
                            assert forall|m: Material| #[trigger] lists(after, m) == (lists(before, m)
                                && m != material) by {
                                if lists(after, m) {
                                    let k = choose|k: int| 0 <= k < after.len() && #[trigger] after[k].0 == m;
                                    if k < i {
                                        assert(before[k].0 == m);
                                    } else {
                                        assert(before[k + 1].0 == m);
                                    }
                                }
                                if lists(before, m) && m != material {
                                    let k = choose|k: int| 0 <= k < before.len() && #[trigger] before[k].0 == m;
                                    if k < i {
                                        assert(after[k].0 == m);
                                    } else {
                                        assert(k != i);
                                        assert(after[k - 1].0 == m);
                                    }
                                }
                            }
                            assert forall|m: Material| #[trigger] amount_of(after, m) + (if m == material {
                                count as nat
                            } else {
                                0nat
                            }) == amount_of(before, m) by {
                                lemma_amount_remove(before, i as int, m);
                            }
                            lemma_amount_remove(before, i as int, material);
                            assert(self@ =~= with_removed(old(self)@, material, count as nat));
                        }
                    } else {
                        self.materials.set(i, (material, left));
                        proof {
                            let after = self.materials@;
                            assert(after =~= before.update(i as int, (material, left)));
                            assert forall|m: Material| #[trigger] lists(after, m) == lists(before, m) by {
                                if lists(after, m) {
                                    let k = choose|k: int| 0 <= k < after.len() && #[trigger] after[k].0 == m;
                                    assert(before[k].0 == m);
                                }
                                if lists(before, m) {
                                    let k = choose|k: int| 0 <= k < before.len() && #[trigger] before[k].0 == m;
                                    assert(after[k].0 == m);
                                }
                            }
                            assert forall|m: Material| #[trigger] amount_of(after, m) + (if m == material {
                                count as nat
                            } else {
                                0nat
                            }) == amount_of(before, m) by {
                                lemma_amount_update(before, i as int, (material, left), m);
                            }
                            lemma_amount_update(before, i as int, (material, left), material);
                            assert(self@ =~= with_removed(old(self)@, material, count as nat));
                        }
                    }
                    true
                } else {
                    false
                }
            },
            None => {
                proof {
                    assert(!old(self)@.contains_key(material));
                }
                count == 0
            },
        }
    }

    /// Check if at least `count` units of `material` are available.
    pub fn has(&self, material: Material, count: usize) -> (enough: bool)
        requires
            self.well_formed(),
        ensures
            enough == (self.count(material) >= count),
            enough == (held(self@, material) >= count),
    {
        proof {
            self.lemma_count_is_held(material);
        }
        match self.position(material) {
            Some(i) => {
                proof {
                    lemma_amount_single(self.materials@, i as int);
                }
                self.materials[i].1 >= count
            },
            None => {
                proof {
                    lemma_amount_absent(self.materials@, material);
                }
                count == 0
            },
        }
    }

    /// Total number of items in the inventory.
    pub fn total_items(&self) -> (total: usize)
        requires
            self.total() <= usize::MAX,
        ensures
            total == self.total(),
    {
        let mut total: usize = 0;
        let mut i: usize = 0;
        while i < self.materials.len()
            invariant
                i <= self.materials@.len(),
                self.total() <= usize::MAX,
                total == count_sum(self.materials@.take(i as int)),
            decreases self.materials@.len() - i,
        {
            proof {
                lemma_amount_step(self.materials@, i as int, Material::Stone);
                lemma_amount_prefix(self.materials@, i + 1, Material::Stone);
            }
            total = total + self.materials[i].1;
            i += 1;
        }
        assert(self.materials@.take(i as int) =~= self.materials@);
        total
    }

    /// Consume the input materials of a recipe: one removal attempt per input,
    /// in order; an attempt that finds too little changes nothing.
    pub fn consume_for_recipe(&mut self, recipe: &Recipe)
        requires
            old(self).well_formed(),
        ensures
            final(self).well_formed(),
            final(self)@ == with_removals(old(self)@, recipe.inputs@),
    {
        let mut i: usize = 0;
        assert(recipe.inputs@.take(0) =~= Seq::<(Material, usize)>::empty());
        while i < recipe.inputs.len()
            invariant
                i <= recipe.inputs@.len(),
                self.well_formed(),
                self@ == with_removals(old(self)@, recipe.inputs@.take(i as int)),
            decreases recipe.inputs@.len() - i,
        {
            let (material, count) = recipe.inputs[i];
            self.remove(material, count);
            assert(recipe.inputs@.take(i + 1).drop_last() =~= recipe.inputs@.take(i as int));
            i += 1;
        }
        assert(recipe.inputs@.take(i as int) =~= recipe.inputs@);
    }

    /// Try to craft a recipe known in `book`. On success, consumes the inputs and
    /// returns the output; the output is not added to the inventory. On failure,
    /// returns an error text and leaves the inventory as it was.
    pub fn craft(&mut self, recipe_name: &str, book: &RecipeBook) -> (result: Result<
        Vec<(Material, usize)>,
        String,
    >)
        requires
            old(self).well_formed(),
        ensures
            final(self).well_formed(),
            match result {
                Ok(output) => {
                    &&& book.knows(recipe_name@)
                    &&& stock_covers(old(self)@, book.known_recipe(recipe_name@).inputs@)
                    &&& output@ == seq![book.known_recipe(recipe_name@).output]
                    &&& final(self)@ == with_removals(
                        old(self)@,
                        book.known_recipe(recipe_name@).inputs@,
                    )
                },
                Err(message) => {
                    &&& !(book.knows(recipe_name@) && stock_covers(
                        old(self)@,
                        book.known_recipe(recipe_name@).inputs@,
                    ))
                    &&& message@ == if book.knows(recipe_name@) {
                        short_of_materials_message(recipe_name@)
                    } else {
                        unknown_recipe_message(recipe_name@)
                    }
                    &&& final(self).materials@ == old(self).materials@
                },
            },
    {
        let wanted = recipe_name.to_owned();
        let recipe = match find_named(&book.known_recipes, &wanted) {
            Some(k) => &book.known_recipes[k],
            None => {
                return Err(unknown_recipe_error(recipe_name));
            },
        };
        if !has_sufficient_materials_map(recipe, self) {
            return Err(short_of_materials_error(recipe_name));
        }
        self.consume_for_recipe(recipe);
        let mut output: Vec<(Material, usize)> = Vec::new();
        output.push(recipe.output);
        Ok(output)
    }
}

impl Default for Inventory {
    /// An empty inventory.
    fn default() -> (inv: Self)
        ensures
            inv.well_formed(),
            inv.materials@.len() == 0,
            inv@ == Map::<Material, nat>::empty(),
    {
        Self::new()
    }
}

impl Clone for Inventory {
    /// An inventory with the same entries.
    fn clone(&self) -> (copy: Self)
        ensures
            copy.materials@ == self.materials@,
    {
        Inventory { materials: copy_pairs(&self.materials) }
    }
}

/// Check against an inventory that each input of the recipe is held in at least
/// the required count.
pub fn has_sufficient_materials_map(recipe: &Recipe, inventory: &Inventory) -> (enough: bool)
    requires
        inventory.well_formed(),
    ensures
        enough == stock_covers(inventory@, recipe.inputs@),
        enough == covers(inventory.materials@, recipe.inputs@),
        enough == forall|i: int|
            0 <= i < recipe.inputs@.len() ==> (if inventory@.contains_key(#[trigger] recipe.inputs@[i].0) {
                inventory@[recipe.inputs@[i].0]
            } else {
                0
            }) >= recipe.inputs@[i].1,
{
    proof {
        assert forall|i: int| 0 <= i < recipe.inputs@.len() implies held(
            inventory@,
            #[trigger] recipe.inputs@[i].0,
        ) == amount_of(inventory.materials@, recipe.inputs@[i].0) by {
            inventory.lemma_count_is_held(recipe.inputs@[i].0);
        }
    }
    let mut i: usize = 0;
    while i < recipe.inputs.len()
        invariant
            i <= recipe.inputs@.len(),
            inventory.well_formed(),
            forall|j: int|
                0 <= j < i ==> held(inventory@, #[trigger] recipe.inputs@[j].0) >= recipe.inputs@[j].1,
        decreases recipe.inputs@.len() - i,
    {
        let (material, need) = recipe.inputs[i];
        if !inventory.has(material, need) {
            return false;
        }
        i += 1;
    }
    true
}

} // verus!
