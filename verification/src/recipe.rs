use vstd::prelude::*;
use crate::material::Material;
use crate::tally::{copy_pairs, count_sum, lemma_amount_step, lemma_amount_prefix, lists};

verus! {

/// A crafting recipe: what goes in and what comes out.
#[derive(Debug)]
pub struct Recipe {
    pub name: String,
    pub inputs: Vec<(Material, usize)>,
    pub output: (Material, usize),
    pub discovered_by: Option<String>,
    pub difficulty: u32,
}

/// A difficulty brought into the range 1..=5.
pub open spec fn clamped_difficulty(difficulty: u32) -> u32 {
    if difficulty < 1 {
        1
    } else if difficulty > 5 {
        5
    } else {
        difficulty
    }
}

impl Recipe {
    /// Some input of the recipe is `material`.
    pub open spec fn uses(&self, material: Material) -> bool {
        lists(self.inputs@, material)
    }

    /// `self` holds the same recipe as `other`, field by field.
    pub open spec fn same_as(&self, other: &Recipe) -> bool {
        &&& self.name@ == other.name@
        &&& self.inputs@ == other.inputs@
        &&& self.output == other.output
        &&& self.difficulty == other.difficulty
        &&& match (self.discovered_by, other.discovered_by) {
            (Some(a), Some(b)) => a@ == b@,
            (None, None) => true,
            _ => false,
        }
    }

    /// `self` is `before` marked as discovered by `discoverer`, all else unchanged.
    pub open spec fn discovered_from(&self, before: &Recipe, discoverer: Seq<char>) -> bool {
        &&& self.name@ == before.name@
        &&& self.inputs@ == before.inputs@
        &&& self.output == before.output
        &&& self.difficulty == before.difficulty
        &&& self.discovered_by matches Some(who) && who@ == discoverer
    }

    /// Create a new recipe; the difficulty is clamped to 1..=5.
    pub fn new(name: &str, inputs: Vec<(Material, usize)>, output: (Material, usize), difficulty: u32) -> (recipe: Self)
        ensures
            recipe.name@ == name@,
            recipe.inputs@ == inputs@,
            recipe.output == output,
            recipe.discovered_by is None,
            recipe.difficulty == clamped_difficulty(difficulty),
            1 <= recipe.difficulty <= 5,
            1 <= difficulty <= 5 ==> recipe.difficulty == difficulty,
            difficulty < 1 ==> recipe.difficulty == 1,
            difficulty > 5 ==> recipe.difficulty == 5,
    {
        let clamped = if difficulty < 1 {
            1
        } else if difficulty > 5 {
            5
        } else {
            difficulty
        };
        Recipe {
            name: name.to_owned(),
            inputs,
            output,
            discovered_by: None,
            difficulty: clamped,
        }
    }

    /// Mark this recipe as discovered by `discoverer`.
    pub fn discover(&mut self, discoverer: &str)
        ensures
            final(self).discovered_from(old(self), discoverer@),
    {
        self.discovered_by = Some(discoverer.to_owned());
    }

    /// Total number of input items needed.
    pub fn total_input_count(&self) -> (total: usize)
        requires
            count_sum(self.inputs@) <= usize::MAX,
        ensures
            total == count_sum(self.inputs@),
    {
        let mut total: usize = 0;
        let mut i: usize = 0;
        while i < self.inputs.len()
            invariant
                i <= self.inputs@.len(),
                count_sum(self.inputs@) <= usize::MAX,
                total == count_sum(self.inputs@.take(i as int)),
            decreases self.inputs@.len() - i,
        {
            proof {
                lemma_amount_step(self.inputs@, i as int, self.output.0);
                lemma_amount_prefix(self.inputs@, i + 1, self.output.0);
            }
            total = total + self.inputs[i].1;
            i += 1;
        }
        assert(self.inputs@.take(i as int) =~= self.inputs@);
        total
    }

    /// Whether some input of the recipe is `material`.
    pub fn uses_material(&self, material: Material) -> (found: bool)
        ensures
            found == self.uses(material),
            found == exists|j: int|
                0 <= j < self.inputs@.len() && #[trigger] self.inputs@[j].0 == material,
    {
        let mut i: usize = 0;
        while i < self.inputs.len()
            invariant
                i <= self.inputs@.len(),
                forall|j: int| 0 <= j < i ==> self.inputs@[j].0 != material,
            decreases self.inputs@.len() - i,
        {
            if self.inputs[i].0 == material {
                assert(self.inputs@[i as int].0 == material);
                return true;
            }
            i += 1;
        }
        false
    }
}

impl Clone for Recipe {
    /// A recipe with the same name, inputs, output, discoverer and difficulty.
    fn clone(&self) -> (copy: Self)
        ensures
            copy.same_as(self),
    {
        let discovered_by = match &self.discovered_by {
            Some(who) => Some(who.clone()),
            None => None,
        };
        Recipe {
            name: self.name.clone(),
            inputs: copy_pairs(&self.inputs),
            output: self.output,
            discovered_by,
            difficulty: self.difficulty,
        }
    }
}

} // verus!
