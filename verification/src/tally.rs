use vstd::prelude::*;
use crate::material::Material;

verus! {

/// How many units of `material` a list of (material, count) pairs holds in all,
/// summed over every pair that names it.
pub open spec fn amount_of(pairs: Seq<(Material, usize)>, material: Material) -> nat
    decreases pairs.len(),
{
    if pairs.len() == 0 {
        0
    } else {
        amount_of(pairs.drop_last(), material) + if pairs.last().0 == material {
            pairs.last().1 as nat
        } else {
            0nat
        }
    }
}

/// The sum of the counts of all pairs, whatever their material.
pub open spec fn count_sum(pairs: Seq<(Material, usize)>) -> nat
    decreases pairs.len(),
{
    if pairs.len() == 0 {
        0
    } else {
        count_sum(pairs.drop_last()) + pairs.last().1 as nat
    }
}

/// Some pair of the list names `material`.
pub open spec fn lists(pairs: Seq<(Material, usize)>, material: Material) -> bool {
    exists|i: int| 0 <= i < pairs.len() && #[trigger] pairs[i].0 == material
}

/// No material is named by two pairs of the list.
pub open spec fn distinct_materials(pairs: Seq<(Material, usize)>) -> bool {
    forall|i: int, j: int| 0 <= i < j < pairs.len() ==> #[trigger] pairs[i].0 != #[trigger] pairs[j].0
}

/// Every per-material total of the list fits in a `usize`.
pub open spec fn tallies_fit(pairs: Seq<(Material, usize)>) -> bool {
    forall|m: Material| #[trigger] amount_of(pairs, m) <= usize::MAX
}

/// The stock `pairs` holds, for every required pair, at least the required count
/// of its material (each requirement is checked on its own).
pub open spec fn covers(pairs: Seq<(Material, usize)>, needs: Seq<(Material, usize)>) -> bool {
    forall|i: int| 0 <= i < needs.len() ==> amount_of(pairs, #[trigger] needs[i].0) >= needs[i].1
}

/// Appending a pair adds its count to its material and to the sum.
pub proof fn lemma_amount_push(pairs: Seq<(Material, usize)>, entry: (Material, usize), material: Material)
    ensures
        amount_of(pairs.push(entry), material) == amount_of(pairs, material) + if entry.0 == material {
            entry.1 as nat
        } else {
            0nat
        },
        count_sum(pairs.push(entry)) == count_sum(pairs) + entry.1,
{
    assert(pairs.push(entry).drop_last() =~= pairs);
}

/// A material that no pair names has an amount of 0.
pub proof fn lemma_amount_absent(pairs: Seq<(Material, usize)>, material: Material)
    requires
        !lists(pairs, material),
    ensures
        amount_of(pairs, material) == 0,
    decreases pairs.len(),
{
    if pairs.len() > 0 {
        let rest = pairs.drop_last();
        assert(!lists(rest, material)) by {
            if lists(rest, material) {
                let i = choose|i: int| 0 <= i < rest.len() && #[trigger] rest[i].0 == material;
                assert(pairs[i].0 == material);
            }
        }
        assert(pairs[pairs.len() - 1].0 != material);
        lemma_amount_absent(rest, material);
    }
}

/// Where no material occurs twice, a material's amount is the count of its pair.
pub proof fn lemma_amount_single(pairs: Seq<(Material, usize)>, i: int)
    requires
        distinct_materials(pairs),
        0 <= i < pairs.len(),
    ensures
        amount_of(pairs, pairs[i].0) == pairs[i].1,
    decreases pairs.len(),
{
    let rest = pairs.drop_last();
    let last = pairs.len() - 1;
    if i == last {
        assert(!lists(rest, pairs[i].0)) by {
            if lists(rest, pairs[i].0) {
                let k = choose|k: int| 0 <= k < rest.len() && #[trigger] rest[k].0 == pairs[i].0;
                assert(pairs[k].0 == pairs[last].0);
            }
        }
        lemma_amount_absent(rest, pairs[i].0);
    } else {
        assert(pairs[i].0 != pairs[last].0);
        assert(rest[i] == pairs[i]);
        lemma_amount_single(rest, i);
    }
}

/// Replacing a pair takes its count away from its material and the sum, and
/// adds the new pair's count.
pub proof fn lemma_amount_update(
    pairs: Seq<(Material, usize)>,
    i: int,
    entry: (Material, usize),
    material: Material,
)
    requires
        0 <= i < pairs.len(),
    ensures
        amount_of(pairs.update(i, entry), material) + (if pairs[i].0 == material {
            pairs[i].1 as nat
        } else {
            0nat
        }) == amount_of(pairs, material) + (if entry.0 == material {
            entry.1 as nat
        } else {
            0nat
        }),
        count_sum(pairs.update(i, entry)) + pairs[i].1 == count_sum(pairs) + entry.1,
    decreases pairs.len(),
{
    let upd = pairs.update(i, entry);
    let last = pairs.len() - 1;
    if i == last {
        assert(upd.drop_last() =~= pairs.drop_last());
    } else {
        assert(upd.drop_last() =~= pairs.drop_last().update(i, entry));
        lemma_amount_update(pairs.drop_last(), i, entry, material);
    }
}

/// Removing a pair takes its count away from its material and the sum.
pub proof fn lemma_amount_remove(pairs: Seq<(Material, usize)>, i: int, material: Material)
    requires
        0 <= i < pairs.len(),
    ensures
        amount_of(pairs.remove(i), material) + (if pairs[i].0 == material {
            pairs[i].1 as nat
        } else {
            0nat
        }) == amount_of(pairs, material),
        count_sum(pairs.remove(i)) + pairs[i].1 == count_sum(pairs),
    decreases pairs.len(),
{
    let rem = pairs.remove(i);
    let last = pairs.len() - 1;
    if i == last {
        assert(rem =~= pairs.drop_last());
    } else {
        let rest = pairs.drop_last();
        assert(rem =~= rest.remove(i).push(pairs.last()));
        lemma_amount_remove(rest, i, material);
        lemma_amount_push(rest.remove(i), pairs.last(), material);
    }
}

/// A prefix of the list holds no more than the whole list.
pub proof fn lemma_amount_prefix(pairs: Seq<(Material, usize)>, n: int, material: Material)
    requires
        0 <= n <= pairs.len(),
    ensures
        amount_of(pairs.take(n), material) <= amount_of(pairs, material),
        count_sum(pairs.take(n)) <= count_sum(pairs),
    decreases pairs.len(),
{
    if n == pairs.len() {
        assert(pairs.take(n) =~= pairs);
    } else {
        let rest = pairs.drop_last();
        assert(pairs.take(n) =~= rest.take(n));
        lemma_amount_prefix(rest, n, material);
    }
}

/// Extending a prefix of the list by its next pair adds that pair's count.
pub proof fn lemma_amount_step(pairs: Seq<(Material, usize)>, n: int, material: Material)
    requires
        0 <= n < pairs.len(),
    ensures
        amount_of(pairs.take(n + 1), material) == amount_of(pairs.take(n), material) + if pairs[n].0
            == material {
            pairs[n].1 as nat
        } else {
            0nat
        },
        count_sum(pairs.take(n + 1)) == count_sum(pairs.take(n)) + pairs[n].1,
{
    assert(pairs.take(n + 1).drop_last() =~= pairs.take(n));
}


/// A copy of a list of pairs.
pub fn copy_pairs(pairs: &Vec<(Material, usize)>) -> (copy: Vec<(Material, usize)>)
    ensures
        copy@ == pairs@,
{
    let mut copy: Vec<(Material, usize)> = Vec::new();
    let mut i: usize = 0;
    while i < pairs.len()
        invariant
            i <= pairs@.len(),
            copy@ == pairs@.take(i as int),
        decreases pairs@.len() - i,
    {
        copy.push(pairs[i]);
        i += 1;
        assert(copy@ =~= pairs@.take(i as int));
    }
    assert(pairs@.take(i as int) =~= pairs@);
    copy
}

/// How many units of `material` the pairs hold in all.
pub fn amount_in(pairs: &[(Material, usize)], material: Material) -> (amount: usize)
    requires
        amount_of(pairs@, material) <= usize::MAX,
    ensures
        amount == amount_of(pairs@, material),
{
    let mut amount: usize = 0;
    let mut i: usize = 0;
    while i < pairs.len()
        invariant
            i <= pairs@.len(),
            amount_of(pairs@, material) <= usize::MAX,
            amount == amount_of(pairs@.take(i as int), material),
        decreases pairs@.len() - i,
    {
        proof {
            lemma_amount_step(pairs@, i as int, material);
            lemma_amount_prefix(pairs@, i + 1, material);
        }
        if pairs[i].0 == material {
            amount = amount + pairs[i].1;
        }
        i += 1;
    }
    assert(pairs@.take(i as int) =~= pairs@);
    amount
}

} // verus!
