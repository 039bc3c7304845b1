//! The hunters. A crab has identity attributes and an ordered list of
//! registry indices of the reefs it has discovered; the hunt protocol walks
//! those reefs in discovery order.

use vstd::prelude::*;
use vstd::multiset::Multiset;
use crate::color::Color;
use crate::color::crossed;
use crate::cookbook::Cookbook;
use crate::cookbook::Recipe;
use crate::diet::Diet;
use crate::diet::diet_of_draw;
use crate::prey::Prey;
use crate::prey::diet_of;
use crate::prey::is_stationary;
use crate::reef::Reef;
use crate::reef::add_at;
use crate::reef::take_at;
use crate::rng::Tide;
use crate::rng::draw_of;
use crate::rng::next_state;

verus! {

broadcast use vstd::multiset::group_multiset_axioms, vstd::seq_lib::group_to_multiset_ensures;

/// The speed every newly bred crab starts from.
pub const BRED_SPEED: u32 = 1;

/// A foraging agent: identity attributes plus the registry indices of the
/// reefs it knows.
#[derive(Debug)]
pub struct Crab {
    pub name: String,
    pub speed: u32,
    pub color: Color,
    pub diet: Diet,
    pub reefs: Vec<usize>,
}

/// The prey held by the reef at registry index `j`, as a multiset.
pub open spec fn reef_prey_ms(reefs: Seq<Reef>, j: int) -> Multiset<Prey> {
    reefs[j]@.to_multiset()
}

/// Whether registry index `j` stands somewhere in the list `known` of
/// discovered reefs.
pub open spec fn knows(known: Seq<usize>, j: int) -> bool {
    exists|k: int| 0 <= k < known.len() && known[k] as int == j
}

/// The prey in the working list `work` that originated at registry index
/// `j`, as a multiset.
pub open spec fn working_ms(work: Seq<(Prey, usize)>, j: int) -> Multiset<Prey>
    decreases work.len(),
{
    if work.len() == 0 {
        Multiset::empty()
    } else if work.first().1 as int == j {
        working_ms(work.drop_first(), j).insert(work.first().0)
    } else {
        working_ms(work.drop_first(), j)
    }
}

/// Recording one more pair in the working list adds its prey to the
/// multiset of its originating reef and to no other.
proof fn lemma_working_ms_push(work: Seq<(Prey, usize)>, p: Prey, tag: usize, j: int)
    ensures
        tag as int == j ==> working_ms(work.push((p, tag)), j) == working_ms(work, j).insert(p),
        tag as int != j ==> working_ms(work.push((p, tag)), j) == working_ms(work, j),
    decreases work.len(),
{
    let w = work.push((p, tag));
    if work.len() == 0 {
        assert(w.drop_first() =~= work);
    } else {
        assert(w.first() == work.first());
        assert(w.drop_first() =~= work.drop_first().push((p, tag)));
        lemma_working_ms_push(work.drop_first(), p, tag, j);
        if tag as int == j && work.first().1 as int == j {
            assert(working_ms(work.drop_first(), j).insert(p).insert(work.first().0)
                =~= working_ms(work.drop_first(), j).insert(work.first().0).insert(p));
        }
    }
}

/// The prey in the working list `work` that originated at registry index
/// `j`, in recorded order.
pub open spec fn working_seq(work: Seq<(Prey, usize)>, j: int) -> Seq<Prey>
    decreases work.len(),
{
    if work.len() == 0 {
        Seq::empty()
    } else if work.first().1 as int == j {
        seq![work.first().0] + working_seq(work.drop_first(), j)
    } else {
        working_seq(work.drop_first(), j)
    }
}

/// Recording one more pair appends its prey at the end of the recorded
/// order of its originating reef and changes no other reef's order.
proof fn lemma_working_seq_push(work: Seq<(Prey, usize)>, p: Prey, tag: usize, j: int)
    ensures
        tag as int == j ==> working_seq(work.push((p, tag)), j) == working_seq(work, j).push(p),
        tag as int != j ==> working_seq(work.push((p, tag)), j) == working_seq(work, j),
    decreases work.len(),
{
    let w = work.push((p, tag));
    if work.len() == 0 {
        assert(w.drop_first() =~= work);
        if tag as int == j {
            assert(seq![p] + working_seq(work, j) =~= working_seq(work, j).push(p));
        }
    } else {
        assert(w.first() == work.first());
        assert(w.drop_first() =~= work.drop_first().push((p, tag)));
        lemma_working_seq_push(work.drop_first(), p, tag, j);
        if tag as int == j && work.first().1 as int == j {
            assert(seq![work.first().0] + working_seq(work.drop_first(), j).push(p)
                =~= (seq![work.first().0] + working_seq(work.drop_first(), j)).push(p));
        }
    }
}

/// A prey item counted by the working-list multiset of reef `j` stands in
/// the working list, tagged with `j`.
proof fn lemma_working_ms_member(work: Seq<(Prey, usize)>, j: int, p: Prey)
    requires
        working_ms(work, j).count(p) > 0,
    ensures
        exists|t: int| 0 <= t < work.len() && (#[trigger] work[t]).0 == p && work[t].1 as int
            == j,
    decreases work.len(),
{
    if work.len() == 0 {
        assert(Multiset::<Prey>::empty().count(p) == 0);
    } else if work.first().1 as int == j && work.first().0 == p {
        assert(work[0].0 == p && work[0].1 as int == j);
    } else {
        lemma_working_ms_member(work.drop_first(), j, p);
        let t = choose|t: int|
            0 <= t < work.drop_first().len() && (#[trigger] work.drop_first()[t]).0 == p
                && work.drop_first()[t].1 as int == j;
        assert(work[t + 1] == work.drop_first()[t]);
    }
}

/// Reef `j` in `after` holds exactly the prey it held in `before`, less one
/// occurrence of `p`; every other reef holds the same multiset as before.
pub open spec fn consumed_one(before: Seq<Reef>, after: Seq<Reef>, j: int, p: Prey) -> bool {
    &&& 0 <= j < before.len()
    &&& reef_prey_ms(before, j) == reef_prey_ms(after, j).insert(p)
    &&& forall|j2: int|
        0 <= j2 < before.len() && j2 != j ==> reef_prey_ms(after, j2) == reef_prey_ms(before, j2)
}

/// Whether some reef the crab knows holds an item of dietary class `d`.
pub open spec fn any_match(reefs: Seq<Reef>, known: Seq<usize>, d: Diet) -> bool {
    exists|j: int, i: int|
        0 <= j < reefs.len() && knows(known, j) && 0 <= i < reefs[j]@.len() && diet_of(
            #[trigger] reefs[j]@[i],
        ) == d
}

/// Whether some reef the crab knows holds a stationary item of class `d`:
/// prey that is certain to be consumed by a hunt.
pub open spec fn any_sure_catch(reefs: Seq<Reef>, known: Seq<usize>, d: Diet) -> bool {
    exists|j: int, i: int|
        0 <= j < reefs.len() && knows(known, j) && 0 <= i < reefs[j]@.len() && diet_of(
            #[trigger] reefs[j]@[i],
        ) == d && is_stationary(reefs[j]@[i])
}

/// The total number of prey across a whole reef registry.
pub open spec fn total_prey(reefs: Seq<Reef>) -> nat
    decreases reefs.len(),
{
    if reefs.len() == 0 {
        0
    } else {
        total_prey(reefs.drop_last()) + reefs.last()@.len()
    }
}

/// Registries whose reefs hold equal prey multisets at every index hold the
/// same total number of prey.
proof fn lemma_equal_ms_equal_total(before: Seq<Reef>, after: Seq<Reef>)
    requires
        before.len() == after.len(),
        forall|j: int|
            0 <= j < before.len() ==> reef_prey_ms(after, j) == reef_prey_ms(before, j),
    ensures
        total_prey(after) == total_prey(before),
    decreases before.len(),
{
    if before.len() > 0 {
        assert(reef_prey_ms(after, before.len() - 1) == reef_prey_ms(before, before.len() - 1));
        assert(after.last()@.to_multiset().len() == before.last()@.to_multiset().len());
        assert forall|j: int| 0 <= j < before.drop_last().len() implies reef_prey_ms(
            after.drop_last(),
            j,
        ) == reef_prey_ms(before.drop_last(), j) by {
            assert(reef_prey_ms(after, j) == reef_prey_ms(before, j));
            assert(before.drop_last()[j] == before[j]);
            assert(after.drop_last()[j] == after[j]);
        }
        lemma_equal_ms_equal_total(before.drop_last(), after.drop_last());
    }
}

/// Removing one prey item from one reef lowers the registry's total prey
/// count by exactly one.
proof fn lemma_consumed_one_total(before: Seq<Reef>, after: Seq<Reef>, j: int, p: Prey)
    requires
        before.len() == after.len(),
        consumed_one(before, after, j, p),
    ensures
        total_prey(after) + 1 == total_prey(before),
    decreases before.len(),
{
    let n = before.len() as int;
    assert forall|j2: int| 0 <= j2 < n - 1 implies before.drop_last()[j2] == before[j2]
        && after.drop_last()[j2] == after[j2] by {}
    if j == n - 1 {
        assert(before.last()@.to_multiset().len() == after.last()@.to_multiset().len() + 1);
        assert forall|j2: int| 0 <= j2 < before.drop_last().len() implies reef_prey_ms(
            after.drop_last(),
            j2,
        ) == reef_prey_ms(before.drop_last(), j2) by {
            assert(reef_prey_ms(after, j2) == reef_prey_ms(before, j2));
            assert(before.drop_last()[j2] == before[j2]);
            assert(after.drop_last()[j2] == after[j2]);
        }
        lemma_equal_ms_equal_total(before.drop_last(), after.drop_last());
    } else {
        assert(reef_prey_ms(after, n - 1) == reef_prey_ms(before, n - 1));
        assert(after.last()@.to_multiset().len() == before.last()@.to_multiset().len());
        assert(reef_prey_ms(before.drop_last(), j) == reef_prey_ms(after.drop_last(), j).insert(
            p,
        ));
        assert forall|j2: int|
            0 <= j2 < before.drop_last().len() && j2 != j implies reef_prey_ms(
            after.drop_last(),
            j2,
        ) == reef_prey_ms(before.drop_last(), j2) by {
            assert(reef_prey_ms(after, j2) == reef_prey_ms(before, j2));
            assert(before.drop_last()[j2] == before[j2]);
            assert(after.drop_last()[j2] == after[j2]);
        }
        assert(consumed_one(before.drop_last(), after.drop_last(), j, p));
        lemma_consumed_one_total(before.drop_last(), after.drop_last(), j, p);
    }
}

/// The conservation law of hunting. A hunt relates the registry before and
/// after as its contract states: every reef keeps its prey multiset, except
/// that a successful hunt removes exactly one item from one reef. Under that
/// relation, prey is never created or destroyed: a failed hunt leaves the
/// total count across the registry unchanged, and a successful one lowers
/// it by exactly one — the single consumption event.
pub proof fn lemma_hunt_conserves_prey(before: Seq<Reef>, after: Seq<Reef>, caught: bool)
    requires
        before.len() == after.len(),
        caught ==> exists|j: int, p: Prey| consumed_one(before, after, j, p),
        !caught ==> forall|j: int|
            0 <= j < before.len() ==> reef_prey_ms(after, j) == reef_prey_ms(before, j),
    ensures
        caught ==> total_prey(after) + 1 == total_prey(before),
        !caught ==> total_prey(after) == total_prey(before),
{
    if caught {
        let (j, p) = choose|j: int, p: Prey| consumed_one(before, after, j, p);
        lemma_consumed_one_total(before, after, j, p);
    } else {
        lemma_equal_ms_equal_total(before, after);
    }
}

/// Whether some recipe in `recipes` suits diet `d`.
pub open spec fn has_recipe_for(recipes: Seq<Recipe>, d: Diet) -> bool {
    exists|i: int| 0 <= i < recipes.len() && recipes[i].diet == d
}

impl Crab {
    /// Creates a crab that has discovered no reefs yet.
    pub fn new(name: String, speed: u32, color: Color, diet: Diet) -> (r: Crab)
        ensures
            r.name == name,
            r.speed == speed,
            r.color == color,
            r.diet == diet,
            r.reefs@ == Seq::<usize>::empty(),
    {
        Crab { name, speed, color, diet, reefs: Vec::new() }
    }

    /// The crab's name.
    pub fn name(&self) -> (r: &str)
        ensures
            r@ == self.name@,
    {
        self.name.as_str()
    }

    /// The crab's speed.
    pub fn speed(&self) -> (r: u32)
        ensures
            r == self.speed,
    {
        self.speed
    }

    /// The crab's visual trait.
    pub fn color(&self) -> (r: &Color)
        ensures
            r == self.color,
    {
        &self.color
    }

    /// The crab's dietary class.
    pub fn diet(&self) -> (r: Diet)
        ensures
            r == self.diet,
    {
        self.diet
    }

    /// Combines two parents into an offspring: a freshly randomized diet, the
    /// crossed visual trait, the baseline speed, and no discovered reefs,
    /// whatever the parents' state.
    pub fn breed(&self, other: &Crab, name: String, rng: &mut Tide) -> (r: Crab)
        requires
            old(rng).wf(),
        ensures
            final(rng).wf(),
            final(rng)@ == next_state(old(rng)@),
            r.name == name,
            r.speed == BRED_SPEED,
            r.color == crossed(self.color, other.color),
            r.diet == diet_of_draw(draw_of(old(rng)@, 3)),
            r.reefs@ == Seq::<usize>::empty(),
    {
        let diet = Diet::random_diet(rng);
        let color = Color::cross(&self.color, &other.color);
        Crab { name, speed: BRED_SPEED, color, diet, reefs: Vec::new() }
    }

    /// Records a newly discovered reef (a registry index) at the end of the
    /// crab's list; only the reference is copied, no prey changes owner.
    pub fn discover_reef(&mut self, reef: usize)
        ensures
            final(self).reefs@ == old(self).reefs@.push(reef),
            final(self).name == old(self).name,
            final(self).speed == old(self).speed,
            final(self).color == old(self).color,
            final(self).diet == old(self).diet,
    {
        self.reefs.push(reef);
    }

    /// The bound a hunt asks of the registry: every reef the crab has
    /// discovered is a valid registry index.
    pub open spec fn reefs_in(&self, reefs: Seq<Reef>) -> bool {
        forall|t: int| 0 <= t < self.reefs@.len() ==> (#[trigger] self.reefs@[t] as int)
            < reefs.len()
    }

    /// The hunt protocol. Walks the known reefs in discovery order, draining
    /// the current reef item by item: an item of the wrong dietary class, or
    /// one that escapes, goes to a local working list; the first item that
    /// matches and fails to escape is consumed, and no further reef is
    /// touched. Whatever happened, every item in the working list is then
    /// restored to its originating reef, in the order recorded. Returns
    /// whether an item was consumed.
    ///
    /// The contract is a conservation law: no reef but the crab's known
    /// reefs is touched, and per registry index the prey multiset is
    /// unchanged — except that a successful hunt removes exactly one item,
    /// of the crab's own dietary class, from exactly one known reef. A hunt
    /// over reefs with no matching item fails and changes nothing; a known
    /// reef holding a matching stationary item guarantees success. The
    /// order policy is pinned too: a failed hunt leaves every known reef
    /// exactly reversed (taken from the end, restored by appending), and a
    /// successful one leaves the consuming reef as the items below the
    /// consumed one followed by those above it, reversed.
    #[verifier::loop_isolation(false)]
    pub fn hunt(&self, reefs: &mut Vec<Reef>, rng: &mut Tide) -> (caught: bool)
        requires
            old(rng).wf(),
            self.reefs_in(old(reefs)@),
        ensures
            final(rng).wf(),
            final(reefs)@.len() == old(reefs)@.len(),
            forall|j: int|
                0 <= j < old(reefs)@.len() && !knows(self.reefs@, j) ==> final(reefs)@[j] == old(
                    reefs,
                )@[j],
            caught ==> exists|j: int, p: Prey|
                knows(self.reefs@, j) && diet_of(p) == self.diet && consumed_one(
                    old(reefs)@,
                    final(reefs)@,
                    j,
                    p,
                ),
            !caught ==> forall|j: int|
                0 <= j < old(reefs)@.len() ==> reef_prey_ms(final(reefs)@, j) == reef_prey_ms(
                    old(reefs)@,
                    j,
                ),
            !caught ==> forall|j: int|
                0 <= j < old(reefs)@.len() && knows(self.reefs@, j) ==> final(reefs)@[j]@ == old(
                    reefs,
                )@[j]@.reverse(),
            caught ==> exists|j: int, n: int|
                knows(self.reefs@, j) && 0 <= j < old(reefs)@.len() && 0 <= n < old(
                    reefs,
                )@[j]@.len() && diet_of(old(reefs)@[j]@[n]) == self.diet && final(reefs)@[j]@ == old(
                    reefs,
                )@[j]@.take(n) + old(reefs)@[j]@.skip(n + 1).reverse(),
            !any_match(old(reefs)@, self.reefs@, self.diet) ==> !caught,
            any_sure_catch(old(reefs)@, self.reefs@, self.diet) ==> caught,
    {
        let ghost orig: Seq<Reef> = reefs@;
        let mut escaped: Vec<(Prey, usize)> = Vec::new();
        let mut caught = false;
        let ghost mut cj: int = 0;
        let ghost mut cp: Prey = Prey::Clam;
        let mut k: usize = 0;

        while k < self.reefs.len() && !caught
            invariant
                rng.wf(),
                k <= self.reefs@.len(),
                reefs@.len() == orig.len(),
                forall|j: int|
                    0 <= j < orig.len() && !knows(self.reefs@, j) ==> reefs@[j] == orig[j],
                forall|t: int|
                    0 <= t < escaped@.len() ==> knows(
                        self.reefs@,
                        (#[trigger] escaped@[t]).1 as int,
                    ) && (escaped@[t].1 as int) < orig.len(),
                forall|t: int|
                    0 <= t < escaped@.len() ==> !(diet_of((#[trigger] escaped@[t]).0) == self.diet
                        && is_stationary(escaped@[t].0)),
                !caught ==> forall|j: int|
                    0 <= j < orig.len() ==> reef_prey_ms(orig, j) == reef_prey_ms(reefs@, j).add(
                        working_ms(escaped@, j),
                    ),
                !caught ==> forall|t: int|
                    0 <= t < k ==> reefs@[#[trigger] self.reefs@[t] as int]@.len() == 0,
                !caught ==> forall|j: int|
                    0 <= j < orig.len() ==> orig[j]@ == reefs@[j]@ + working_seq(
                        escaped@,
                        j,
                    ).reverse(),
                caught ==> 0 <= cj < orig.len() && knows(self.reefs@, cj) && diet_of(cp)
                    == self.diet,
                caught ==> reef_prey_ms(orig, cj) == reef_prey_ms(reefs@, cj).add(
                    working_ms(escaped@, cj),
                ).insert(cp),
                caught ==> orig[cj]@ == reefs@[cj]@.push(cp) + working_seq(
                    escaped@,
                    cj,
                ).reverse(),
                caught ==> forall|j: int|
                    0 <= j < orig.len() && j != cj ==> reef_prey_ms(orig, j) == reef_prey_ms(
                        reefs@,
                        j,
                    ).add(working_ms(escaped@, j)),
            decreases self.reefs@.len() - k,
        {
            let j = self.reefs[k];
            #[verifier::loop_isolation(true)]
            loop
                invariant_except_break
                    !caught,
                    rng.wf(),
                    k < self.reefs@.len(),
                    j == self.reefs@[k as int],
                    self.reefs_in(orig),
                    reefs@.len() == orig.len(),
                    forall|j2: int|
                        0 <= j2 < orig.len() && !knows(self.reefs@, j2) ==> reefs@[j2] == orig[j2],
                    forall|t: int|
                        0 <= t < escaped@.len() ==> knows(
                            self.reefs@,
                            (#[trigger] escaped@[t]).1 as int,
                        ) && (escaped@[t].1 as int) < orig.len(),
                    forall|t: int|
                        0 <= t < escaped@.len() ==> !(diet_of((#[trigger] escaped@[t]).0)
                            == self.diet && is_stationary(escaped@[t].0)),
                    forall|j2: int|
                        0 <= j2 < orig.len() ==> reef_prey_ms(orig, j2) == reef_prey_ms(
                            reefs@,
                            j2,
                        ).add(working_ms(escaped@, j2)),
                    forall|t: int|
                        0 <= t < k ==> reefs@[#[trigger] self.reefs@[t] as int]@.len() == 0,
                    forall|j2: int|
                        0 <= j2 < orig.len() ==> orig[j2]@ == reefs@[j2]@ + working_seq(
                            escaped@,
                            j2,
                        ).reverse(),
                ensures
                    rng.wf(),
                    reefs@.len() == orig.len(),
                    forall|j2: int|
                        0 <= j2 < orig.len() && !knows(self.reefs@, j2) ==> reefs@[j2] == orig[j2],
                    forall|t: int|
                        0 <= t < escaped@.len() ==> knows(
                            self.reefs@,
                            (#[trigger] escaped@[t]).1 as int,
                        ) && (escaped@[t].1 as int) < orig.len(),
                    forall|t: int|
                        0 <= t < escaped@.len() ==> !(diet_of((#[trigger] escaped@[t]).0)
                            == self.diet && is_stationary(escaped@[t].0)),
                    !caught ==> forall|j2: int|
                        0 <= j2 < orig.len() ==> reef_prey_ms(orig, j2) == reef_prey_ms(
                            reefs@,
                            j2,
                        ).add(working_ms(escaped@, j2)),
                    !caught ==> reefs@[j as int]@.len() == 0,
                    !caught ==> forall|t: int|
                        0 <= t < k ==> reefs@[#[trigger] self.reefs@[t] as int]@.len() == 0,
                    !caught ==> forall|j2: int|
                        0 <= j2 < orig.len() ==> orig[j2]@ == reefs@[j2]@ + working_seq(
                            escaped@,
                            j2,
                        ).reverse(),
                    caught ==> 0 <= cj < orig.len() && knows(self.reefs@, cj) && diet_of(cp)
                        == self.diet,
                    caught ==> reef_prey_ms(orig, cj) == reef_prey_ms(reefs@, cj).add(
                        working_ms(escaped@, cj),
                    ).insert(cp),
                    caught ==> orig[cj]@ == reefs@[cj]@.push(cp) + working_seq(
                        escaped@,
                        cj,
                    ).reverse(),
                    caught ==> forall|j2: int|
                        0 <= j2 < orig.len() && j2 != cj ==> reef_prey_ms(orig, j2) == reef_prey_ms(
                            reefs@,
                            j2,
                        ).add(working_ms(escaped@, j2)),
                decreases reefs@[j as int]@.len(),
            {
                let ghost pre: Seq<Reef> = reefs@;
                let taken = take_at(reefs, j);
                match taken {
                    None => {
                        break ;
                    },
                    Some(p) => {
                        proof {
                            let b = pre[j as int]@;
                            assert(b[b.len() - 1] == p);
                            assert(b.drop_last() =~= b.remove(b.len() - 1));
                            assert(reefs@[j as int]@.to_multiset() == b.to_multiset().remove(p));
                            assert(b.to_multiset().count(p) > 0);
                            assert(b.to_multiset() =~= reefs@[j as int]@.to_multiset().insert(p));
                        }
                        if p.diet() == self.diet {
                            if p.try_escape(self.speed, rng) {
                                let ghost esc0 = escaped@;
                                escaped.push((p, j));
                                proof {
                                    assert forall|j2: int| 0 <= j2 < orig.len() implies
                                        reef_prey_ms(orig, j2) == reef_prey_ms(reefs@, j2).add(
                                        working_ms(escaped@, j2),
                                    ) by {
                                        lemma_working_ms_push(esc0, p, j, j2);
                                        if j2 == j as int {
                                            assert(reef_prey_ms(pre, j2).add(working_ms(esc0, j2))
                                                =~= reef_prey_ms(reefs@, j2).add(
                                                working_ms(escaped@, j2),
                                            ));
                                        }
                                    }
                                    assert(pre[j as int]@ =~= reefs@[j as int]@.push(p));
                                    assert forall|j2: int| 0 <= j2 < orig.len() implies orig[j2]@ == reefs@[j2]@
                                        + working_seq(escaped@, j2).reverse() by {
                                        lemma_working_seq_push(esc0, p, j, j2);
                                        if j2 == j as int {
                                            assert(reefs@[j2]@ + working_seq(esc0, j2).push(p).reverse()
                                                =~= reefs@[j2]@.push(p) + working_seq(esc0, j2).reverse());
                                        }
                                    }
                                }
                            } else {
                                caught = true;
                                proof {
                                    cj = j as int;
                                    cp = p;
                                    assert(pre[j as int]@ =~= reefs@[j as int]@.push(p));
                                    assert(reef_prey_ms(orig, cj) =~= reef_prey_ms(
                                        reefs@,
                                        cj,
                                    ).add(working_ms(escaped@, cj)).insert(cp));
                                }
                                break ;
                            }
                        } else {
                            let ghost esc0 = escaped@;
                            escaped.push((p, j));
                            proof {
                                assert forall|j2: int| 0 <= j2 < orig.len() implies
                                    reef_prey_ms(orig, j2) == reef_prey_ms(reefs@, j2).add(
                                    working_ms(escaped@, j2),
                                ) by {
                                    lemma_working_ms_push(esc0, p, j, j2);
                                    if j2 == j as int {
                                        assert(reef_prey_ms(pre, j2).add(working_ms(esc0, j2))
                                            =~= reef_prey_ms(reefs@, j2).add(
                                            working_ms(escaped@, j2),
                                        ));
                                    }
                                }
                                assert(pre[j as int]@ =~= reefs@[j as int]@.push(p));
                                assert forall|j2: int| 0 <= j2 < orig.len() implies orig[j2]@ == reefs@[j2]@
                                    + working_seq(escaped@, j2).reverse() by {
                                    lemma_working_seq_push(esc0, p, j, j2);
                                    if j2 == j as int {
                                        assert(reefs@[j2]@ + working_seq(esc0, j2).push(p).reverse()
                                            =~= reefs@[j2]@.push(p) + working_seq(esc0, j2).reverse());
                                    }
                                }
                            }
                        }
                    },
                }
            }
            k = k + 1;
        }

        proof {
            if !caught && any_sure_catch(orig, self.reefs@, self.diet) {
                let (j, i) = choose|j: int, i: int|
                    0 <= j < orig.len() && knows(self.reefs@, j) && 0 <= i < orig[j]@.len()
                        && diet_of(#[trigger] orig[j]@[i]) == self.diet && is_stationary(
                        orig[j]@[i],
                    );
                let k0 = choose|k0: int|
                    0 <= k0 < self.reefs@.len() && #[trigger] self.reefs@[k0] as int == j;
                assert(reefs@[j]@.len() == 0);
                assert(reefs@[j]@.to_multiset().len() == 0);
                assert(reef_prey_ms(reefs@, j) =~= Multiset::empty());
                assert(orig[j]@.contains(orig[j]@[i]));
                assert(reef_prey_ms(orig, j).count(orig[j]@[i]) > 0);
                assert(working_ms(escaped@, j).count(orig[j]@[i]) > 0);
                lemma_working_ms_member(escaped@, j, orig[j]@[i]);
                assert(false);
            }
        }

        proof {
            assert(escaped@.skip(0) =~= escaped@);
            if !caught {
                assert forall|j2: int|
                    0 <= j2 < orig.len() && knows(self.reefs@, j2) implies orig[j2]@.reverse()
                    == reefs@[j2]@ + working_seq(escaped@, j2) by {
                    let k0 = choose|k0: int|
                        0 <= k0 < self.reefs@.len() && #[trigger] self.reefs@[k0] as int == j2;
                    assert(reefs@[j2]@.len() == 0);
                    assert(orig[j2]@ =~= working_seq(escaped@, j2).reverse());
                    assert(working_seq(escaped@, j2).reverse().reverse() =~= working_seq(
                        escaped@,
                        j2,
                    ));
                    assert(reefs@[j2]@ + working_seq(escaped@, j2) =~= working_seq(escaped@, j2));
                }
            }
        }
        let ghost base: Seq<Reef> = reefs@;
        let mut t: usize = 0;
        while t < escaped.len()
            invariant
                t <= escaped@.len(),
                base.len() == orig.len(),
                forall|j2: int|
                    0 <= j2 < orig.len() ==> reefs@[j2]@ + working_seq(escaped@.skip(t as int), j2)
                        == base[j2]@ + working_seq(escaped@, j2),
                caught ==> orig[cj]@ == base[cj]@.push(cp) + working_seq(
                    escaped@,
                    cj,
                ).reverse(),
                reefs@.len() == orig.len(),
                forall|j2: int|
                    0 <= j2 < orig.len() && !knows(self.reefs@, j2) ==> reefs@[j2] == orig[j2],
                !caught ==> forall|j2: int|
                    0 <= j2 < orig.len() ==> reef_prey_ms(orig, j2) == reef_prey_ms(reefs@, j2).add(
                        working_ms(escaped@.skip(t as int), j2),
                    ),
                !caught ==> forall|j2: int|
                    0 <= j2 < orig.len() && knows(self.reefs@, j2) ==> orig[j2]@.reverse()
                        == reefs@[j2]@ + working_seq(escaped@.skip(t as int), j2),
                caught ==> reef_prey_ms(orig, cj) == reef_prey_ms(reefs@, cj).add(
                    working_ms(escaped@.skip(t as int), cj),
                ).insert(cp),
                caught ==> forall|j2: int|
                    0 <= j2 < orig.len() && j2 != cj ==> reef_prey_ms(orig, j2) == reef_prey_ms(
                        reefs@,
                        j2,
                    ).add(working_ms(escaped@.skip(t as int), j2)),
            decreases escaped@.len() - t,
        {
            let pair = escaped[t];
            let ghost pre: Seq<Reef> = reefs@;
            add_at(reefs, pair.1, pair.0);
            proof {
                let rest = escaped@.skip(t as int);
                assert(rest.first() == escaped@[t as int]);
                assert(rest.drop_first() =~= escaped@.skip(t as int + 1));
                assert(reefs@[pair.1 as int]@.to_multiset() == pre[pair.1 as int]@.to_multiset()
                    .insert(pair.0));
                assert forall|j2: int| 0 <= j2 < orig.len() implies reef_prey_ms(pre, j2).add(
                    working_ms(rest, j2),
                ) == reef_prey_ms(reefs@, j2).add(working_ms(escaped@.skip(t as int + 1), j2)) by {
                    if j2 == pair.1 as int {
                        assert(reef_prey_ms(pre, j2).add(working_ms(rest, j2)) =~= reef_prey_ms(
                            reefs@,
                            j2,
                        ).add(working_ms(escaped@.skip(t as int + 1), j2)));
                    }
                }
                assert forall|j2: int| 0 <= j2 < orig.len() implies pre[j2]@ + working_seq(
                    rest,
                    j2,
                ) == reefs@[j2]@ + working_seq(escaped@.skip(t as int + 1), j2) by {
                    if j2 == pair.1 as int {
                        assert(working_seq(rest, j2) == seq![pair.0] + working_seq(
                            rest.drop_first(),
                            j2,
                        ));
                        assert(pre[j2]@ + working_seq(rest, j2) =~= reefs@[j2]@ + working_seq(
                            escaped@.skip(t as int + 1),
                            j2,
                        ));
                    }
                }
            }
            t = t + 1;
        }

        proof {
            assert(escaped@.skip(escaped@.len() as int) =~= Seq::<(Prey, usize)>::empty());
            assert forall|j2: int| 0 <= j2 < orig.len() implies reef_prey_ms(reefs@, j2).add(
                working_ms(escaped@.skip(escaped@.len() as int), j2),
            ) == reef_prey_ms(reefs@, j2) by {
                assert(reef_prey_ms(reefs@, j2).add(Multiset::empty()) =~= reef_prey_ms(
                    reefs@,
                    j2,
                ));
            }
            if !caught {
                assert forall|j2: int|
                    0 <= j2 < orig.len() && knows(self.reefs@, j2) implies reefs@[j2]@
                    == orig[j2]@.reverse() by {
                    assert(working_seq(escaped@.skip(escaped@.len() as int), j2) =~= Seq::<
                        Prey,
                    >::empty());
                    assert(reefs@[j2]@ + Seq::<Prey>::empty() =~= reefs@[j2]@);
                }
            }
            if caught {
                let ws = working_seq(escaped@, cj);
                assert(reefs@[cj]@ + working_seq(escaped@.skip(escaped@.len() as int), cj)
                    == base[cj]@ + ws);
                assert(reefs@[cj]@ + Seq::<Prey>::empty() =~= reefs@[cj]@);
                assert(reefs@[cj]@ == base[cj]@ + ws);
                let n = base[cj]@.len() as int;
                assert(orig[cj]@ == base[cj]@.push(cp) + ws.reverse());
                assert(orig[cj]@.len() == n + 1 + ws.len());
                assert(orig[cj]@[n] == cp);
                assert(orig[cj]@.take(n) =~= base[cj]@);
                assert(orig[cj]@.skip(n + 1) =~= ws.reverse());
                assert(ws.reverse().reverse() =~= ws);
                assert(reefs@[cj]@ =~= orig[cj]@.take(n) + orig[cj]@.skip(n + 1).reverse());
                assert(reef_prey_ms(orig, cj).count(cp) > 0);
                assert(orig[cj]@.contains(cp));
                let i = choose|i: int| 0 <= i < orig[cj]@.len() && orig[cj]@[i] == cp;
                assert(any_match(orig, self.reefs@, self.diet));
                assert(consumed_one(orig, reefs@, cj, cp));
            }
        }
        caught
    }

    /// Tries each known reef once, in discovery order, and returns the first
    /// prey yielded together with the position (in the crab's list) of the
    /// reef it came from; `None` when the crab knows no reefs or all of them
    /// are empty, in which case nothing changes.
    #[verifier::loop_isolation(false)]
    pub fn catch_prey(&self, reefs: &mut Vec<Reef>) -> (r: Option<(Prey, usize)>)
        requires
            self.reefs_in(old(reefs)@),
        ensures
            final(reefs)@.len() == old(reefs)@.len(),
            r is None ==> (forall|i: int|
                0 <= i < old(reefs)@.len() ==> final(reefs)@[i] == old(reefs)@[i]) && (forall|t: int|
                0 <= t < self.reefs@.len() ==> old(reefs)@[#[trigger] self.reefs@[t] as int]@.len()
                    == 0),
            r is Some ==> {
                let (p, k) = r->Some_0;
                let j = self.reefs@[k as int] as int;
                &&& k < self.reefs@.len()
                &&& old(reefs)@[j]@.len() > 0
                &&& p == old(reefs)@[j]@.last()
                &&& final(reefs)@[j]@ == old(reefs)@[j]@.drop_last()
                &&& forall|i: int|
                    0 <= i < old(reefs)@.len() && i != j ==> final(reefs)@[i] == old(reefs)@[i]
                &&& forall|t: int|
                    0 <= t < k ==> old(reefs)@[#[trigger] self.reefs@[t] as int]@.len() == 0
            },
    {
        let n = self.reefs.len();
        let mut k: usize = 0;
        while k < n
            invariant
                k <= n,
                reefs@.len() == old(reefs)@.len(),
                forall|i: int| 0 <= i < old(reefs)@.len() ==> reefs@[i] == old(reefs)@[i],
                forall|t: int|
                    0 <= t < k ==> old(reefs)@[#[trigger] self.reefs@[t] as int]@.len() == 0,
            decreases n - k,
        {
            let j = self.reefs[k];
            if reefs[j].len() > 0 {
                let taken = take_at(reefs, j);
                match taken {
                    Some(p) => {
                        return Some((p, k));
                    },
                    None => {
                        proof {
                            assert(false);
                        }
                    },
                }
            }
            k = k + 1;
        }
        None
    }

    /// Restores the given prey to the reef at position `reef_index` of the
    /// crab's list. An out-of-range position is skipped silently: restoration
    /// is best-effort and never fails the hunt.
    pub fn release_prey(&self, reefs: &mut Vec<Reef>, prey: Prey, reef_index: usize)
        requires
            self.reefs_in(old(reefs)@),
        ensures
            final(reefs)@.len() == old(reefs)@.len(),
            reef_index < self.reefs@.len() ==> {
                let j = self.reefs@[reef_index as int] as int;
                &&& final(reefs)@[j]@ == old(reefs)@[j]@.push(prey)
                &&& forall|i: int|
                    0 <= i < old(reefs)@.len() && i != j ==> final(reefs)@[i] == old(reefs)@[i]
            },
            reef_index >= self.reefs@.len() ==> final(reefs)@ == old(reefs)@,
    {
        if reef_index < self.reefs.len() {
            let j = self.reefs[reef_index];
            add_at(reefs, j, prey);
        }
    }

    /// Returns the first recipe in scan order that suits this crab's diet,
    /// or `None` when no recipe does.
    pub fn choose_recipe<'a>(&'a self, cookbook: &'a Cookbook) -> (r: Option<&'a Recipe>)
        ensures
            match r {
                Some(rec) => exists|i: int|
                    0 <= i < cookbook@.len() && *rec == cookbook@[i] && cookbook@[i].diet
                        == self.diet && (forall|j: int|
                        0 <= j < i ==> cookbook@[j].diet != self.diet),
                None => !has_recipe_for(cookbook@, self.diet),
            },
    {
        let recipes = cookbook.recipes();
        let n = recipes.len();
        let mut i: usize = 0;
        while i < n
            invariant
                n == cookbook@.len(),
                recipes@ == cookbook@,
                0 <= i <= n,
                forall|j: int| 0 <= j < i ==> cookbook@[j].diet != self.diet,
            decreases n - i,
        {
            if recipes[i].diet == self.diet {
                return Some(&recipes[i]);
            }
            i = i + 1;
        }
        None
    }
}

} // verus!
