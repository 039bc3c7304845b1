//! A reef: a shared foraging ground holding an ordered sequence of prey.
//!
//! The order is explicit and deterministic: `add_prey` appends at the end,
//! and `take_prey` removes from the end, so taking an item and putting it
//! straight back restores the reef exactly.

use vstd::prelude::*;
use crate::prey::Prey;

verus! {

/// An ordered collection of prey, the sole owner of every item it holds.
#[derive(Debug)]
pub struct Reef {
    prey: Vec<Prey>,
}

impl View for Reef {
    type V = Seq<Prey>;

    /// A reef is modelled by the sequence of its prey, oldest first.
    closed spec fn view(&self) -> Seq<Prey> {
        self.prey@
    }
}

impl Reef {
    /// Creates an empty reef.
    pub fn new() -> (r: Reef)
        ensures
            r@ == Seq::<Prey>::empty(),
    {
        Reef { prey: Vec::new() }
    }

    /// The number of prey currently held.
    pub fn len(&self) -> (r: usize)
        ensures
            r == self@.len(),
    {
        self.prey.len()
    }

    /// A copy of the prey currently held, oldest first.
    pub fn contents(&self) -> (r: Vec<Prey>)
        ensures
            r@ == self@,
    {
        self.prey.clone()
    }

    /// Removes and returns the next prey in take order (the most recently
    /// added), or returns `None` when the reef is empty.
    pub fn take_prey(&mut self) -> (r: Option<Prey>)
        ensures
            old(self)@.len() == 0 ==> r is None && final(self)@ == old(self)@,
            old(self)@.len() > 0 ==> r == Some(old(self)@.last()) && final(self)@
                == old(self)@.drop_last(),
    {
        self.prey.pop()
    }

    /// Appends a prey item at the end of the order; restored items are thus
    /// the first to be taken again.
    pub fn add_prey(&mut self, p: Prey)
        ensures
            final(self)@ == old(self)@.push(p),
    {
        self.prey.push(p);
    }
}

/// Removes the next prey from the reef at registry index `j`, leaving every
/// other reef in the registry untouched. This is `take_prey` reached through
/// an alias into the shared registry.
pub fn take_at(reefs: &mut Vec<Reef>, j: usize) -> (r: Option<Prey>)
    requires
        j < old(reefs)@.len(),
    ensures
        final(reefs)@.len() == old(reefs)@.len(),
        forall|i: int|
            0 <= i < old(reefs)@.len() && i != j ==> final(reefs)@[i] == old(reefs)@[i],
        old(reefs)@[j as int]@.len() == 0 ==> r is None
            && final(reefs)@[j as int]@ == old(reefs)@[j as int]@,
        old(reefs)@[j as int]@.len() > 0 ==> r == Some(old(reefs)@[j as int]@.last())
            && final(reefs)@[j as int]@ == old(reefs)@[j as int]@.drop_last(),
{
    let mut reef = reefs.remove(j);
    let r = reef.take_prey();
    reefs.insert(j, reef);
    proof {
        assert forall|i: int|
            0 <= i < old(reefs)@.len() && i != j implies reefs@[i] == old(reefs)@[i] by {
            old(reefs)@.remove_ensures(j as int);
            old(reefs)@.remove(j as int).insert_ensures(j as int, reefs@[j as int]);
        }
    }
    r
}

/// Appends a prey item to the reef at registry index `j`, leaving every
/// other reef in the registry untouched. This is `add_prey` reached through
/// an alias into the shared registry.
pub fn add_at(reefs: &mut Vec<Reef>, j: usize, p: Prey)
    requires
        j < old(reefs)@.len(),
    ensures
        final(reefs)@.len() == old(reefs)@.len(),
        forall|i: int|
            0 <= i < old(reefs)@.len() && i != j ==> final(reefs)@[i] == old(reefs)@[i],
        final(reefs)@[j as int]@ == old(reefs)@[j as int]@.push(p),
{
    let mut reef = reefs.remove(j);
    reef.add_prey(p);
    reefs.insert(j, reef);
    proof {
        assert forall|i: int|
            0 <= i < old(reefs)@.len() && i != j implies reefs@[i] == old(reefs)@[i] by {
            old(reefs)@.remove_ensures(j as int);
            old(reefs)@.remove(j as int).insert_ensures(j as int, reefs@[j as int]);
        }
    }
}

/// Taking an item and immediately adding it back restores a reef's exact
/// content and order: `take_prey` on a non-empty reef leaves `s.drop_last()`
/// and yields `s.last()`, and `add_prey` of that item rebuilds `s`.
pub proof fn lemma_take_then_add_restores(s: Seq<Prey>)
    requires
        s.len() > 0,
    ensures
        s.drop_last().push(s.last()) == s,
{
    assert(s.drop_last().push(s.last()) =~= s);
}

} // verus!
