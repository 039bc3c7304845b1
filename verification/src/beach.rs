//! A beach: a named-free flat group of crabs, owned by value, grown at the
//! end and looked up by index.

use vstd::prelude::*;
use crate::color::crossed;
use crate::crab::BRED_SPEED;
use crate::crab::Crab;
use crate::diet::diet_of_draw;
use crate::rng::Tide;
use crate::rng::draw_of;
use crate::rng::next_state;

verus! {

/// The crabs of `s` that bear the name `nm`, in their order on the beach.
pub open spec fn crabs_named(s: Seq<Crab>, nm: Seq<char>) -> Seq<Crab>
    decreases s.len(),
{
    if s.len() == 0 {
        Seq::empty()
    } else if s.last().name@ == nm {
        crabs_named(s.drop_last(), nm).push(s.last())
    } else {
        crabs_named(s.drop_last(), nm)
    }
}

/// Index `i` holds a fastest crab of `s` — the last one on ties, as the
/// lookup returns it.
pub open spec fn fastest_at(s: Seq<Crab>, i: int) -> bool {
    &&& 0 <= i < s.len()
    &&& forall|t: int| 0 <= t < s.len() ==> (#[trigger] s[t]).speed <= s[i].speed
    &&& forall|t: int| i < t < s.len() ==> (#[trigger] s[t]).speed < s[i].speed
}

/// A group of crabs in insertion order.
#[derive(Debug)]
pub struct Beach {
    crabs: Vec<Crab>,
}

impl View for Beach {
    type V = Seq<Crab>;

    /// A beach is modelled by its crabs in insertion order.
    closed spec fn view(&self) -> Seq<Crab> {
        self.crabs@
    }
}

impl Beach {
    /// Creates an empty beach.
    pub fn new() -> (r: Beach)
        ensures
            r@ == Seq::<Crab>::empty(),
    {
        Beach { crabs: Vec::new() }
    }

    /// The number of crabs on the beach.
    pub fn size(&self) -> (r: usize)
        ensures
            r == self@.len(),
    {
        self.crabs.len()
    }

    /// Takes ownership of `crab` and appends it at the end of the beach.
    pub fn add_crab(&mut self, crab: Crab)
        ensures
            final(self)@ == old(self)@.push(crab),
    {
        self.crabs.push(crab);
    }

    /// The crab at `index`. An out-of-bounds index is a programmer error:
    /// the precondition excludes it, so the lookup always fails fast at the
    /// call site rather than here.
    pub fn get_crab(&self, index: usize) -> (r: &Crab)
        requires
            index < self@.len(),
        ensures
            *r == self@[index as int],
    {
        &self.crabs[index]
    }

    /// The crabs on the beach, in insertion order.
    pub fn crabs(&self) -> (r: &Vec<Crab>)
        ensures
            r@ == self@,
    {
        &self.crabs
    }

    /// A reference to the crab with the highest speed — the last such crab
    /// on ties — or `None` exactly when the beach is empty.
    pub fn get_fastest_crab(&self) -> (r: Option<&Crab>)
        ensures
            r is None <==> self@.len() == 0,
            r is Some ==> exists|i: int| fastest_at(self@, i) && *r->Some_0 == self@[i],
    {
        if self.crabs.len() == 0 {
            return None;
        }
        let mut best: usize = 0;
        let mut t: usize = 1;
        while t < self.crabs.len()
            invariant
                best < t <= self.crabs@.len(),
                forall|u: int| 0 <= u < t ==> (#[trigger] self.crabs@[u]).speed
                    <= self.crabs@[best as int].speed,
                forall|u: int| best < u < t ==> (#[trigger] self.crabs@[u]).speed
                    < self.crabs@[best as int].speed,
            decreases self.crabs@.len() - t,
        {
            if self.crabs[t].speed >= self.crabs[best].speed {
                best = t;
            }
            t = t + 1;
        }
        proof {
            assert(fastest_at(self@, best as int));
        }
        Some(&self.crabs[best])
    }

    /// References to all crabs bearing the given name, in beach order.
    pub fn find_crabs_by_name<'a>(&'a self, name: &str) -> (r: Vec<&'a Crab>)
        ensures
            r@.len() == crabs_named(self@, name@).len(),
            forall|t: int|
                0 <= t < r@.len() ==> *(#[trigger] r@[t]) == crabs_named(self@, name@)[t],
    {
        let key: String = name.to_owned();
        let mut r: Vec<&Crab> = Vec::new();
        let mut i: usize = 0;
        while i < self.crabs.len()
            invariant
                i <= self.crabs@.len(),
                key@ == name@,
                r@.len() == crabs_named(self.crabs@.take(i as int), name@).len(),
                forall|t: int|
                    0 <= t < r@.len() ==> *(#[trigger] r@[t]) == crabs_named(
                        self.crabs@.take(i as int),
                        name@,
                    )[t],
            decreases self.crabs@.len() - i,
        {
            proof {
                assert(self.crabs@.take(i as int + 1).drop_last() =~= self.crabs@.take(i as int));
                assert(self.crabs@.take(i as int + 1).last() == self.crabs@[i as int]);
            }
            if self.crabs[i].name == key {
                r.push(&self.crabs[i]);
            }
            i = i + 1;
        }
        proof {
            assert(self.crabs@.take(self.crabs@.len() as int) =~= self.crabs@);
        }
        r
    }

    /// Breeds the crabs at indices `i` and `j`, appending the offspring at
    /// the end of the beach. An out-of-bounds index is a programmer error:
    /// the precondition excludes it for every beach size, so breeding always
    /// fails fast at the call site rather than here.
    pub fn breed_crabs(&mut self, i: usize, j: usize, name: String, rng: &mut Tide)
        requires
            i < old(self)@.len(),
            j < old(self)@.len(),
            old(rng).wf(),
        ensures
            final(rng).wf(),
            final(rng)@ == next_state(old(rng)@),
            final(self)@.len() == old(self)@.len() + 1,
            forall|t: int| 0 <= t < old(self)@.len() ==> final(self)@[t] == old(self)@[t],
            final(self)@.last().name == name,
            final(self)@.last().speed == BRED_SPEED,
            final(self)@.last().color == crossed(old(self)@[i as int].color, old(self)@[j as int].color),
            final(self)@.last().diet == diet_of_draw(draw_of(old(rng)@, 3)),
            final(self)@.last().reefs@ == Seq::<usize>::empty(),
    {
        let baby = self.crabs[i].breed(&self.crabs[j], name, rng);
        self.crabs.push(baby);
    }
}

} // verus!
