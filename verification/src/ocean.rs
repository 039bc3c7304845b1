//! The ocean: the top-level aggregate. It owns the beaches and is the
//! canonical owner of the reef registry; crabs refer to reefs by their
//! registry index.

use vstd::prelude::*;
use crate::beach::Beach;
use crate::prey::MINNOW_STOCK_SPEED;
use crate::prey::Prey;
use crate::prey::SHRIMP_STOCK_ENERGY;
use crate::reef::Reef;

verus! {

/// The prey a freshly generated reef is stocked with: the requested number
/// of minnows, then shrimp, then clams, then algae, in that order.
pub open spec fn stocked(n_minnows: u32, n_shrimp: u32, n_clams: u32, n_algae: u32) -> Seq<
    Prey,
> {
    Seq::new(n_minnows as nat, |i: int| Prey::Minnow { speed: MINNOW_STOCK_SPEED }) + Seq::new(
        n_shrimp as nat,
        |i: int| Prey::Shrimp { energy: SHRIMP_STOCK_ENERGY },
    ) + Seq::new(n_clams as nat, |i: int| Prey::Clam) + Seq::new(
        n_algae as nat,
        |i: int| Prey::Algae,
    )
}

/// The top-level world: beaches, and the registry of every reef.
#[derive(Debug)]
pub struct Ocean {
    /// The beaches, in insertion order.
    pub beaches: Vec<Beach>,
    /// The reef registry. Crabs hold indices into it; a hunt mutates it
    /// through those indices, so it is reachable directly.
    pub reefs: Vec<Reef>,
}

impl Ocean {
    /// Creates an ocean with no beaches and an empty reef registry.
    pub fn new() -> (r: Ocean)
        ensures
            r.beaches@ == Seq::<Beach>::empty(),
            r.reefs@ == Seq::<Reef>::empty(),
    {
        Ocean { beaches: Vec::new(), reefs: Vec::new() }
    }

    /// Appends a beach to the ocean.
    pub fn add_beach(&mut self, beach: Beach)
        ensures
            final(self).beaches@ == old(self).beaches@.push(beach),
            final(self).reefs == old(self).reefs,
    {
        self.beaches.push(beach);
    }

    /// The beaches, in insertion order.
    pub fn beaches(&self) -> (r: &Vec<Beach>)
        ensures
            r@ == self.beaches@,
    {
        &self.beaches
    }

    /// The reef registry, in creation order.
    pub fn reefs(&self) -> (r: &Vec<Reef>)
        ensures
            r@ == self.reefs@,
    {
        &self.reefs
    }

    /// Generates a reef stocked with the given number of each prey variant
    /// — minnows at the stock speed, shrimp at the stock energy — registers
    /// it, and returns its registry index.
    pub fn generate_reef(
        &mut self,
        n_minnows: u32,
        n_shrimp: u32,
        n_clams: u32,
        n_algae: u32,
    ) -> (id: usize)
        ensures
            final(self).beaches == old(self).beaches,
            id == old(self).reefs@.len(),
            final(self).reefs@.len() == old(self).reefs@.len() + 1,
            forall|i: int|
                0 <= i < old(self).reefs@.len() ==> final(self).reefs@[i] == old(self).reefs@[i],
            final(self).reefs@[id as int]@ == stocked(n_minnows, n_shrimp, n_clams, n_algae),
    {
        let mut reef = Reef::new();
        let ghost part1 = Seq::new(
            n_minnows as nat,
            |i: int| Prey::Minnow { speed: MINNOW_STOCK_SPEED },
        );
        let ghost part2 = part1 + Seq::new(
            n_shrimp as nat,
            |i: int| Prey::Shrimp { energy: SHRIMP_STOCK_ENERGY },
        );
        let ghost part3 = part2 + Seq::new(n_clams as nat, |i: int| Prey::Clam);
        let ghost part4 = part3 + Seq::new(n_algae as nat, |i: int| Prey::Algae);

        let mut c: u32 = 0;
        while c < n_minnows
            invariant
                c <= n_minnows,
                reef@ =~= Seq::new(c as nat, |i: int| Prey::Minnow { speed: MINNOW_STOCK_SPEED }),
            decreases n_minnows - c,
        {
            reef.add_prey(Prey::Minnow { speed: MINNOW_STOCK_SPEED });
            c = c + 1;
        }
        proof {
            assert(reef@ =~= part1);
        }

        let mut c: u32 = 0;
        while c < n_shrimp
            invariant
                c <= n_shrimp,
                reef@ =~= part1 + Seq::new(
                    c as nat,
                    |i: int| Prey::Shrimp { energy: SHRIMP_STOCK_ENERGY },
                ),
            decreases n_shrimp - c,
        {
            reef.add_prey(Prey::Shrimp { energy: SHRIMP_STOCK_ENERGY });
            c = c + 1;
        }
        proof {
            assert(reef@ =~= part2);
        }

        let mut c: u32 = 0;
        while c < n_clams
            invariant
                c <= n_clams,
                reef@ =~= part2 + Seq::new(c as nat, |i: int| Prey::Clam),
            decreases n_clams - c,
        {
            reef.add_prey(Prey::Clam);
            c = c + 1;
        }
        proof {
            assert(reef@ =~= part3);
        }

        let mut c: u32 = 0;
        while c < n_algae
            invariant
                c <= n_algae,
                reef@ =~= part3 + Seq::new(c as nat, |i: int| Prey::Algae),
            decreases n_algae - c,
        {
            reef.add_prey(Prey::Algae);
            c = c + 1;
        }
        proof {
            assert(reef@ =~= part4);
            assert(part4 =~= stocked(n_minnows, n_shrimp, n_clams, n_algae));
        }

        let id = self.reefs.len();
        self.reefs.push(reef);
        id
    }
}

} // verus!
