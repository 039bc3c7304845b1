//! A small predator/prey ecosystem: hunters ("crabs") compete for food items
//! ("prey") held in shared foraging grounds ("reefs").
//!
//! Reefs are shared: many crabs may feed from the same reef. The registry of
//! all reefs is a single `Vec<Reef>` owned by the [`ocean::Ocean`], and a
//! crab records the registry indices of the reefs it has discovered, so the
//! one logical resource is reached through indices rather than through
//! aliased owning references; a mutation is possible only for the caller
//! holding the registry, which makes a second in-flight mutation of the same
//! reef unrepresentable. The best-effort restoration policy survives as the
//! silent skip of an out-of-range position in [`crab::Crab::release_prey`].
//!
//! The hunt protocol atomically removes, tests, and either consumes or
//! restores prey. Its contract is a conservation law: prey is never lost or
//! duplicated, a successful hunt consumes exactly one item of the hunter's
//! dietary class, and the take and restoration order of every reef is
//! pinned exactly.

pub mod beach;
pub mod color;
pub mod cookbook;
pub mod crab;
pub mod diet;
pub mod ocean;
pub mod prey;
pub mod reef;
pub mod rng;
