//! A flat recipe lookup structure: recipes paired with the dietary class
//! they suit, scanned in insertion order.

use vstd::prelude::*;
use crate::diet::Diet;

verus! {

/// An output artifact paired with the dietary class it suits.
#[derive(Debug)]
pub struct Recipe {
    pub name: String,
    pub diet: Diet,
}

impl Recipe {
    /// Creates a recipe for the given dietary class.
    pub fn new(name: String, diet: Diet) -> (r: Recipe)
        ensures
            r.name == name,
            r.diet == diet,
    {
        Recipe { name, diet }
    }

    /// The dietary class this recipe suits.
    pub fn diet(&self) -> (r: Diet)
        ensures
            r == self.diet,
    {
        self.diet
    }

    /// The recipe's name.
    pub fn name(&self) -> (r: &String)
        ensures
            r == self.name,
    {
        &self.name
    }
}

/// An ordered collection of recipes.
#[derive(Debug)]
pub struct Cookbook {
    recipes: Vec<Recipe>,
}

impl View for Cookbook {
    type V = Seq<Recipe>;

    /// A cookbook is modelled by its recipes in insertion order.
    closed spec fn view(&self) -> Seq<Recipe> {
        self.recipes@
    }
}

impl Cookbook {
    /// Creates an empty cookbook.
    pub fn new() -> (r: Cookbook)
        ensures
            r@ == Seq::<Recipe>::empty(),
    {
        Cookbook { recipes: Vec::new() }
    }

    /// Appends a recipe at the end of the scan order.
    pub fn add_recipe(&mut self, recipe: Recipe)
        ensures
            final(self)@ == old(self)@.push(recipe),
    {
        self.recipes.push(recipe);
    }

    /// The recipes, in scan order.
    pub fn recipes(&self) -> (r: &Vec<Recipe>)
        ensures
            r@ == self@,
    {
        &self.recipes
    }
}

} // verus!
