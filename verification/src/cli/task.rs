//! A crafting task of the command-line tool.
use vstd::prelude::*;
use crate::cli::garland::Item;
use crate::cli::macros::Action;

verus! {

/// Crafting an item a given number of times with a macro.
#[derive(Debug)]
pub struct Task {
    /// The item: name, id and materials.
    pub item: Item,
    /// How many to craft.
    pub count: u64,
    /// The position of the recipe among the search results (0: the first).
    pub index: u64,
    /// The macro's actions.
    pub actions: Vec<Action>,
    /// The gear set to craft with.
    pub gearset: u64,
    /// Whether the items are crafted as collectables.
    pub collectable: bool,
}

} // verus!
