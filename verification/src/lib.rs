use vstd::prelude::*;

pub mod text;
pub mod cli;
pub mod garland;
pub mod input;
pub mod process;
pub mod talan;
pub mod ventures;
pub mod xiv;
pub mod xivapi;

verus! {

} // verus!
