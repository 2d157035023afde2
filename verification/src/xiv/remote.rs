//! Structures the game keeps in memory.
pub mod craft;
pub mod retainer;
