//! A turn-based duel engine: two battlers trade attacks, items and
//! surrenders over shared health and armor until one side (or both) is
//! reduced to zero.
//!
//! Every decision the engine makes is an executable function with a
//! contract; chance enters only through the wrappers in `dice` and `ids`,
//! and every rule that follows a roll is stated for each possible roll.

mod dice;
pub mod ids;
pub mod weapon;
pub mod battle;
pub mod registry;
pub mod invite;
pub mod display;
pub mod item;
pub mod log;
pub mod player;
