//! Plain-value views of game objects, as the condition logic reads them.
//!
//! Each view holds what the core reports of one object through getters that
//! take no argument; questions that take an argument from a condition (such as
//! whether a unit carries a given aura) are answered to the condition itself.
pub mod creature;
pub mod game_object;
pub mod object;
pub mod player;
pub mod unit;
