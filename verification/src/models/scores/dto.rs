use vstd::prelude::*;

use crate::models::variations::dto::Weapons;

verus! {

/// A submitted run: the weapons it was played with, the player, and how far
/// the player got.
#[derive(Debug, Clone, PartialEq, Eq)]
pub struct CreateScore {
    pub variation: Weapons,
    pub steam_id: i64,
    pub score: i32,
    pub progress: i32,
}

} // verus!
