//! Player index: account statistics and characters.

use vstd::prelude::*;

verus! {

/// Player statistics and character list.
#[derive(Debug, Clone, PartialEq)]
pub struct PlayerInfo {
    pub stats: Stats,
    pub avatar_list: Vec<Avatar>,
}

/// Account statistics.
#[derive(Debug, Clone, PartialEq)]
pub struct Stats {
    pub active_days: u64,
    pub avatar_num: u64,
    pub achievement_num: u64,
    pub chest_num: u64,
    pub abyss_process: String,
}

/// One character.
#[derive(Debug, Clone, PartialEq)]
pub struct Avatar {
    pub id: u64,
    pub level: u64,
    pub name: String,
    pub element: String,
    pub icon: String,
    pub rarity: u64,
}

} // verus!
