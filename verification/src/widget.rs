//! The real-time note of an account: stamina, expeditions, weekly progress.

use vstd::prelude::*;

verus! {

/// Real-time game information from the note endpoint.
#[derive(Debug, Clone, PartialEq)]
pub struct WidgetData {
    pub current_stamina: u64,
    pub max_stamina: u64,
    pub stamina_recover_time: u64,
    pub accepted_expedition_num: u64,
    pub total_expedition_num: u64,
    pub expeditions: Vec<Expedition>,
    pub current_train_score: u64,
    pub max_train_score: u64,
    pub current_rogue_score: u64,
    pub max_rogue_score: u64,
    pub current_reserve_stamina: u64,
    pub is_reserve_stamina_full: bool,
    /// Weekly boss (echo of war) clears and limit.
    pub weekly_cocoon_cnt: u64,
    pub weekly_cocoon_limit: u64,
    /// Divergent universe weekly progress.
    pub rogue_tourn_weekly_cur: u64,
    pub rogue_tourn_weekly_max: u64,
    pub rogue_tourn_week_unlocked: bool,
    /// Currency war weekly progress.
    pub grid_fight_weekly_cur: u64,
    pub grid_fight_weekly_max: u64,
    pub has_signed: bool,
}

/// One dispatched expedition.
#[derive(Debug, Clone, PartialEq)]
pub struct Expedition {
    pub avater_id: u64,
    pub avatar_name: String,
    pub remaining_time: u64,
    pub item_url: String,
    pub name: String,
    pub status: String,
}

/// The note with its sign-in flag taken from the sign-in check when that
/// check succeeded; a failed check leaves the note unchanged.
pub fn with_sign_status(data: WidgetData, status: Result<bool, String>) -> (merged: WidgetData)
    ensures
        merged == (match status {
            Ok(signed) => WidgetData { has_signed: signed, ..data },
            Err(_) => data,
        }),
{
    let mut merged = data;
    match status {
        Ok(signed) => {
            merged.has_signed = signed;
        },
        Err(_) => {},
    }
    merged
}

} // verus!
