//! Periodic activities: seasonal modes and their ranks.

use vstd::prelude::*;

verus! {

/// Periodic activities, from the `act_info_list` of the response.
#[derive(Debug, Clone, PartialEq)]
pub struct PeriodicAct {
    pub acts: Vec<ActSeason>,
}

/// One seasonal activity.
#[derive(Debug, Clone, PartialEq)]
pub struct ActSeason {
    /// Sent as `act_type`.
    pub season_type: String,
    pub season_id: String,
    pub season_level: String,
    pub season_name: String,
    pub division_level: String,
}

/// The response body `{ act_info_list: [...] }`.
#[derive(Debug, Clone, PartialEq)]
pub struct PeriodicActRaw {
    pub act_info_list: Vec<ActSeason>,
}

impl PeriodicAct {
    /// The activities of a response, in the order received.
    pub fn from_raw(raw: PeriodicActRaw) -> (act: PeriodicAct)
        ensures
            act.acts == raw.act_info_list,
    {
        PeriodicAct { acts: raw.act_info_list }
    }
}

} // verus!
