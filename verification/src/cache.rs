//! The decisions of the local cache: storage keys, freshness periods, and
//! what is read back from stored entries. Storing and reading are left to
//! the caller.

use vstd::prelude::*;

use crate::widget::WidgetData;

verus! {

/// Freshness period of the player index, in seconds.
pub const TTL_PLAYER: i64 = 3600;

/// Freshness period of the challenge seasons, in seconds.
pub const TTL_CHALLENGE: i64 = 14400;

/// Freshness period of the ledger, in seconds.
pub const TTL_LEDGER: i64 = 21600;

/// Freshness period of the banners, in seconds.
pub const TTL_BANNER: i64 = 21600;

/// Storage keys of the cached records.
pub const KEY_WIDGET: &'static str = "widget_data";
pub const KEY_PLAYER: &'static str = "player_info";
pub const KEY_FORGOTTEN_HALL: &'static str = "forgotten_hall";
pub const KEY_PURE_FICTION: &'static str = "pure_fiction";
pub const KEY_APOCALYPTIC_SHADOW: &'static str = "apocalyptic_shadow";
pub const KEY_LEDGER: &'static str = "ledger";
pub const KEY_BANNERS: &'static str = "banners";
pub const KEY_PERIODIC_ACT: &'static str = "periodic_act";
pub const KEY_CHALLENGE_PEAK: &'static str = "challenge_peak";
pub const KEY_ROGUE_ARCHIVE: &'static str = "rogue_archive";

/// Whether the latest cached note says the daily sign-in is done; false
/// without a cached note.
pub fn has_signed_today(latest: Option<&WidgetData>) -> (signed: bool)
    ensures
        signed == (latest matches Some(d) && d.has_signed),
{
    match latest {
        Some(d) => d.has_signed,
        None => false,
    }
}

/// The time the cached note was stored at, or 0 without one.
pub fn last_check_time(stored_at: Option<i64>) -> (t: i64)
    ensures
        t == (match stored_at {
            Some(s) => s,
            None => 0,
        }),
{
    match stored_at {
        Some(s) => s,
        None => 0,
    }
}

/// Whether the player index is older than its freshness period at time
/// `now` (a missing entry counts as stored at time 0).
pub open spec fn player_refresh_due(stored_at: Option<i64>, now: i64) -> bool {
    now - (match stored_at {
        Some(s) => s,
        None => 0,
    }) > TTL_PLAYER
}

/// Whether the player index should be fetched again at time `now`.
pub fn should_refresh_player(stored_at: Option<i64>, now: i64) -> (due: bool)
    requires
        i64::MIN <= now - (match stored_at {
            Some(s) => s,
            None => 0,
        }) <= i64::MAX,
    ensures
        due == player_refresh_due(stored_at, now),
        stored_at matches Some(t) ==> (due <==> now - t > 3600),
        stored_at is None ==> (due <==> now > 3600),
{
    let last = last_check_time(stored_at);
    now - last > TTL_PLAYER
}

} // verus!
