//! Endgame challenge modes: Forgotten Hall, Pure Fiction and Apocalyptic
//! Shadow, and their conversion into one summary shape.

use vstd::prelude::*;

verus! {

/// Star count awarded per floor of a challenge.
pub const STARS_PER_FLOOR: i64 = 3;

/// Maximum stars assumed when a Pure Fiction or Apocalyptic Shadow season
/// reports no floor count.
pub const DEFAULT_MAX_STAR: i64 = 12;

/// Challenge mode data, reduced to the fields the widget shows.
#[derive(Debug, Clone, PartialEq)]
pub struct ChallengeInfo {
    pub schedule_id: i64,
    pub begin_time: String,
    pub end_time: String,
    pub star_num: i64,
    pub max_star: i64,
    pub has_data: bool,
}

/// Forgotten Hall response: a flat structure.
#[derive(Debug, Clone, PartialEq)]
pub struct ForgottenHallRaw {
    pub schedule_id: i64,
    pub begin_time: String,
    pub end_time: String,
    pub star_num: i64,
    pub max_floor: i64,
    pub has_data: bool,
}

impl Default for ForgottenHallRaw {
    /// A season with no data: zeros, empty times, `has_data` false.
    fn default() -> (r: ForgottenHallRaw)
        ensures
            r.schedule_id == 0 && r.begin_time@.len() == 0 && r.end_time@.len() == 0,
            r.star_num == 0 && r.max_floor == 0 && !r.has_data,
    {
        ForgottenHallRaw {
            schedule_id: 0,
            begin_time: String::new(),
            end_time: String::new(),
            star_num: 0,
            max_floor: 0,
            has_data: false,
        }
    }
}

/// One season inside the `groups` array of the Pure Fiction and Apocalyptic
/// Shadow responses.
#[derive(Debug, Clone, PartialEq)]
pub struct ChallengeGroupItem {
    pub schedule_id: i64,
    pub begin_time: String,
    pub end_time: String,
    pub star_num: i64,
    pub max_floor: i64,
}

/// The `{ groups: [...] }` wrapper of the Pure Fiction and Apocalyptic Shadow
/// responses.
#[derive(Debug, Clone, PartialEq)]
pub struct ChallengeGroupsData {
    pub groups: Vec<ChallengeGroupItem>,
}

/// Pure Fiction season data.
#[derive(Debug, Clone, PartialEq)]
pub struct PureFictionRaw {
    pub schedule_id: i64,
    pub begin_time: String,
    pub end_time: String,
    pub star_num: i64,
    pub max_floor: i64,
    pub has_data: bool,
}

/// Apocalyptic Shadow season data.
#[derive(Debug, Clone, PartialEq)]
pub struct ApocalypticShadowRaw {
    pub schedule_id: i64,
    pub begin_time: String,
    pub end_time: String,
    pub star_num: i64,
    pub max_floor: i64,
    pub has_data: bool,
}

/// The season data carried by a groups response: its first group, marked as
/// present; or nothing (zeros, empty times, `has_data` false) when there is
/// no group. As a tuple: schedule id, begin, end, stars, floors, present.
pub open spec fn first_group_fields(d: ChallengeGroupsData) -> (i64, Seq<char>, Seq<char>, i64, i64, bool) {
    if d.groups@.len() == 0 {
        (0, Seq::empty(), Seq::empty(), 0, 0, false)
    } else {
        let g = d.groups@[0];
        (g.schedule_id, g.begin_time@, g.end_time@, g.star_num, g.max_floor, true)
    }
}

/// A groups response with at least one season has data, whatever the
/// season's star count (a season not yet played has data too), and carries
/// that first season's figures; one with no season has none.
pub proof fn lemma_first_group_present(d: ChallengeGroupsData)
    ensures
        first_group_fields(d).5 <==> d.groups@.len() > 0,
        d.groups@.len() > 0 ==> {
            let g = d.groups@[0];
            &&& first_group_fields(d).0 == g.schedule_id
            &&& first_group_fields(d).1 == g.begin_time@
            &&& first_group_fields(d).2 == g.end_time@
            &&& first_group_fields(d).3 == g.star_num
            &&& first_group_fields(d).4 == g.max_floor
        },
        d.groups@.len() == 0 ==> first_group_fields(d) == (
            0i64,
            Seq::<char>::empty(),
            Seq::<char>::empty(),
            0i64,
            0i64,
            false,
        ),
{
}

/// Whether `max_floor` times the stars per floor fits in an `i64`.
pub open spec fn floor_stars_fit(max_floor: i64) -> bool {
    i64::MIN <= max_floor * 3 <= i64::MAX
}

/// Whether a season's stars fit in an `i64`: only a positive floor count
/// is multiplied.
pub open spec fn season_stars_fit(max_floor: i64) -> bool {
    max_floor > 0 ==> max_floor * 3 <= i64::MAX
}

/// Maximum stars of a Pure Fiction or Apocalyptic Shadow season.
pub open spec fn season_max_star(max_floor: i64) -> int {
    if max_floor > 0 { max_floor * 3 } else { 12 }
}

/// The first group, or `None`.
fn take_first_group(d: ChallengeGroupsData) -> (g: Option<ChallengeGroupItem>)
    ensures
        d.groups@.len() == 0 ==> g is None,
        d.groups@.len() > 0 ==> g == Some(d.groups@[0]),
{
    let mut groups = d.groups;
    if groups.len() == 0 {
        None
    } else {
        Some(groups.remove(0))
    }
}

impl PureFictionRaw {
    /// A season with no data: zeros, empty times, `has_data` false.
    pub fn empty() -> (r: PureFictionRaw)
        ensures
            r.schedule_id == 0 && r.begin_time@.len() == 0 && r.end_time@.len() == 0,
            r.star_num == 0 && r.max_floor == 0 && !r.has_data,
    {
        PureFictionRaw {
            schedule_id: 0,
            begin_time: String::new(),
            end_time: String::new(),
            star_num: 0,
            max_floor: 0,
            has_data: false,
        }
    }

    /// The first season of a groups response, or an empty season when the
    /// response holds none.
    pub fn from_groups(d: ChallengeGroupsData) -> (r: PureFictionRaw)
        ensures
            (r.schedule_id, r.begin_time@, r.end_time@, r.star_num, r.max_floor, r.has_data)
                == first_group_fields(d),
            r.has_data <==> d.groups@.len() > 0,
            d.groups@.len() > 0 ==> r.schedule_id == d.groups@[0].schedule_id && r.star_num
                == d.groups@[0].star_num && r.max_floor == d.groups@[0].max_floor,
    {
        match take_first_group(d) {
            Some(g) => PureFictionRaw {
                schedule_id: g.schedule_id,
                begin_time: g.begin_time,
                end_time: g.end_time,
                star_num: g.star_num,
                max_floor: g.max_floor,
                has_data: true,
            },
            None => PureFictionRaw::empty(),
        }
    }
}

impl Default for PureFictionRaw {
    fn default() -> (r: PureFictionRaw)
        ensures
            r.schedule_id == 0 && r.begin_time@.len() == 0 && r.end_time@.len() == 0,
            r.star_num == 0 && r.max_floor == 0 && !r.has_data,
    {
        PureFictionRaw::empty()
    }
}

impl ApocalypticShadowRaw {
    /// A season with no data: zeros, empty times, `has_data` false.
    pub fn empty() -> (r: ApocalypticShadowRaw)
        ensures
            r.schedule_id == 0 && r.begin_time@.len() == 0 && r.end_time@.len() == 0,
            r.star_num == 0 && r.max_floor == 0 && !r.has_data,
    {
        ApocalypticShadowRaw {
            schedule_id: 0,
            begin_time: String::new(),
            end_time: String::new(),
            star_num: 0,
            max_floor: 0,
            has_data: false,
        }
    }

    /// The first season of a groups response, or an empty season when the
    /// response holds none.
    pub fn from_groups(d: ChallengeGroupsData) -> (r: ApocalypticShadowRaw)
        ensures
            (r.schedule_id, r.begin_time@, r.end_time@, r.star_num, r.max_floor, r.has_data)
                == first_group_fields(d),
            r.has_data <==> d.groups@.len() > 0,
            d.groups@.len() > 0 ==> r.schedule_id == d.groups@[0].schedule_id && r.star_num
                == d.groups@[0].star_num && r.max_floor == d.groups@[0].max_floor,
    {
        match take_first_group(d) {
            Some(g) => ApocalypticShadowRaw {
                schedule_id: g.schedule_id,
                begin_time: g.begin_time,
                end_time: g.end_time,
                star_num: g.star_num,
                max_floor: g.max_floor,
                has_data: true,
            },
            None => ApocalypticShadowRaw::empty(),
        }
    }
}

impl Default for ApocalypticShadowRaw {
    fn default() -> (r: ApocalypticShadowRaw)
        ensures
            r.schedule_id == 0 && r.begin_time@.len() == 0 && r.end_time@.len() == 0,
            r.star_num == 0 && r.max_floor == 0 && !r.has_data,
    {
        ApocalypticShadowRaw::empty()
    }
}

/// Maximum stars of a Pure Fiction or Apocalyptic Shadow season.
fn season_stars(max_floor: i64) -> (stars: i64)
    requires
        season_stars_fit(max_floor),
    ensures
        stars == season_max_star(max_floor),
{
    if max_floor > 0 {
        max_floor * STARS_PER_FLOOR
    } else {
        DEFAULT_MAX_STAR
    }
}

impl ChallengeInfo {
    /// A Forgotten Hall season: three stars per floor.
    pub fn from_forgotten_hall(r: ForgottenHallRaw) -> (info: ChallengeInfo)
        requires
            floor_stars_fit(r.max_floor),
        ensures
            info == (ChallengeInfo {
                schedule_id: r.schedule_id,
                begin_time: r.begin_time,
                end_time: r.end_time,
                star_num: r.star_num,
                max_star: (r.max_floor * 3) as i64,
                has_data: r.has_data,
            }),
    {
        ChallengeInfo {
            schedule_id: r.schedule_id,
            begin_time: r.begin_time,
            end_time: r.end_time,
            star_num: r.star_num,
            max_star: r.max_floor * STARS_PER_FLOOR,
            has_data: r.has_data,
        }
    }

    /// A Pure Fiction season: three stars per floor, twelve when no floor
    /// count is reported.
    pub fn from_pure_fiction(r: PureFictionRaw) -> (info: ChallengeInfo)
        requires
            season_stars_fit(r.max_floor),
        ensures
            info == (ChallengeInfo {
                schedule_id: r.schedule_id,
                begin_time: r.begin_time,
                end_time: r.end_time,
                star_num: r.star_num,
                max_star: season_max_star(r.max_floor) as i64,
                has_data: r.has_data,
            }),
            r.max_floor > 0 ==> info.max_star == r.max_floor * 3,
            r.max_floor <= 0 ==> info.max_star == 12,
    {
        ChallengeInfo {
            schedule_id: r.schedule_id,
            begin_time: r.begin_time,
            end_time: r.end_time,
            star_num: r.star_num,
            max_star: season_stars(r.max_floor),
            has_data: r.has_data,
        }
    }

    /// An Apocalyptic Shadow season: three stars per floor, twelve when no
    /// floor count is reported.
    pub fn from_apocalyptic_shadow(r: ApocalypticShadowRaw) -> (info: ChallengeInfo)
        requires
            season_stars_fit(r.max_floor),
        ensures
            info == (ChallengeInfo {
                schedule_id: r.schedule_id,
                begin_time: r.begin_time,
                end_time: r.end_time,
                star_num: r.star_num,
                max_star: season_max_star(r.max_floor) as i64,
                has_data: r.has_data,
            }),
            r.max_floor > 0 ==> info.max_star == r.max_floor * 3,
            r.max_floor <= 0 ==> info.max_star == 12,
    {
        ChallengeInfo {
            schedule_id: r.schedule_id,
            begin_time: r.begin_time,
            end_time: r.end_time,
            star_num: r.star_num,
            max_star: season_stars(r.max_floor),
            has_data: r.has_data,
        }
    }
}

} // verus!
