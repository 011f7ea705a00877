use mihoyo_widget::challenge::{
    ApocalypticShadowRaw, ChallengeGroupItem, ChallengeGroupsData, ChallengeInfo,
    ForgottenHallRaw, PureFictionRaw,
};
use mihoyo_widget::json::{format_mihoyo_date, i64_or_default, JsonNumber, JsonValue};
use mihoyo_widget::periodic_act::{ActSeason, PeriodicAct, PeriodicActRaw};
use mihoyo_widget::rogue_archive::{
    or_default, or_else, DestinyRaw, LocustBasic, LocustCnt, LocustRaw, MagicBasic, MagicRaw,
    NousBasic, NousRaw, RogueArchive,
};

fn group(id: i64, stars: i64, floors: i64) -> ChallengeGroupItem {
    ChallengeGroupItem {
        schedule_id: id,
        begin_time: "2024-06-01 04:00".to_string(),
        end_time: "2024-07-15 03:59".to_string(),
        star_num: stars,
        max_floor: floors,
    }
}

#[test]
fn forgotten_hall_three_stars_per_floor() {
    let raw = ForgottenHallRaw {
        schedule_id: 1010,
        begin_time: "a".to_string(),
        end_time: "b".to_string(),
        star_num: 30,
        max_floor: 12,
        has_data: true,
    };
    let info = ChallengeInfo::from_forgotten_hall(raw);
    assert_eq!(info.max_star, 36);
    assert_eq!(info.star_num, 30);
    assert_eq!(info.schedule_id, 1010);
    assert!(info.has_data);
    assert_eq!(info.begin_time, "a");
}

#[test]
fn pure_fiction_takes_first_group() {
    let groups = ChallengeGroupsData { groups: vec![group(7, 9, 4), group(6, 12, 4)] };
    let raw = PureFictionRaw::from_groups(groups);
    assert!(raw.has_data);
    assert_eq!(raw.schedule_id, 7);
    let info = ChallengeInfo::from_pure_fiction(raw);
    assert_eq!(info.max_star, 12);
    assert_eq!(info.star_num, 9);
    assert_eq!(info.end_time, "2024-07-15 03:59");
}

#[test]
fn empty_groups_give_empty_season_with_default_max_star() {
    let raw = ApocalypticShadowRaw::from_groups(ChallengeGroupsData { groups: vec![] });
    assert!(!raw.has_data);
    assert_eq!(raw, ApocalypticShadowRaw::default());
    let info = ChallengeInfo::from_apocalyptic_shadow(raw);
    assert_eq!(info.max_star, 12);
    assert_eq!(info.begin_time, "");
    assert!(!info.has_data);
    let pf = PureFictionRaw::from_groups(ChallengeGroupsData { groups: vec![] });
    assert_eq!(pf, PureFictionRaw::default());
}

#[test]
fn apocalyptic_shadow_with_floors() {
    let raw = ApocalypticShadowRaw::from_groups(ChallengeGroupsData { groups: vec![group(3, 5, 5)] });
    let info = ChallengeInfo::from_apocalyptic_shadow(raw);
    assert_eq!(info.max_star, 15);
    assert!(info.has_data);
}

#[test]
fn lenient_integers() {
    let n = |v: JsonNumber| i64_or_default(&JsonValue::Number(v));
    assert_eq!(n(JsonNumber::PosInt(42)), Ok(42));
    assert_eq!(n(JsonNumber::NegInt(-3)), Ok(-3));
    assert_eq!(n(JsonNumber::PosInt(u64::MAX)), Err("not i64".to_string()));
    assert_eq!(n(JsonNumber::Float), Err("not i64".to_string()));
    assert_eq!(i64_or_default(&JsonValue::String(String::new())), Ok(0));
    assert_eq!(i64_or_default(&JsonValue::Null), Ok(0));
    assert_eq!(i64_or_default(&JsonValue::Bool(true)), Ok(0));
}

fn num(v: i64) -> JsonValue {
    if v < 0 {
        JsonValue::Number(JsonNumber::NegInt(v))
    } else {
        JsonValue::Number(JsonNumber::PosInt(v as u64))
    }
}

#[test]
fn date_object_is_formatted() {
    let obj = JsonValue::Object(vec![
        ("year".to_string(), num(2024)),
        ("month".to_string(), num(3)),
        ("day".to_string(), num(5)),
        ("hour".to_string(), num(7)),
        ("minute".to_string(), num(9)),
    ]);
    assert_eq!(format_mihoyo_date(obj), "2024-03-05 07:09");
}

#[test]
fn date_object_defaults_and_odd_parts() {
    assert_eq!(format_mihoyo_date(JsonValue::Object(vec![])), "0000-01-01 00:00");
    let obj = JsonValue::Object(vec![
        ("minute".to_string(), JsonValue::String("30".to_string())),
        ("year".to_string(), num(-5)),
        ("hour".to_string(), num(123)),
        ("day".to_string(), JsonValue::Number(JsonNumber::Float)),
    ]);
    assert_eq!(format_mihoyo_date(obj), "-005-01-01 123:00");
}

#[test]
fn date_text_kept_and_others_empty() {
    assert_eq!(format_mihoyo_date(JsonValue::String("2024/06/01".to_string())), "2024/06/01");
    assert_eq!(format_mihoyo_date(JsonValue::Null), "");
    assert_eq!(format_mihoyo_date(num(20240601)), "");
    assert_eq!(format_mihoyo_date(JsonValue::Array(vec![num(1)])), "");
}

#[test]
fn periodic_act_keeps_list() {
    let season = ActSeason {
        season_type: "rogue_tourn".to_string(),
        season_id: "3".to_string(),
        season_level: "12".to_string(),
        season_name: "S3".to_string(),
        division_level: "4".to_string(),
    };
    let act = PeriodicAct::from_raw(PeriodicActRaw { act_info_list: vec![season.clone()] });
    assert_eq!(act.acts, vec![season]);
}

fn nous() -> NousRaw {
    NousRaw { basic: NousBasic { cur_progress: 3, max_progress: 10, max_rolling: 7, active_nerve: 2 } }
}

fn magic() -> MagicRaw {
    MagicRaw {
        basic_info: MagicBasic {
            linear_tree_num: "12".to_string(),
            magic_compendium: "34".to_string(),
            discover_secrets: "5".to_string(),
        },
    }
}

fn locust() -> LocustRaw {
    LocustRaw {
        basic: LocustBasic {
            cnt: LocustCnt { narrow: 4, miracle: 80, event: 33 },
            destiny: vec![
                DestinyRaw { desc: "Preservation".to_string(), level: 2 },
                DestinyRaw { desc: "Remembrance".to_string(), level: 1 },
            ],
        },
    }
}

#[test]
fn archive_sources_fill_their_parts() {
    let n = RogueArchive::from_nous(nous());
    assert_eq!(n.nous_progress, "3/10");
    assert_eq!(n.nous_miracle, 7);
    assert_eq!(n.magic_linear, "");
    assert_eq!(n.locust_destinies.len(), 0);
    let neg = RogueArchive::from_nous(NousRaw {
        basic: NousBasic { cur_progress: -1, max_progress: 0, max_rolling: 0, active_nerve: 0 },
    });
    assert_eq!(neg.nous_progress, "-1/0");
    let l = RogueArchive::from_locust(locust());
    assert_eq!(l.locust_destinies.len(), 2);
    assert_eq!(l.locust_destinies[1].name, "Remembrance");
    assert_eq!(l.locust_destinies[1].level, 1);
    assert_eq!(l.nous_progress, "");
}

#[test]
fn merge_of_three_sources() {
    let merged = RogueArchive::from_nous(nous())
        .merge(RogueArchive::from_magic(magic()))
        .merge(RogueArchive::from_locust(locust()));
    assert_eq!(merged.nous_progress, "3/10");
    assert_eq!(merged.nous_miracle, 7);
    assert_eq!(merged.nous_nerve, 2);
    assert_eq!(merged.magic_linear, "12");
    assert_eq!(merged.magic_compendium, "34");
    assert_eq!(merged.magic_secrets, "5");
    assert_eq!(merged.locust_narrow, 4);
    assert_eq!(merged.locust_miracle, 80);
    assert_eq!(merged.locust_event, 33);
    assert_eq!(merged.locust_destinies[0].name, "Preservation");
    let other_order = RogueArchive::from_locust(locust())
        .merge(RogueArchive::from_magic(magic()).merge(RogueArchive::from_nous(nous())));
    assert_eq!(other_order, merged);
}

#[test]
fn merge_prefers_first_non_empty() {
    assert_eq!(or_else(String::new(), "b".to_string()), "b");
    assert_eq!(or_else("a".to_string(), "b".to_string()), "a");
    assert_eq!(or_default(0, 5), 5);
    assert_eq!(or_default(-1, 5), -1);
    let a = RogueArchive::from_nous(nous());
    assert_eq!(a.clone().merge(a.clone()), a);
}

#[test]
fn merge_with_empty_record() {
    let a = RogueArchive::from_locust(locust());
    assert_eq!(a.clone().merge(RogueArchive::default()), a);
    assert_eq!(RogueArchive::default().merge(a.clone()), a);
}

#[test]
fn very_negative_floor_count_gives_default_stars() {
    let raw = PureFictionRaw::from_groups(ChallengeGroupsData { groups: vec![group(1, 0, i64::MIN)] });
    assert_eq!(ChallengeInfo::from_pure_fiction(raw).max_star, 12);
    let raw = ApocalypticShadowRaw::from_groups(ChallengeGroupsData { groups: vec![group(1, 0, -5)] });
    assert_eq!(ChallengeInfo::from_apocalyptic_shadow(raw).max_star, 12);
}
