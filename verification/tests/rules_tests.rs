use mihoyo_widget::cache::{has_signed_today, last_check_time, should_refresh_player, TTL_PLAYER};
use mihoyo_widget::notify::{check_rules, Notice};
use mihoyo_widget::widget::{with_sign_status, WidgetData};

fn note(stamina: u64, max: u64) -> WidgetData {
    WidgetData {
        current_stamina: stamina,
        max_stamina: max,
        stamina_recover_time: 0,
        accepted_expedition_num: 4,
        total_expedition_num: 4,
        expeditions: vec![],
        current_train_score: 0,
        max_train_score: 500,
        current_rogue_score: 100,
        max_rogue_score: 14000,
        current_reserve_stamina: 0,
        is_reserve_stamina_full: false,
        weekly_cocoon_cnt: 0,
        weekly_cocoon_limit: 3,
        rogue_tourn_weekly_cur: 0,
        rogue_tourn_weekly_max: 0,
        rogue_tourn_week_unlocked: false,
        grid_fight_weekly_cur: 0,
        grid_fight_weekly_max: 0,
        has_signed: true,
    }
}

#[test]
fn stamina_nearly_full_fires_without_history() {
    let d = note(228, 240);
    assert_eq!(check_rules(&d, None), vec![Notice::StaminaNearlyFull { current: 228, max: 240 }]);
    assert_eq!(check_rules(&note(227, 240), None), vec![]);
}

#[test]
fn stamina_80_fires_on_crossing_only() {
    let old = note(191, 240);
    let d = note(192, 240);
    assert_eq!(check_rules(&d, Some(&old)), vec![Notice::StaminaAbove80 { current: 192, max: 240 }]);
    assert_eq!(check_rules(&d, Some(&d)), vec![]);
    assert_eq!(check_rules(&d, None), vec![]);
    let old_no_max = note(0, 0);
    assert_eq!(check_rules(&d, Some(&old_no_max)), vec![]);
    assert_eq!(check_rules(&note(0, 0), Some(&old)), vec![]);
}

#[test]
fn transitions_fire_in_order() {
    let old = note(10, 240);
    let mut d = note(10, 240);
    d.accepted_expedition_num = 0;
    d.is_reserve_stamina_full = true;
    d.has_signed = false;
    d.current_rogue_score = 0;
    assert_eq!(
        check_rules(&d, Some(&old)),
        vec![
            Notice::ExpeditionsDone,
            Notice::ReserveStaminaFull,
            Notice::NotSignedToday,
            Notice::RogueNotDone,
        ]
    );
    assert_eq!(check_rules(&d, None), vec![Notice::ReserveStaminaFull]);
    assert_eq!(check_rules(&d, Some(&d)), vec![Notice::ReserveStaminaFull]);
}

#[test]
fn notice_texts() {
    let n = Notice::StaminaNearlyFull { current: 228, max: 240 };
    assert_eq!(n.title(), "\u{4f53}\u{529b}\u{5feb}\u{6ee1}\u{4e86}");
    assert_eq!(n.body(), "\u{5f53}\u{524d} 228/240");
    assert_eq!(Notice::StaminaAbove80 { current: 1, max: 2 }.title(), "\u{4f53}\u{529b}\u{8d85}\u{8fc7}80%");
    assert_eq!(Notice::ExpeditionsDone.body(), "\u{6240}\u{6709}\u{59d4}\u{6258}\u{5df2}\u{8fd4}\u{56de}");
    assert_eq!(Notice::RogueNotDone.title(), "\u{6a21}\u{62df}\u{5b87}\u{5b99}\u{672a}\u{6253}");
}

#[test]
fn sign_status_merge() {
    let mut d = note(1, 2);
    d.has_signed = false;
    assert!(with_sign_status(d.clone(), Ok(true)).has_signed);
    let kept = with_sign_status(d.clone(), Err("API error retcode=-1".to_string()));
    assert_eq!(kept, d);
}

#[test]
fn cache_decisions() {
    let d = note(1, 2);
    assert!(has_signed_today(Some(&d)));
    assert!(!has_signed_today(None));
    assert_eq!(last_check_time(Some(1719000000)), 1719000000);
    assert_eq!(last_check_time(None), 0);
    assert!(!should_refresh_player(Some(1000), 1000 + TTL_PLAYER));
    assert!(should_refresh_player(Some(1000), 1001 + TTL_PLAYER));
    assert!(should_refresh_player(None, 1719000000));
}
