//! Notification rules: which desktop notifications a fresh note calls for,
//! given the note seen before it.

use vstd::prelude::*;

use crate::text::{dec_digits, push_char, push_decimal};
use crate::widget::WidgetData;

verus! {

/// A notification the widget shows.
#[derive(Debug, Clone, Copy, PartialEq, Eq)]
pub enum Notice {
    /// Stamina at 95% of the maximum or more.
    StaminaNearlyFull { current: u64, max: u64 },
    /// Stamina has just reached 80% of the maximum.
    StaminaAbove80 { current: u64, max: u64 },
    /// All expeditions have just come back.
    ExpeditionsDone,
    /// Reserve stamina is full.
    ReserveStaminaFull,
    /// The daily sign-in has just been reset and is not done.
    NotSignedToday,
    /// The weekly Simulated Universe score has just been reset to zero.
    RogueNotDone,
}

/// Whether `current` is at least `percent`% of `max`, compared exactly.
pub open spec fn at_least_percent(current: u64, max: u64, percent: int) -> bool {
    current * 100 >= max * percent
}

/// Whether the stamina of a note is below 80% of a non-zero maximum (a note
/// with maximum 0 is not below).
pub open spec fn stamina_below_80(d: WidgetData) -> bool {
    d.max_stamina > 0 && !at_least_percent(d.current_stamina, d.max_stamina, 80)
}

/// Rule 1: stamina nearly full (95%), or just past 80%.
pub open spec fn stamina_notices(d: WidgetData, old: Option<&WidgetData>) -> Seq<Notice> {
    if d.max_stamina > 0 && at_least_percent(d.current_stamina, d.max_stamina, 95) {
        seq![Notice::StaminaNearlyFull { current: d.current_stamina, max: d.max_stamina }]
    } else if d.max_stamina > 0 && at_least_percent(d.current_stamina, d.max_stamina, 80) && (
    old matches Some(o) && stamina_below_80(*o)) {
        seq![Notice::StaminaAbove80 { current: d.current_stamina, max: d.max_stamina }]
    } else {
        Seq::empty()
    }
}

/// `n` as a one-element sequence when `cond` holds, else nothing.
pub open spec fn notice_if(cond: bool, n: Notice) -> Seq<Notice> {
    if cond { seq![n] } else { Seq::empty() }
}

/// The notifications a note calls for, in order: stamina, expeditions,
/// reserve stamina, sign-in, Simulated Universe.
pub open spec fn rule_notices(d: WidgetData, old: Option<&WidgetData>) -> Seq<Notice> {
    stamina_notices(d, old) + notice_if(
        d.total_expedition_num > 0 && d.accepted_expedition_num == 0 && (old matches Some(o)
            && o.accepted_expedition_num > 0),
        Notice::ExpeditionsDone,
    ) + notice_if(d.is_reserve_stamina_full, Notice::ReserveStaminaFull) + notice_if(
        !d.has_signed && (old matches Some(o) && o.has_signed),
        Notice::NotSignedToday,
    ) + notice_if(
        d.max_rogue_score > 0 && d.current_rogue_score == 0 && (old matches Some(o)
            && o.current_rogue_score > 0),
        Notice::RogueNotDone,
    )
}

/// Whether `current` is at least `percent`% of `max`.
fn percent_reached(current: u64, max: u64, percent: u64) -> (r: bool)
    requires
        percent <= 100,
    ensures
        r == at_least_percent(current, max, percent as int),
{
    let scaled_current = (current as u128) * 100;
    assert((max as int) * (percent as int) <= 18446744073709551615 * 100) by (nonlinear_arith)
        requires
            max <= 18446744073709551615u64,
            percent <= 100,
    ;
    let scaled_max = (max as u128) * (percent as u128);
    scaled_current >= scaled_max
}

/// Checks all notification rules for a fresh note, given the note seen
/// before it, if any.
pub fn check_rules(data: &WidgetData, old: Option<&WidgetData>) -> (notices: Vec<Notice>)
    ensures
        notices@ == rule_notices(*data, old),
{
    let mut notices: Vec<Notice> = Vec::new();
    // 1. Stamina nearly full (95%), or just past 80%.
    if data.max_stamina > 0 {
        if percent_reached(data.current_stamina, data.max_stamina, 95) {
            notices.push(
                Notice::StaminaNearlyFull { current: data.current_stamina, max: data.max_stamina },
            );
        } else if percent_reached(data.current_stamina, data.max_stamina, 80) {
            if let Some(o) = old {
                if o.max_stamina > 0 && !percent_reached(o.current_stamina, o.max_stamina, 80) {
                    notices.push(
                        Notice::StaminaAbove80 {
                            current: data.current_stamina,
                            max: data.max_stamina,
                        },
                    );
                }
            }
        }
    }
    assert(notices@ =~= stamina_notices(*data, old));
    // 2. Expeditions all completed.
    if data.total_expedition_num > 0 && data.accepted_expedition_num == 0 {
        if let Some(o) = old {
            if o.accepted_expedition_num > 0 {
                notices.push(Notice::ExpeditionsDone);
            }
        }
    }
    // 3. Reserve stamina full.
    if data.is_reserve_stamina_full {
        notices.push(Notice::ReserveStaminaFull);
    }
    // 4. Daily sign-in not done.
    if !data.has_signed {
        if let Some(o) = old {
            if o.has_signed {
                notices.push(Notice::NotSignedToday);
            }
        }
    }
    // 5. Simulated Universe not done this week.
    if data.max_rogue_score > 0 && data.current_rogue_score == 0 {
        if let Some(o) = old {
            if o.current_rogue_score > 0 {
                notices.push(Notice::RogueNotDone);
            }
        }
    }
    assert(notices@ =~= rule_notices(*data, old));
    notices
}

/// Without an earlier note only the rules that need no history can fire:
/// stamina nearly full and reserve stamina full.
pub proof fn lemma_first_note_notices(d: WidgetData)
    ensures
        forall|i: int|
            0 <= i < rule_notices(d, None).len() ==> (#[trigger] rule_notices(d, None)[i]
                is StaminaNearlyFull || rule_notices(d, None)[i] is ReserveStaminaFull),
{
    assert(stamina_notices(d, None).len() <= 1);
}

/// Repeating the same note fires only the rules about a lasting state:
/// stamina nearly full and reserve stamina full.
pub proof fn lemma_unchanged_note_notices(d: WidgetData)
    ensures
        forall|i: int|
            0 <= i < rule_notices(d, Some(&d)).len() ==> (#[trigger] rule_notices(d, Some(&d))[i]
                is StaminaNearlyFull || rule_notices(d, Some(&d))[i] is ReserveStaminaFull),
{
}

/// Whether the fresh note `d` and the earlier note `old` call for
/// notification `n`: stamina nearly full only at 95% or more of a non-zero
/// maximum; "above 80%" only between 80% and 95% and only when the earlier
/// note was below 80% of a non-zero maximum; expeditions done only when all
/// came back and some were out before; sign-in and Simulated Universe only
/// when done in the earlier note and undone now; reserve stamina only when
/// it is full. The stamina notices carry the fresh note's figures.
pub open spec fn notice_called_for(n: Notice, d: WidgetData, old: Option<&WidgetData>) -> bool {
    match n {
        Notice::StaminaNearlyFull { current, max } => {
            &&& current == d.current_stamina
            &&& max == d.max_stamina
            &&& d.max_stamina > 0
            &&& d.current_stamina * 100 >= d.max_stamina * 95
        },
        Notice::StaminaAbove80 { current, max } => {
            &&& current == d.current_stamina
            &&& max == d.max_stamina
            &&& d.max_stamina > 0
            &&& d.current_stamina * 100 >= d.max_stamina * 80
            &&& d.current_stamina * 100 < d.max_stamina * 95
            &&& old matches Some(o)
            &&& o.max_stamina > 0
            &&& o.current_stamina * 100 < o.max_stamina * 80
        },
        Notice::ExpeditionsDone => {
            &&& d.total_expedition_num > 0
            &&& d.accepted_expedition_num == 0
            &&& old matches Some(o)
            &&& o.accepted_expedition_num > 0
        },
        Notice::ReserveStaminaFull => d.is_reserve_stamina_full,
        Notice::NotSignedToday => {
            &&& !d.has_signed
            &&& old matches Some(o)
            &&& o.has_signed
        },
        Notice::RogueNotDone => {
            &&& d.max_rogue_score > 0
            &&& d.current_rogue_score == 0
            &&& old matches Some(o)
            &&& o.current_rogue_score > 0
        },
    }
}

/// Every notification fired is called for by the notes (see
/// `notice_called_for`); in particular no "above 80%" notice fires when the
/// earlier note was already at 80% or more.
pub proof fn lemma_notices_are_called_for(d: WidgetData, old: Option<&WidgetData>)
    ensures
        forall|i: int|
            0 <= i < rule_notices(d, old).len() ==> notice_called_for(
                #[trigger] rule_notices(d, old)[i],
                d,
                old,
            ),
{
    let s1 = stamina_notices(d, old);
    let s2 = notice_if(
        d.total_expedition_num > 0 && d.accepted_expedition_num == 0 && (old matches Some(o)
            && o.accepted_expedition_num > 0),
        Notice::ExpeditionsDone,
    );
    let s3 = notice_if(d.is_reserve_stamina_full, Notice::ReserveStaminaFull);
    let s4 = notice_if(!d.has_signed && (old matches Some(o) && o.has_signed), Notice::NotSignedToday);
    let s5 = notice_if(
        d.max_rogue_score > 0 && d.current_rogue_score == 0 && (old matches Some(o)
            && o.current_rogue_score > 0),
        Notice::RogueNotDone,
    );
    let all = rule_notices(d, old);
    assert(all == s1 + s2 + s3 + s4 + s5);
    let k2 = s1.len() as int;
    let k3 = k2 + s2.len();
    let k4 = k3 + s3.len();
    let k5 = k4 + s4.len();
    assert forall|i: int| 0 <= i < all.len() implies notice_called_for(#[trigger] all[i], d, old) by {
        if i < k2 {
            assert(all[i] == s1[i]);
        } else if i < k3 {
            assert(all[i] == s2[i - k2]);
        } else if i < k4 {
            assert(all[i] == s3[i - k3]);
        } else if i < k5 {
            assert(all[i] == s4[i - k4]);
        } else {
            assert(all[i] == s5[i - k5]);
        }
    }
}

/// Every rule whose condition holds fires: each notification called for by
/// the notes is among those returned.
pub proof fn lemma_called_for_notices_fire(d: WidgetData, old: Option<&WidgetData>)
    ensures
        d.max_stamina > 0 && d.current_stamina * 100 >= d.max_stamina * 95 ==> rule_notices(
            d,
            old,
        ).contains(Notice::StaminaNearlyFull { current: d.current_stamina, max: d.max_stamina }),
        (d.max_stamina > 0 && d.current_stamina * 100 >= d.max_stamina * 80
            && d.current_stamina * 100 < d.max_stamina * 95 && (old matches Some(o)
            && o.max_stamina > 0 && o.current_stamina * 100 < o.max_stamina * 80))
            ==> rule_notices(d, old).contains(
            Notice::StaminaAbove80 { current: d.current_stamina, max: d.max_stamina },
        ),
        (d.total_expedition_num > 0 && d.accepted_expedition_num == 0 && (old matches Some(o)
            && o.accepted_expedition_num > 0)) ==> rule_notices(d, old).contains(
            Notice::ExpeditionsDone,
        ),
        d.is_reserve_stamina_full ==> rule_notices(d, old).contains(Notice::ReserveStaminaFull),
        (!d.has_signed && (old matches Some(o) && o.has_signed)) ==> rule_notices(d, old).contains(
            Notice::NotSignedToday,
        ),
        (d.max_rogue_score > 0 && d.current_rogue_score == 0 && (old matches Some(o)
            && o.current_rogue_score > 0)) ==> rule_notices(d, old).contains(Notice::RogueNotDone),
{
    let s1 = stamina_notices(d, old);
    let s2 = notice_if(
        d.total_expedition_num > 0 && d.accepted_expedition_num == 0 && (old matches Some(o)
            && o.accepted_expedition_num > 0),
        Notice::ExpeditionsDone,
    );
    let s3 = notice_if(d.is_reserve_stamina_full, Notice::ReserveStaminaFull);
    let s4 = notice_if(!d.has_signed && (old matches Some(o) && o.has_signed), Notice::NotSignedToday);
    let s5 = notice_if(
        d.max_rogue_score > 0 && d.current_rogue_score == 0 && (old matches Some(o)
            && o.current_rogue_score > 0),
        Notice::RogueNotDone,
    );
    let all = rule_notices(d, old);
    assert(all == s1 + s2 + s3 + s4 + s5);
    let k2 = s1.len() as int;
    let k3 = k2 + s2.len();
    let k4 = k3 + s3.len();
    let k5 = k4 + s4.len();
    if s1.len() == 1 {
        assert(all[0] == s1[0]);
    }
    if s2.len() == 1 {
        assert(all[k2] == s2[0]);
    }
    if s3.len() == 1 {
        assert(all[k3] == s3[0]);
    }
    if s4.len() == 1 {
        assert(all[k4] == s4[0]);
    }
    if s5.len() == 1 {
        assert(all[k5] == s5[0]);
    }
}

/// The rule a notification comes from: stamina, expeditions, reserve
/// stamina, sign-in, Simulated Universe.
pub open spec fn notice_rule(n: Notice) -> int {
    match n {
        Notice::StaminaNearlyFull { .. } => 0,
        Notice::StaminaAbove80 { .. } => 0,
        Notice::ExpeditionsDone => 1,
        Notice::ReserveStaminaFull => 2,
        Notice::NotSignedToday => 3,
        Notice::RogueNotDone => 4,
    }
}

/// The notifications come in the order of the rules, at most one per rule:
/// no notification is repeated, and the two stamina notices never fire
/// together.
pub proof fn lemma_notices_in_rule_order(d: WidgetData, old: Option<&WidgetData>)
    ensures
        forall|i: int, j: int|
            0 <= i < j < rule_notices(d, old).len() ==> notice_rule(
                #[trigger] rule_notices(d, old)[i],
            ) < notice_rule(#[trigger] rule_notices(d, old)[j]),
        rule_notices(d, old).len() <= 5,
{
    let s1 = stamina_notices(d, old);
    let s2 = notice_if(
        d.total_expedition_num > 0 && d.accepted_expedition_num == 0 && (old matches Some(o)
            && o.accepted_expedition_num > 0),
        Notice::ExpeditionsDone,
    );
    let s3 = notice_if(d.is_reserve_stamina_full, Notice::ReserveStaminaFull);
    let s4 = notice_if(!d.has_signed && (old matches Some(o) && o.has_signed), Notice::NotSignedToday);
    let s5 = notice_if(
        d.max_rogue_score > 0 && d.current_rogue_score == 0 && (old matches Some(o)
            && o.current_rogue_score > 0),
        Notice::RogueNotDone,
    );
    let all = rule_notices(d, old);
    assert(all == s1 + s2 + s3 + s4 + s5);
    let k2 = s1.len() as int;
    let k3 = k2 + s2.len();
    let k4 = k3 + s3.len();
    let k5 = k4 + s4.len();
    assert(s1.len() <= 1 && s2.len() <= 1 && s3.len() <= 1 && s4.len() <= 1 && s5.len() <= 1);
    assert forall|i: int| 0 <= i < all.len() implies {
        &&& i < k2 ==> notice_rule(#[trigger] all[i]) == 0
        &&& k2 <= i < k3 ==> notice_rule(all[i]) == 1
        &&& k3 <= i < k4 ==> notice_rule(all[i]) == 2
        &&& k4 <= i < k5 ==> notice_rule(all[i]) == 3
        &&& k5 <= i ==> notice_rule(all[i]) == 4
    } by {
        if i < k2 {
            assert(all[i] == s1[i]);
        } else if i < k3 {
            assert(all[i] == s2[i - k2]);
        } else if i < k4 {
            assert(all[i] == s3[i - k3]);
        } else if i < k5 {
            assert(all[i] == s4[i - k4]);
        } else {
            assert(all[i] == s5[i - k5]);
        }
    }
}

/// The title of a notification.
pub open spec fn notice_title(n: Notice) -> Seq<char> {
    match n {
        Notice::StaminaNearlyFull { .. } => "\u{4f53}\u{529b}\u{5feb}\u{6ee1}\u{4e86}"@,
        Notice::StaminaAbove80 { .. } => "\u{4f53}\u{529b}\u{8d85}\u{8fc7}80%"@,
        Notice::ExpeditionsDone => "\u{6d3e}\u{9063}\u{5168}\u{90e8}\u{5b8c}\u{6210}"@,
        Notice::ReserveStaminaFull => "\u{5907}\u{7528}\u{4f53}\u{529b}\u{5df2}\u{6ee1}"@,
        Notice::NotSignedToday => "\u{4eca}\u{65e5}\u{672a}\u{7b7e}\u{5230}"@,
        Notice::RogueNotDone => "\u{6a21}\u{62df}\u{5b87}\u{5b99}\u{672a}\u{6253}"@,
    }
}

/// The body of a stamina notification: "current {current}/{max}".
pub open spec fn stamina_body(current: u64, max: u64) -> Seq<char> {
    "\u{5f53}\u{524d} "@ + dec_digits(current as nat) + seq!['/'] + dec_digits(max as nat)
}

/// The body of a notification.
pub open spec fn notice_body(n: Notice) -> Seq<char> {
    match n {
        Notice::StaminaNearlyFull { current, max } => stamina_body(current, max),
        Notice::StaminaAbove80 { current, max } => stamina_body(current, max),
        Notice::ExpeditionsDone => "\u{6240}\u{6709}\u{59d4}\u{6258}\u{5df2}\u{8fd4}\u{56de}"@,
        Notice::ReserveStaminaFull => "\u{8bf7}\u{53ca}\u{65f6}\u{4f7f}\u{7528}"@,
        Notice::NotSignedToday =>
            "\u{661f}\u{7a79}\u{94c1}\u{9053}\u{4eca}\u{65e5}\u{8fd8}\u{672a}\u{7b7e}\u{5230}"@,
        Notice::RogueNotDone =>
            "\u{672c}\u{5468}\u{6a21}\u{62df}\u{5b87}\u{5b99}\u{79ef}\u{5206}\u{8fd8}\u{672a}\u{83b7}\u{53d6}"@,
    }
}

impl Notice {
    /// The title of the notification.
    pub fn title(&self) -> (t: String)
        ensures
            t@ == notice_title(*self),
    {
        match self {
            Notice::StaminaNearlyFull { .. } => String::from_str("\u{4f53}\u{529b}\u{5feb}\u{6ee1}\u{4e86}"),
            Notice::StaminaAbove80 { .. } => String::from_str("\u{4f53}\u{529b}\u{8d85}\u{8fc7}80%"),
            Notice::ExpeditionsDone => String::from_str("\u{6d3e}\u{9063}\u{5168}\u{90e8}\u{5b8c}\u{6210}"),
            Notice::ReserveStaminaFull => String::from_str("\u{5907}\u{7528}\u{4f53}\u{529b}\u{5df2}\u{6ee1}"),
            Notice::NotSignedToday => String::from_str("\u{4eca}\u{65e5}\u{672a}\u{7b7e}\u{5230}"),
            Notice::RogueNotDone => String::from_str("\u{6a21}\u{62df}\u{5b87}\u{5b99}\u{672a}\u{6253}"),
        }
    }

    /// The body of the notification.
    pub fn body(&self) -> (b: String)
        ensures
            b@ == notice_body(*self),
    {
        match self {
            Notice::StaminaNearlyFull { current, max } | Notice::StaminaAbove80 { current, max } => {
                let mut b = String::from_str("\u{5f53}\u{524d} ");
                push_decimal(&mut b, *current as u128);
                push_char(&mut b, '/');
                push_decimal(&mut b, *max as u128);
                b
            },
            Notice::ExpeditionsDone => String::from_str("\u{6240}\u{6709}\u{59d4}\u{6258}\u{5df2}\u{8fd4}\u{56de}"),
            Notice::ReserveStaminaFull => String::from_str("\u{8bf7}\u{53ca}\u{65f6}\u{4f7f}\u{7528}"),
            Notice::NotSignedToday => String::from_str(
                "\u{661f}\u{7a79}\u{94c1}\u{9053}\u{4eca}\u{65e5}\u{8fd8}\u{672a}\u{7b7e}\u{5230}",
            ),
            Notice::RogueNotDone => String::from_str(
                "\u{672c}\u{5468}\u{6a21}\u{62df}\u{5b87}\u{5b99}\u{79ef}\u{5206}\u{8fd8}\u{672a}\u{83b7}\u{53d6}",
            ),
        }
    }
}

} // verus!
