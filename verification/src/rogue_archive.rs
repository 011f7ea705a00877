//! Simulated Universe permanent archives (Nous, Magic, Locust): three
//! sources, each filling its own part of one record, merged into one.

use vstd::prelude::*;

use crate::text::{int_text, push_char, push_int};

verus! {

/// The merged archive record. Each source fills its own fields and leaves
/// the others empty (empty text, zero, no entries).
#[derive(Debug, Clone, PartialEq)]
pub struct RogueArchive {
    /// Nous: progress as "current/max", miracles, nerves.
    pub nous_progress: String,
    pub nous_miracle: i64,
    pub nous_nerve: i64,
    /// Magic: linear tree, compendium and secrets counts, as sent.
    pub magic_linear: String,
    pub magic_compendium: String,
    pub magic_secrets: String,
    /// Locust: narrow paths, miracles, events, destiny levels.
    pub locust_narrow: i64,
    pub locust_miracle: i64,
    pub locust_event: i64,
    pub locust_destinies: Vec<DestinyLevel>,
}

/// One destiny and its level.
#[derive(Debug, Clone, PartialEq)]
pub struct DestinyLevel {
    pub name: String,
    pub level: i64,
}

/// Nous archive response.
#[derive(Debug, Clone, PartialEq)]
pub struct NousRaw {
    pub basic: NousBasic,
}

/// Nous archive figures.
#[derive(Debug, Clone, PartialEq)]
pub struct NousBasic {
    pub cur_progress: i64,
    pub max_progress: i64,
    pub max_rolling: i64,
    pub active_nerve: i64,
}

/// Magic archive response.
#[derive(Debug, Clone, PartialEq)]
pub struct MagicRaw {
    pub basic_info: MagicBasic,
}

/// Magic archive figures, as texts.
#[derive(Debug, Clone, PartialEq)]
pub struct MagicBasic {
    pub linear_tree_num: String,
    pub magic_compendium: String,
    pub discover_secrets: String,
}

/// Locust archive response.
#[derive(Debug, Clone, PartialEq)]
pub struct LocustRaw {
    pub basic: LocustBasic,
}

/// Locust archive figures and destinies.
#[derive(Debug, Clone, PartialEq)]
pub struct LocustBasic {
    pub cnt: LocustCnt,
    pub destiny: Vec<DestinyRaw>,
}

/// Locust archive counts.
#[derive(Debug, Clone, PartialEq)]
pub struct LocustCnt {
    pub narrow: i64,
    pub miracle: i64,
    pub event: i64,
}

/// One destiny as sent.
#[derive(Debug, Clone, PartialEq)]
pub struct DestinyRaw {
    pub desc: String,
    pub level: i64,
}

/// The Nous progress text "current/max".
pub open spec fn progress_text(cur: i64, max: i64) -> Seq<char> {
    int_text(cur as int) + seq!['/'] + int_text(max as int)
}

/// The Nous fields of `a`, as plain values.
pub open spec fn nous_fields(a: RogueArchive) -> (Seq<char>, i64, i64) {
    (a.nous_progress@, a.nous_miracle, a.nous_nerve)
}

/// The Magic fields of `a`, as plain values.
pub open spec fn magic_fields(a: RogueArchive) -> (Seq<char>, Seq<char>, Seq<char>) {
    (a.magic_linear@, a.magic_compendium@, a.magic_secrets@)
}

/// The Locust fields of `a`, as plain values.
pub open spec fn locust_fields(a: RogueArchive) -> (i64, i64, i64, Seq<DestinyLevel>) {
    (a.locust_narrow, a.locust_miracle, a.locust_event, a.locust_destinies@)
}

/// Nous fields that no source filled.
pub open spec fn no_nous(a: RogueArchive) -> bool {
    nous_fields(a) == (Seq::<char>::empty(), 0i64, 0i64)
}

/// Magic fields that no source filled.
pub open spec fn no_magic(a: RogueArchive) -> bool {
    magic_fields(a) == (Seq::<char>::empty(), Seq::<char>::empty(), Seq::<char>::empty())
}

/// Locust fields that no source filled.
pub open spec fn no_locust(a: RogueArchive) -> bool {
    locust_fields(a) == (0i64, 0i64, 0i64, Seq::<DestinyLevel>::empty())
}

/// The destiny levels of a Locust response, in order.
pub open spec fn destiny_levels(d: Seq<DestinyRaw>) -> Seq<(Seq<char>, i64)> {
    d.map_values(|x: DestinyRaw| (x.desc@, x.level))
}

/// Destiny levels as plain values.
pub open spec fn level_values(d: Seq<DestinyLevel>) -> Seq<(Seq<char>, i64)> {
    d.map_values(|x: DestinyLevel| (x.name@, x.level))
}

/// `a` unless it is empty, then `b`.
pub open spec fn text_or(a: String, b: String) -> String {
    if a@.len() == 0 { b } else { a }
}

/// `a` unless it is zero, then `b`.
pub open spec fn number_or(a: i64, b: i64) -> i64 {
    if a == 0 { b } else { a }
}

/// The field-by-field merge of two archive records: each field of `a`
/// unless it is empty or zero, then that of `b`.
pub open spec fn merged(a: RogueArchive, b: RogueArchive) -> RogueArchive {
    RogueArchive {
        nous_progress: text_or(a.nous_progress, b.nous_progress),
        nous_miracle: number_or(a.nous_miracle, b.nous_miracle),
        nous_nerve: number_or(a.nous_nerve, b.nous_nerve),
        magic_linear: text_or(a.magic_linear, b.magic_linear),
        magic_compendium: text_or(a.magic_compendium, b.magic_compendium),
        magic_secrets: text_or(a.magic_secrets, b.magic_secrets),
        locust_narrow: number_or(a.locust_narrow, b.locust_narrow),
        locust_miracle: number_or(a.locust_miracle, b.locust_miracle),
        locust_event: number_or(a.locust_event, b.locust_event),
        locust_destinies: if a.locust_destinies@.len() == 0 {
            b.locust_destinies
        } else {
            a.locust_destinies
        },
    }
}

/// `a` unless it is empty, then `b`.
pub fn or_else(a: String, b: String) -> (r: String)
    ensures
        r == text_or(a, b),
{
    if a.as_str().is_empty() {
        b
    } else {
        a
    }
}

/// `a` unless it is zero, then `b`.
pub fn or_default(a: i64, b: i64) -> (r: i64)
    ensures
        r == number_or(a, b),
{
    if a == 0 {
        b
    } else {
        a
    }
}

impl RogueArchive {
    /// Merges two archive records: every field is taken from `self` unless
    /// it is empty (text, destiny list) or zero (number), then from `other`.
    pub fn merge(self, other: RogueArchive) -> (r: RogueArchive)
        ensures
            r == merged(self, other),
    {
        RogueArchive {
            nous_progress: or_else(self.nous_progress, other.nous_progress),
            nous_miracle: or_default(self.nous_miracle, other.nous_miracle),
            nous_nerve: or_default(self.nous_nerve, other.nous_nerve),
            magic_linear: or_else(self.magic_linear, other.magic_linear),
            magic_compendium: or_else(self.magic_compendium, other.magic_compendium),
            magic_secrets: or_else(self.magic_secrets, other.magic_secrets),
            locust_narrow: or_default(self.locust_narrow, other.locust_narrow),
            locust_miracle: or_default(self.locust_miracle, other.locust_miracle),
            locust_event: or_default(self.locust_event, other.locust_event),
            locust_destinies: if self.locust_destinies.len() == 0 {
                other.locust_destinies
            } else {
                self.locust_destinies
            },
        }
    }

    /// The archive record of a Nous response: progress "current/max",
    /// miracles and nerves; Magic and Locust fields empty.
    pub fn from_nous(n: NousRaw) -> (a: RogueArchive)
        ensures
            nous_fields(a) == (
                progress_text(n.basic.cur_progress, n.basic.max_progress),
                n.basic.max_rolling,
                n.basic.active_nerve,
            ),
            no_magic(a),
            no_locust(a),
    {
        let mut progress = String::new();
        push_int(&mut progress, n.basic.cur_progress);
        push_char(&mut progress, '/');
        push_int(&mut progress, n.basic.max_progress);
        let a = RogueArchive {
            nous_progress: progress,
            nous_miracle: n.basic.max_rolling,
            nous_nerve: n.basic.active_nerve,
            magic_linear: String::new(),
            magic_compendium: String::new(),
            magic_secrets: String::new(),
            locust_narrow: 0,
            locust_miracle: 0,
            locust_event: 0,
            locust_destinies: Vec::new(),
        };
        assert(a.nous_progress@ =~= progress_text(n.basic.cur_progress, n.basic.max_progress));
        assert(a.locust_destinies@ =~= Seq::<DestinyLevel>::empty());
        a
    }

    /// The archive record of a Magic response: its three texts as sent;
    /// Nous and Locust fields empty.
    pub fn from_magic(m: MagicRaw) -> (a: RogueArchive)
        ensures
            magic_fields(a) == (
                m.basic_info.linear_tree_num@,
                m.basic_info.magic_compendium@,
                m.basic_info.discover_secrets@,
            ),
            no_nous(a),
            no_locust(a),
    {
        let a = RogueArchive {
            nous_progress: String::new(),
            nous_miracle: 0,
            nous_nerve: 0,
            magic_linear: m.basic_info.linear_tree_num,
            magic_compendium: m.basic_info.magic_compendium,
            magic_secrets: m.basic_info.discover_secrets,
            locust_narrow: 0,
            locust_miracle: 0,
            locust_event: 0,
            locust_destinies: Vec::new(),
        };
        assert(a.locust_destinies@ =~= Seq::<DestinyLevel>::empty());
        a
    }

    /// The archive record of a Locust response: its counts and its destinies
    /// in order; Nous and Magic fields empty.
    pub fn from_locust(l: LocustRaw) -> (a: RogueArchive)
        ensures
            (a.locust_narrow, a.locust_miracle, a.locust_event) == (
                l.basic.cnt.narrow,
                l.basic.cnt.miracle,
                l.basic.cnt.event,
            ),
            level_values(a.locust_destinies@) == destiny_levels(l.basic.destiny@),
            no_nous(a),
            no_magic(a),
    {
        let destinies = l.basic.destiny;
        let mut levels: Vec<DestinyLevel> = Vec::new();
        let mut i: usize = 0;
        while i < destinies.len()
            invariant
                i <= destinies@.len(),
                level_values(levels@) == destiny_levels(destinies@.take(i as int)),
            decreases destinies@.len() - i,
        {
            let ghost before = levels@;
            let d = &destinies[i];
            let name = d.desc.clone();
            levels.push(DestinyLevel { name, level: d.level });
            assert(destinies@.take(i + 1) =~= destinies@.take(i as int).push(destinies@[i as int]));
            assert(level_values(levels@) =~= level_values(before).push((d.desc@, d.level)));
            assert(destiny_levels(destinies@.take(i + 1)) =~= destiny_levels(destinies@.take(i as int)).push((d.desc@, d.level)));
            i = i + 1;
            assert(level_values(levels@) =~= destiny_levels(destinies@.take(i as int)));
        }
        assert(destinies@.take(destinies@.len() as int) =~= destinies@);
        RogueArchive {
            nous_progress: String::new(),
            nous_miracle: 0,
            nous_nerve: 0,
            magic_linear: String::new(),
            magic_compendium: String::new(),
            magic_secrets: String::new(),
            locust_narrow: l.basic.cnt.narrow,
            locust_miracle: l.basic.cnt.miracle,
            locust_event: l.basic.cnt.event,
            locust_destinies: levels,
        }
    }
}

impl Default for RogueArchive {
    /// A record with nothing filled.
    fn default() -> (a: RogueArchive)
        ensures
            no_nous(a) && no_magic(a) && no_locust(a),
    {
        let a = RogueArchive {
            nous_progress: String::new(),
            nous_miracle: 0,
            nous_nerve: 0,
            magic_linear: String::new(),
            magic_compendium: String::new(),
            magic_secrets: String::new(),
            locust_narrow: 0,
            locust_miracle: 0,
            locust_event: 0,
            locust_destinies: Vec::new(),
        };
        assert(a.locust_destinies@ =~= Seq::<DestinyLevel>::empty());
        a
    }
}

/// Merging the three archive sources in any order of Nous, Magic, Locust
/// gives a record that holds each source's fields.
pub proof fn lemma_merge_sources(n: RogueArchive, m: RogueArchive, l: RogueArchive)
    requires
        no_magic(n) && no_locust(n),
        no_nous(m) && no_locust(m),
        no_nous(l) && no_magic(l),
    ensures
        nous_fields(merged(merged(n, m), l)) == nous_fields(n),
        magic_fields(merged(merged(n, m), l)) == magic_fields(m),
        locust_fields(merged(merged(n, m), l)) == locust_fields(l),
{
}

/// A record with nothing filled is a neutral element of merging, on either
/// side.
pub proof fn lemma_merge_empty(a: RogueArchive, e: RogueArchive)
    requires
        no_nous(e) && no_magic(e) && no_locust(e),
    ensures
        nous_fields(merged(a, e)) == nous_fields(a),
        magic_fields(merged(a, e)) == magic_fields(a),
        locust_fields(merged(a, e)) == locust_fields(a),
        nous_fields(merged(e, a)) == nous_fields(a),
        magic_fields(merged(e, a)) == magic_fields(a),
        locust_fields(merged(e, a)) == locust_fields(a),
{
    assert(e.locust_destinies@.len() == 0);
}

/// Merging keeps the first record's filled fields: every field of `a` that
/// is non-empty (text, destiny list) or non-zero (number) is kept as it is,
/// whatever `b` holds; only an empty or zero field is taken from `b`.
pub proof fn lemma_merge_prefers_first(a: RogueArchive, b: RogueArchive)
    ensures
        a.nous_progress@.len() > 0 ==> merged(a, b).nous_progress@ == a.nous_progress@,
        a.nous_progress@.len() == 0 ==> merged(a, b).nous_progress@ == b.nous_progress@,
        a.magic_linear@.len() > 0 ==> merged(a, b).magic_linear@ == a.magic_linear@,
        a.magic_linear@.len() == 0 ==> merged(a, b).magic_linear@ == b.magic_linear@,
        a.magic_compendium@.len() > 0 ==> merged(a, b).magic_compendium@ == a.magic_compendium@,
        a.magic_compendium@.len() == 0 ==> merged(a, b).magic_compendium@ == b.magic_compendium@,
        a.magic_secrets@.len() > 0 ==> merged(a, b).magic_secrets@ == a.magic_secrets@,
        a.magic_secrets@.len() == 0 ==> merged(a, b).magic_secrets@ == b.magic_secrets@,
        a.nous_miracle != 0 ==> merged(a, b).nous_miracle == a.nous_miracle,
        a.nous_miracle == 0 ==> merged(a, b).nous_miracle == b.nous_miracle,
        a.nous_nerve != 0 ==> merged(a, b).nous_nerve == a.nous_nerve,
        a.nous_nerve == 0 ==> merged(a, b).nous_nerve == b.nous_nerve,
        a.locust_narrow != 0 ==> merged(a, b).locust_narrow == a.locust_narrow,
        a.locust_narrow == 0 ==> merged(a, b).locust_narrow == b.locust_narrow,
        a.locust_miracle != 0 ==> merged(a, b).locust_miracle == a.locust_miracle,
        a.locust_miracle == 0 ==> merged(a, b).locust_miracle == b.locust_miracle,
        a.locust_event != 0 ==> merged(a, b).locust_event == a.locust_event,
        a.locust_event == 0 ==> merged(a, b).locust_event == b.locust_event,
        a.locust_destinies@.len() > 0 ==> merged(a, b).locust_destinies@ == a.locust_destinies@,
        a.locust_destinies@.len() == 0 ==> merged(a, b).locust_destinies@ == b.locust_destinies@,
{
}

/// Merging is associative.
pub proof fn lemma_merge_associative(a: RogueArchive, b: RogueArchive, c: RogueArchive)
    ensures
        merged(merged(a, b), c) == merged(a, merged(b, c)),
{
}

/// Merging a record with itself gives it back.
pub proof fn lemma_merge_idempotent(a: RogueArchive)
    ensures
        merged(a, a) == a,
{
}

} // verus!
