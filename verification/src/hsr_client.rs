//! The Star Rail game-record client: the query and URL of each endpoint and
//! the signed request for it.

use vstd::prelude::*;

use crate::client::{
    chosen_cookie, header_views, is_signed_get, lemma_signed_gets_agree, prepare_get,
    signed_get_at, GetRequest, MihoyoApiClient, Settings,
};
use crate::text::{int_text, push_char, push_int};

verus! {

/// The endpoints the widget reads.
#[derive(Debug, Clone)]
pub enum Endpoint {
    /// Real-time note (stamina, expeditions, weekly progress).
    Note,
    /// Player index (statistics, characters).
    PlayerIndex,
    /// Monthly ledger summary.
    Ledger,
    /// Ledger detail for one month, income type and page.
    LedgerDetail { month: String, type_id: i32, page: i32 },
    /// Banner and event calendar.
    Banners,
    /// Daily sign-in status.
    SignStatus,
    /// Forgotten Hall, current season.
    ForgottenHall,
    /// Pure Fiction, current season.
    PureFiction,
    /// Apocalyptic Shadow, current season.
    ApocalypticShadow,
    /// Periodic activities.
    PeriodicAct,
    /// Challenge Peak.
    ChallengePeak,
    /// Simulated Universe archives.
    RogueNous,
    RogueMagic,
    RogueLocust,
}

/// The URL of an endpoint, without its query.
pub open spec fn endpoint_base(ep: Endpoint) -> Seq<char> {
    match ep {
        Endpoint::Note => "https://api-takumi-record.mihoyo.com/game_record/app/hkrpg/api/note"@,
        Endpoint::PlayerIndex => "https://api-takumi-record.mihoyo.com/game_record/app/hkrpg/api/index"@,
        Endpoint::Ledger => "https://api-takumi-record.mihoyo.com/game_record/app/hkrpg/api/get_ledger_month_info"@,
        Endpoint::LedgerDetail { .. } => "https://api-takumi.mihoyo.com/event/srledger/month_detail"@,
        Endpoint::Banners => "https://api-takumi-record.mihoyo.com/game_record/app/hkrpg/api/get_act_calender"@,
        Endpoint::SignStatus => "https://api-takumi.mihoyo.com/event/luna/info"@,
        Endpoint::ForgottenHall => "https://api-takumi-record.mihoyo.com/game_record/app/hkrpg/api/challenge"@,
        Endpoint::PureFiction => "https://api-takumi-record.mihoyo.com/game_record/app/hkrpg/api/challenge_story"@,
        Endpoint::ApocalypticShadow => "https://api-takumi-record.mihoyo.com/game_record/app/hkrpg/api/challenge_boss"@,
        Endpoint::PeriodicAct => "https://api-takumi-record.mihoyo.com/game_record/app/hkrpg/api/periodic_act"@,
        Endpoint::ChallengePeak => "https://api-takumi-record.mihoyo.com/game_record/app/hkrpg/api/challenge_peak"@,
        Endpoint::RogueNous => "https://api-takumi-record.mihoyo.com/game_record/app/hkrpg/api/rogue_nous"@,
        Endpoint::RogueMagic => "https://api-takumi-record.mihoyo.com/game_record/app/hkrpg/api/rogue_magic"@,
        Endpoint::RogueLocust => "https://api-takumi-record.mihoyo.com/game_record/app/hkrpg/api/rogue_locust"@,
    }
}

/// The query of an endpoint for an account.
pub open spec fn endpoint_query(ep: Endpoint, uid: Seq<char>, region: Seq<char>) -> Seq<char> {
    match ep {
        Endpoint::Note | Endpoint::PlayerIndex => "role_id="@ + uid + "&server="@ + region,
        Endpoint::LedgerDetail { month, type_id, page } => "uid="@ + uid + "&region="@ + region
            + "&month="@ + month@ + "&type="@ + int_text(type_id as int) + "&current_page="@
            + int_text(page as int) + "&page_size=20"@,
        Endpoint::SignStatus => "lang=zh-cn&act_id=e202304121516551&region="@ + region + "&uid="@
            + uid,
        Endpoint::ForgottenHall => "schedule_type=1&server="@ + region + "&role_id="@ + uid
            + "&need_all=true"@,
        Endpoint::PureFiction | Endpoint::ApocalypticShadow => "schedule_type=1&server="@ + region
            + "&role_id="@ + uid + "&isPrev=1&need_all=true"@,
        Endpoint::ChallengePeak => "server="@ + region + "&role_id="@ + uid
            + "&schedule_type=1&need_all=true"@,
        _ => "server="@ + region + "&role_id="@ + uid,
    }
}

/// The full URL of an endpoint: its base, `?`, its query.
pub open spec fn endpoint_url(ep: Endpoint, query: Seq<char>) -> Seq<char> {
    endpoint_base(ep) + seq!['?'] + query
}

impl Endpoint {
    /// The URL of the endpoint, without its query.
    pub fn base_url(&self) -> (url: &'static str)
        ensures
            url@ == endpoint_base(*self),
    {
        match self {
            Endpoint::Note => "https://api-takumi-record.mihoyo.com/game_record/app/hkrpg/api/note",
            Endpoint::PlayerIndex => "https://api-takumi-record.mihoyo.com/game_record/app/hkrpg/api/index",
            Endpoint::Ledger => "https://api-takumi-record.mihoyo.com/game_record/app/hkrpg/api/get_ledger_month_info",
            Endpoint::LedgerDetail { .. } => "https://api-takumi.mihoyo.com/event/srledger/month_detail",
            Endpoint::Banners => "https://api-takumi-record.mihoyo.com/game_record/app/hkrpg/api/get_act_calender",
            Endpoint::SignStatus => "https://api-takumi.mihoyo.com/event/luna/info",
            Endpoint::ForgottenHall => "https://api-takumi-record.mihoyo.com/game_record/app/hkrpg/api/challenge",
            Endpoint::PureFiction => "https://api-takumi-record.mihoyo.com/game_record/app/hkrpg/api/challenge_story",
            Endpoint::ApocalypticShadow => "https://api-takumi-record.mihoyo.com/game_record/app/hkrpg/api/challenge_boss",
            Endpoint::PeriodicAct => "https://api-takumi-record.mihoyo.com/game_record/app/hkrpg/api/periodic_act",
            Endpoint::ChallengePeak => "https://api-takumi-record.mihoyo.com/game_record/app/hkrpg/api/challenge_peak",
            Endpoint::RogueNous => "https://api-takumi-record.mihoyo.com/game_record/app/hkrpg/api/rogue_nous",
            Endpoint::RogueMagic => "https://api-takumi-record.mihoyo.com/game_record/app/hkrpg/api/rogue_magic",
            Endpoint::RogueLocust => "https://api-takumi-record.mihoyo.com/game_record/app/hkrpg/api/rogue_locust",
        }
    }
}

/// The position of an endpoint kind in the list of endpoints.
pub open spec fn endpoint_index(ep: Endpoint) -> int {
    match ep {
        Endpoint::Note => 0,
        Endpoint::PlayerIndex => 1,
        Endpoint::Ledger => 2,
        Endpoint::LedgerDetail { .. } => 3,
        Endpoint::Banners => 4,
        Endpoint::SignStatus => 5,
        Endpoint::ForgottenHall => 6,
        Endpoint::PureFiction => 7,
        Endpoint::ApocalypticShadow => 8,
        Endpoint::PeriodicAct => 9,
        Endpoint::ChallengePeak => 10,
        Endpoint::RogueNous => 11,
        Endpoint::RogueMagic => 12,
        Endpoint::RogueLocust => 13,
    }
}

/// Each kind of endpoint has a URL of its own: endpoints of two different
/// kinds never share a base URL (so no endpoint fetches another's data;
/// Pure Fiction and Apocalyptic Shadow in particular differ).
pub proof fn lemma_endpoint_bases_distinct(a: Endpoint, b: Endpoint)
    requires
        endpoint_index(a) != endpoint_index(b),
    ensures
        endpoint_base(a) != endpoint_base(b),
{
    reveal_strlit("https://api-takumi-record.mihoyo.com/game_record/app/hkrpg/api/note");
    reveal_strlit("https://api-takumi-record.mihoyo.com/game_record/app/hkrpg/api/index");
    reveal_strlit("https://api-takumi-record.mihoyo.com/game_record/app/hkrpg/api/get_ledger_month_info");
    reveal_strlit("https://api-takumi.mihoyo.com/event/srledger/month_detail");
    reveal_strlit("https://api-takumi-record.mihoyo.com/game_record/app/hkrpg/api/get_act_calender");
    reveal_strlit("https://api-takumi.mihoyo.com/event/luna/info");
    reveal_strlit("https://api-takumi-record.mihoyo.com/game_record/app/hkrpg/api/challenge");
    reveal_strlit("https://api-takumi-record.mihoyo.com/game_record/app/hkrpg/api/challenge_story");
    reveal_strlit("https://api-takumi-record.mihoyo.com/game_record/app/hkrpg/api/challenge_boss");
    reveal_strlit("https://api-takumi-record.mihoyo.com/game_record/app/hkrpg/api/periodic_act");
    reveal_strlit("https://api-takumi-record.mihoyo.com/game_record/app/hkrpg/api/challenge_peak");
    reveal_strlit("https://api-takumi-record.mihoyo.com/game_record/app/hkrpg/api/rogue_nous");
    reveal_strlit("https://api-takumi-record.mihoyo.com/game_record/app/hkrpg/api/rogue_magic");
    reveal_strlit("https://api-takumi-record.mihoyo.com/game_record/app/hkrpg/api/rogue_locust");
    if endpoint_base(a).len() == endpoint_base(b).len() {
        assert(endpoint_base(a)[63] != endpoint_base(b)[63] || endpoint_base(a)[73]
            != endpoint_base(b)[73]);
    }
}

/// `base`, `?`, `query`.
fn join_url(base: &str, query: &str) -> (s: String)
    ensures
        s@ == base@ + seq!['?'] + query@,
{
    let mut s = String::from_str(base);
    push_char(&mut s, '?');
    s.append(query);
    s
}

/// The Star Rail game-record client.
#[derive(Debug, Clone)]
pub struct HsrApiClient {
    pub settings: Settings,
    pub cookie: String,
}

impl HsrApiClient {
    /// A client that sends the web cookie, or the SToken cookie when no web
    /// cookie is set.
    pub fn new(settings: Settings) -> (c: Self)
        ensures
            c.settings == settings,
            c.cookie@ == chosen_cookie(settings),
    {
        let base = MihoyoApiClient::new(settings);
        HsrApiClient { settings: base.settings, cookie: base.cookie }
    }

    /// The query of an endpoint for this account.
    pub fn query(&self, ep: &Endpoint) -> (q: String)
        ensures
            q@ == endpoint_query(*ep, self.settings.uid@, self.settings.region@),
    {
        let uid = self.settings.uid.as_str();
        let region = self.settings.region.as_str();
        let mut q = String::new();
        match ep {
            Endpoint::Note | Endpoint::PlayerIndex => {
                q.append("role_id=");
                q.append(uid);
                q.append("&server=");
                q.append(region);
            },
            Endpoint::LedgerDetail { month, type_id, page } => {
                q.append("uid=");
                q.append(uid);
                q.append("&region=");
                q.append(region);
                q.append("&month=");
                q.append(month.as_str());
                q.append("&type=");
                push_int(&mut q, *type_id as i64);
                q.append("&current_page=");
                push_int(&mut q, *page as i64);
                q.append("&page_size=20");
            },
            Endpoint::SignStatus => {
                q.append("lang=zh-cn&act_id=e202304121516551&region=");
                q.append(region);
                q.append("&uid=");
                q.append(uid);
            },
            Endpoint::ForgottenHall => {
                q.append("schedule_type=1&server=");
                q.append(region);
                q.append("&role_id=");
                q.append(uid);
                q.append("&need_all=true");
            },
            Endpoint::PureFiction | Endpoint::ApocalypticShadow => {
                q.append("schedule_type=1&server=");
                q.append(region);
                q.append("&role_id=");
                q.append(uid);
                q.append("&isPrev=1&need_all=true");
            },
            Endpoint::ChallengePeak => {
                q.append("server=");
                q.append(region);
                q.append("&role_id=");
                q.append(uid);
                q.append("&schedule_type=1&need_all=true");
            },
            _ => {
                q.append("server=");
                q.append(region);
                q.append("&role_id=");
                q.append(uid);
            },
        }
        assert(q@ =~= endpoint_query(*ep, self.settings.uid@, self.settings.region@));
        q
    }

    /// The full URL of an endpoint for this account.
    pub fn url(&self, ep: &Endpoint) -> (u: String)
        ensures
            u@ == endpoint_url(*ep, endpoint_query(*ep, self.settings.uid@, self.settings.region@)),
    {
        let q = self.query(ep);
        join_url(ep.base_url(), q.as_str())
    }

    /// A signed GET request of `url` with `query`; `None` when the clock
    /// reads before the Unix epoch.
    pub fn prepare_get(&self, url: &str, query: &str) -> (g: Option<GetRequest>)
        ensures
            g matches Some(g) ==> is_signed_get(g, url@, query@, self.settings, self.cookie@),
    {
        prepare_get(&self.settings, &self.cookie, url, query)
    }

    /// A signed GET request of an endpoint for this account; `None` when
    /// the clock reads before the Unix epoch.
    pub fn prepare(&self, ep: &Endpoint) -> (g: Option<GetRequest>)
        ensures
            g matches Some(g) ==> is_signed_get(
                g,
                endpoint_url(*ep, endpoint_query(*ep, self.settings.uid@, self.settings.region@)),
                endpoint_query(*ep, self.settings.uid@, self.settings.region@),
                self.settings,
                self.cookie@,
            ),
    {
        let q = self.query(ep);
        let u = join_url(ep.base_url(), q.as_str());
        self.prepare_get(u.as_str(), q.as_str())
    }
}

/// The shared base client and the Star Rail client send the same GET: with
/// the same settings and cookie, a request of the same URL and query signed
/// at the same time with the same random number has the same URL, headers,
/// cookie and signature (and both judge the reply by
/// `game_record_result`).
pub proof fn lemma_clients_send_alike(
    a: MihoyoApiClient,
    h: HsrApiClient,
    url: Seq<char>,
    query: Seq<char>,
    t: u64,
    r: i32,
    ga: GetRequest,
    gh: GetRequest,
)
    requires
        a.settings == h.settings,
        a.cookie == h.cookie,
        signed_get_at(ga, url, query, a.settings, a.cookie@, t, r),
        signed_get_at(gh, url, query, h.settings, h.cookie@, t, r),
    ensures
        ga.url@ == gh.url@,
        header_views(ga.headers@) == header_views(gh.headers@),
        ga.cookie@ == gh.cookie@,
        ga.ds@ == gh.ds@,
{
    lemma_signed_gets_agree(ga, gh, url, query, a.settings, a.cookie@, t, r);
}

} // verus!
