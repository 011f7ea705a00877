//! The game-record API clients: request preparation (query, URL, headers,
//! cookie, signature) and response checking. Sending the requests is left
//! to the caller.

use vstd::prelude::*;
use vstd::string::StringSliceAdditionalSpecFns;
use vstd::utf8::{encode_utf8, is_char_boundary};

use crate::ds::{ds2_get, ds2_signed, ds2_signed_at, random_u64, time_since_epoch, SALT_X4};
use crate::text::{dec_digits, hex_fixed, int_text, push_decimal, push_hex_fixed, push_int};

verus! {

/// User agent of the mobile community app that the API expects.
pub const USER_AGENT: &'static str =
    "Mozilla/5.0 (Linux; Android 15; 2206123SC) AppleWebKit/537.36 miHoYoBBS/2.102.1";

/// Endpoint that registers a device fingerprint.
pub const DEVICE_FP_URL: &'static str = "https://public-data-api.mihoyo.com/device-fp/api/getFp";

/// Labels of the failures of a game-record request.
pub const HTTP_ERROR: &'static str = "HTTP error";
pub const READ_ERROR: &'static str = "Read error";
pub const PARSE_ERROR: &'static str = "Parse error";

/// Labels of the failures of a device fingerprint registration.
pub const FP_HTTP_ERROR: &'static str = "Device FP HTTP error";
pub const FP_READ_ERROR: &'static str = "Device FP read error";
pub const FP_PARSE_ERROR: &'static str = "Device FP parse error";

/// The account settings that the clients read.
#[derive(Debug, Clone)]
pub struct Settings {
    /// Web login cookie; may be empty.
    pub cookie: String,
    /// Cookie line built from the account's SToken, used when `cookie` is
    /// empty.
    pub stoken_cookie: String,
    pub device_id: String,
    pub device_fp: String,
    pub uid: String,
    pub region: String,
}

/// The cookie a client sends: the web cookie, or the SToken cookie when no
/// web cookie is set.
pub open spec fn chosen_cookie(settings: Settings) -> Seq<char> {
    if settings.cookie@.len() != 0 {
        settings.cookie@
    } else {
        settings.stoken_cookie@
    }
}

/// Whether http's `HeaderValue` accepts these bytes: each is a tab or a
/// byte from 32 upward other than 127.
pub open spec fn header_value_ok(bytes: Seq<u8>) -> bool {
    forall|i: int| 0 <= i < bytes.len() ==> (#[trigger] bytes[i] >= 32 && bytes[i] != 127) || bytes[i] == 9
}

/// http's `HeaderValue::from_str` (through reqwest): it succeeds exactly when
/// every byte of the text is a tab or a byte from 32 upward other than 127.
#[verifier::external_body]
fn header_value_accepted(s: &str) -> (ok: bool)
    ensures
        ok == header_value_ok(s.spec_bytes()),
{
    reqwest::header::HeaderValue::from_str(s).is_ok()
}

/// A header value: the text itself when it is a valid header value,
/// otherwise the empty text.
pub open spec fn header_value_text(s: Seq<char>) -> Seq<char> {
    if header_value_ok(encode_utf8(s)) {
        s
    } else {
        Seq::empty()
    }
}

/// A header value: the text itself when it is a valid header value,
/// otherwise the empty text.
pub fn header_value(s: &str) -> (v: String)
    ensures
        v@ == header_value_text(s@),
{
    if header_value_accepted(s) {
        String::from_str(s)
    } else {
        String::new()
    }
}

/// Header names and values as plain text.
pub open spec fn header_views(h: Seq<(String, String)>) -> Seq<(Seq<char>, Seq<char>)> {
    h.map_values(|p: (String, String)| (p.0@, p.1@))
}

/// The common headers of the game-record API (web client type), in order;
/// the fingerprint header only when a fingerprint is set.
pub open spec fn web_headers(device_id: Seq<char>, device_fp: Seq<char>) -> Seq<(Seq<char>, Seq<char>)> {
    seq![
        ("user-agent"@, USER_AGENT@),
        ("x-rpc-client_type"@, "5"@),
        ("x-rpc-app_version"@, "2.102.1"@),
        ("x-rpc-device_id"@, header_value_text(device_id)),
    ] + (if device_fp.len() > 0 {
        seq![("x-rpc-device_fp"@, header_value_text(device_fp))]
    } else {
        Seq::empty()
    }) + seq![
        ("referer"@, "https://webstatic.mihoyo.com"@),
        ("accept"@, "application/json, text/plain, */*"@),
    ]
}

/// A header pair from two literals.
fn header(name: &str, value: &str) -> (h: (String, String))
    ensures
        h.0@ == name@,
        h.1@ == value@,
{
    (String::from_str(name), String::from_str(value))
}

/// Common headers for the game-record API (client type 5, web).
pub fn build_web_headers(device_id: &str, device_fp: &str) -> (h: Vec<(String, String)>)
    ensures
        header_views(h@) == web_headers(device_id@, device_fp@),
{
    let mut h: Vec<(String, String)> = Vec::new();
    h.push(header("user-agent", USER_AGENT));
    h.push(header("x-rpc-client_type", "5"));
    h.push(header("x-rpc-app_version", "2.102.1"));
    h.push((String::from_str("x-rpc-device_id"), header_value(device_id)));
    if !device_fp.is_empty() {
        h.push((String::from_str("x-rpc-device_fp"), header_value(device_fp)));
    }
    h.push(header("referer", "https://webstatic.mihoyo.com"));
    h.push(header("accept", "application/json, text/plain, */*"));
    assert(header_views(h@) =~= web_headers(device_id@, device_fp@));
    h
}

/// A prepared GET request: everything the sender needs.
#[derive(Debug, Clone)]
pub struct GetRequest {
    pub url: String,
    pub headers: Vec<(String, String)>,
    pub cookie: String,
    pub ds: String,
}

/// `g` is the GET request of `url` with `query`, the headers of the device
/// and the cookie given, signed for time `t` and random number `r`.
pub open spec fn signed_get_at(
    g: GetRequest,
    url: Seq<char>,
    query: Seq<char>,
    settings: Settings,
    cookie: Seq<char>,
    t: u64,
    r: i32,
) -> bool {
    &&& g.url@ == url
    &&& header_views(g.headers@) == web_headers(settings.device_id@, settings.device_fp@)
    &&& g.cookie@ == cookie
    &&& ds2_signed_at(SALT_X4@, query, g.ds@, t, r)
}

/// `g` is a signed GET request of `url` with `query`, the headers of the
/// device and the cookie given, for some time and random number.
pub open spec fn is_signed_get(
    g: GetRequest,
    url: Seq<char>,
    query: Seq<char>,
    settings: Settings,
    cookie: Seq<char>,
) -> bool {
    exists|t: u64, r: i32| #[trigger] signed_get_at(g, url, query, settings, cookie, t, r)
}

/// Two GET requests of the same URL and query, for the same settings,
/// cookie, time and random number, are the same request: same URL, headers,
/// cookie and signature.
pub proof fn lemma_signed_gets_agree(
    g1: GetRequest,
    g2: GetRequest,
    url: Seq<char>,
    query: Seq<char>,
    settings: Settings,
    cookie: Seq<char>,
    t: u64,
    r: i32,
)
    requires
        signed_get_at(g1, url, query, settings, cookie, t, r),
        signed_get_at(g2, url, query, settings, cookie, t, r),
    ensures
        g1.url@ == g2.url@,
        header_views(g1.headers@) == header_views(g2.headers@),
        g1.cookie@ == g2.cookie@,
        g1.ds@ == g2.ds@,
{
}

/// Prepares a signed GET request; `None` when the clock reads before the
/// Unix epoch.
pub(crate) fn prepare_get(settings: &Settings, cookie: &String, url: &str, query: &str) -> (g: Option<GetRequest>)
    ensures
        g matches Some(g) ==> is_signed_get(g, url@, query@, *settings, cookie@),
{
    match ds2_get(SALT_X4, query) {
        Some(ds) => {
            let headers = build_web_headers(settings.device_id.as_str(), settings.device_fp.as_str());
            let g = GetRequest { url: String::from_str(url), headers, cookie: cookie.clone(), ds };
            proof {
                assert(ds2_signed(SALT_X4@, query@, g.ds@));
                let (t, r) = choose|t: u64, r: i32| #[trigger]
                    ds2_signed_at(SALT_X4@, query@, g.ds@, t, r);
                assert(signed_get_at(g, url@, query@, *settings, cookie@, t, r));
            }
            Some(g)
        },
        None => None,
    }
}

/// The standard response wrapper `{ retcode, data }`.
#[derive(Debug, Clone, PartialEq)]
pub struct ApiResponse<T> {
    pub retcode: i64,
    pub data: Option<T>,
}

/// Device fingerprint data of the registration response.
#[derive(Debug, Clone, PartialEq)]
pub struct DeviceFpData {
    pub device_fp: String,
}

/// The error text for a non-zero return code.
pub open spec fn api_error_text(retcode: i64) -> Seq<char> {
    "API error retcode="@ + int_text(retcode as int)
}

/// The error text for a non-zero return code of the fingerprint endpoint.
pub open spec fn fp_error_text(retcode: i64) -> Seq<char> {
    "Device FP API error retcode="@ + int_text(retcode as int)
}

/// `prefix` followed by the decimal rendering of `n`.
fn text_with_int(prefix: &str, n: i64) -> (s: String)
    ensures
        s@ == prefix@ + int_text(n as int),
{
    let mut s = String::from_str(prefix);
    push_int(&mut s, n);
    s
}

impl<T> ApiResponse<T> {
    /// The data of a successful response: an error for a non-zero return
    /// code, then an error when no data came.
    pub fn into_data(self) -> (r: Result<T, String>)
        ensures
            is_api_result(self, r),
    {
        if self.retcode != 0 {
            return Err(text_with_int("API error retcode=", self.retcode));
        }
        match self.data {
            Some(d) => Ok(d),
            None => Err(String::from_str("No data in response")),
        }
    }
}

/// The fingerprint of a registration response: an error for a non-zero
/// return code, then an error when no data came.
pub fn device_fp_result(resp: ApiResponse<DeviceFpData>) -> (r: Result<String, String>)
    ensures
        is_fp_result(resp, r),
{
    if resp.retcode != 0 {
        return Err(text_with_int("Device FP API error retcode=", resp.retcode));
    }
    match resp.data {
        Some(d) => Ok(d.device_fp),
        None => Err(String::from_str("No device_fp")),
    }
}

/// Length in bytes of the part of a response body quoted in errors.
pub open spec fn excerpt_len(n: nat) -> nat {
    if n < 200 { n } else { 200 }
}

/// The first 200 bytes of a response body (all of it when shorter);
/// `None` when that cut falls inside a character.
pub fn body_excerpt(body: &str) -> (e: Option<&str>)
    ensures
        e is Some <==> is_char_boundary(body.spec_bytes(), excerpt_len(body.len() as nat) as int),
        e matches Some(x) ==> x.spec_bytes() == body.spec_bytes().take(
            excerpt_len(body.len() as nat) as int,
        ),
{
    let n: usize = if body.len() < 200 { body.len() } else { 200 };
    if body.is_char_boundary(n) {
        let (head, _tail) = body.split_at(n);
        Some(head)
    } else {
        None
    }
}

/// `"{what}: {detail}"`.
pub fn failure_text(what: &str, detail: &str) -> (s: String)
    ensures
        s@ == what@ + ": "@ + detail@,
{
    let mut s = String::from_str(what);
    s.append(": ");
    s.append(detail);
    s
}

/// `"{what}: {detail} body: {excerpt}"`, quoting the first 200 bytes of the
/// body; `None` when that cut falls inside a character.
pub fn parse_failure_text(what: &str, detail: &str, body: &str) -> (s: Option<String>)
    ensures
        s is Some <==> is_char_boundary(encode_utf8(body@), excerpt_len(byte_len(body@)) as int),
        s matches Some(s) ==> quotes_body(s@, what@ + ": "@ + detail@ + " body: "@, body@),
{
    match body_excerpt(body) {
        Some(x) => {
            let mut s = failure_text(what, detail);
            s.append(" body: ");
            s.append(x);
            Some(s)
        },
        None => None,
    }
}

/// How a GET request ended, as seen by the sender.
#[derive(Debug, Clone)]
pub enum GetOutcome<T> {
    /// Sending failed, with the transport's description.
    SendFailed(String),
    /// Reading the body failed, with the transport's description.
    ReadFailed(String),
    /// The body is no valid response, with the parser's description.
    ParseFailed { detail: String, body: String },
    /// The body was parsed.
    Received(ApiResponse<T>),
}

/// The length in bytes that std reports for a text.
pub open spec fn byte_len(text: Seq<char>) -> nat {
    (encode_utf8(text).len() as usize) as nat
}

/// `e` is `prefix` followed by a text whose encoding is the first
/// `excerpt_len` bytes of `body`.
pub open spec fn quotes_body(e: Seq<char>, prefix: Seq<char>, body: Seq<char>) -> bool {
    exists|x: Seq<char>|
        e == prefix + x && #[trigger] encode_utf8(x) == encode_utf8(body).take(
            excerpt_len(byte_len(body)) as int,
        )
}

/// Whether the first `excerpt_len` bytes of the body of a parse failure end
/// between characters (where they do not, quoting them panics).
pub open spec fn quotable<T>(o: GetOutcome<T>) -> bool {
    match o {
        GetOutcome::ParseFailed { body, .. } => is_char_boundary(
            encode_utf8(body@),
            excerpt_len(byte_len(body@)) as int,
        ),
        _ => true,
    }
}

/// `e` is the error text of the failed exchange `o`, under the given labels:
/// `"{label}: {detail}"`, a parse failure also quoting the body.
pub open spec fn is_failure_text<T>(
    o: GetOutcome<T>,
    e: Seq<char>,
    http: Seq<char>,
    read: Seq<char>,
    parse: Seq<char>,
) -> bool {
    match o {
        GetOutcome::SendFailed(d) => e == http + ": "@ + d@,
        GetOutcome::ReadFailed(d) => e == read + ": "@ + d@,
        GetOutcome::ParseFailed { detail, body } => quotes_body(
            e,
            parse + ": "@ + detail@ + " body: "@,
            body@,
        ),
        GetOutcome::Received(_) => false,
    }
}

/// `r` is what a game-record response yields: its data, or the error text
/// of a non-zero return code or of missing data.
pub open spec fn is_api_result<T>(resp: ApiResponse<T>, r: Result<T, String>) -> bool {
    if resp.retcode != 0 {
        r matches Err(e) && e@ == api_error_text(resp.retcode)
    } else {
        match resp.data {
            Some(d) => r == Ok::<T, String>(d),
            None => r matches Err(e) && e@ == "No data in response"@,
        }
    }
}

/// `r` is what a fingerprint registration response yields: the
/// fingerprint, or the error text of a non-zero return code or of missing
/// data.
pub open spec fn is_fp_result(resp: ApiResponse<DeviceFpData>, r: Result<String, String>) -> bool {
    if resp.retcode != 0 {
        r matches Err(e) && e@ == fp_error_text(resp.retcode)
    } else {
        match resp.data {
            Some(d) => r == Ok::<String, String>(d.device_fp),
            None => r matches Err(e) && e@ == "No device_fp"@,
        }
    }
}

/// A game-record exchange succeeds exactly when a response came with return
/// code 0 and data, and then yields that data; every other outcome is an
/// error (or, for an unquotable parse failure, nothing).
pub proof fn lemma_game_record_success<T>(o: GetOutcome<T>, r: Option<Result<T, String>>)
    requires
        is_game_record_result(o, r),
    ensures
        (r matches Some(Ok(_))) <==> (o matches GetOutcome::Received(resp) && resp.retcode == 0
            && resp.data is Some),
        r matches Some(Ok(d)) ==> (o matches GetOutcome::Received(resp) && resp.data == Some(d)),
{
}

/// A fingerprint registration response yields a fingerprint exactly when
/// its return code is 0 and it has data, and then the fingerprint sent.
pub proof fn lemma_device_fp_success(resp: ApiResponse<DeviceFpData>, r: Result<String, String>)
    requires
        is_fp_result(resp, r),
    ensures
        (r is Ok) <==> (resp.retcode == 0 && resp.data is Some),
        r matches Ok(fp) ==> (resp.data matches Some(d) && fp == d.device_fp),
{
}

/// The error of a failed exchange; `None` for a parse failure whose body
/// cannot be quoted.
fn exchange_error<T>(o: GetOutcome<T>, http: &str, read: &str, parse: &str) -> (r: Option<String>)
    requires
        !(o is Received),
    ensures
        r is Some <==> quotable(o),
        r matches Some(e) ==> is_failure_text(o, e@, http@, read@, parse@),
{
    match o {
        GetOutcome::SendFailed(d) => Some(failure_text(http, d.as_str())),
        GetOutcome::ReadFailed(d) => Some(failure_text(read, d.as_str())),
        GetOutcome::ParseFailed { detail, body } => parse_failure_text(
            parse,
            detail.as_str(),
            body.as_str(),
        ),
        GetOutcome::Received(_) => None,
    }
}

/// `r` is what a game-record exchange yields: `None` exactly for a parse
/// failure whose body cannot be quoted; otherwise the response's data or
/// error, or the error text of the failed step.
pub open spec fn is_game_record_result<T>(o: GetOutcome<T>, r: Option<Result<T, String>>) -> bool {
    &&& r is Some <==> quotable(o)
    &&& r matches Some(res) ==> match o {
        GetOutcome::Received(resp) => is_api_result(resp, res),
        _ => res matches Err(e) && is_failure_text(o, e@, HTTP_ERROR@, READ_ERROR@, PARSE_ERROR@),
    }
}

/// A result with its error text as plain text.
pub open spec fn result_view<T>(r: Option<Result<T, String>>) -> Option<Result<T, Seq<char>>> {
    match r {
        Some(Ok(d)) => Some(Ok(d)),
        Some(Err(e)) => Some(Err(e@)),
        None => None,
    }
}

/// Texts with the same UTF-8 encoding are the same text.
proof fn lemma_encoding_injective(a: Seq<char>, b: Seq<char>)
    requires
        encode_utf8(a) == encode_utf8(b),
    ensures
        a == b,
{
    vstd::utf8::encode_utf8_decode_utf8(a);
    vstd::utf8::encode_utf8_decode_utf8(b);
}

/// The result of a game-record exchange is determined by the exchange:
/// whichever client sent the request, the same outcome gives the same data
/// or the same error text.
pub proof fn lemma_game_record_result_determined<T>(
    o: GetOutcome<T>,
    r1: Option<Result<T, String>>,
    r2: Option<Result<T, String>>,
)
    requires
        is_game_record_result(o, r1),
        is_game_record_result(o, r2),
    ensures
        result_view(r1) == result_view(r2),
{
    match o {
        GetOutcome::ParseFailed { detail, body } => {
            if r1 is Some {
                let e1 = r1->0->Err_0@;
                let e2 = r2->0->Err_0@;
                let prefix = PARSE_ERROR@ + ": "@ + detail@ + " body: "@;
                let bytes = encode_utf8(body@).take(excerpt_len(byte_len(body@)) as int);
                let x1 = choose|x: Seq<char>| e1 == prefix + x && #[trigger] encode_utf8(x) == bytes;
                let x2 = choose|x: Seq<char>| e2 == prefix + x && #[trigger] encode_utf8(x) == bytes;
                lemma_encoding_injective(x1, x2);
            }
        },
        _ => {},
    }
}

/// The result of a game-record GET: the data of a successful response, or
/// the error text of the failed step; `None` when a parse failure's body
/// cannot be quoted.
pub fn game_record_result<T>(o: GetOutcome<T>) -> (r: Option<Result<T, String>>)
    ensures
        is_game_record_result(o, r),
{
    match o {
        GetOutcome::Received(resp) => Some(resp.into_data()),
        _ => match exchange_error(o, HTTP_ERROR, READ_ERROR, PARSE_ERROR) {
            Some(e) => Some(Err(e)),
            None => None,
        },
    }
}

/// The result of a fingerprint registration: the fingerprint of a
/// successful response, or the error text of the failed step; `None` when a
/// parse failure's body cannot be quoted.
pub fn device_fp_exchange_result(o: GetOutcome<DeviceFpData>) -> (r: Option<Result<String, String>>)
    ensures
        r is Some <==> quotable(o),
        r matches Some(res) ==> match o {
            GetOutcome::Received(resp) => is_fp_result(resp, res),
            _ => res matches Err(e) && is_failure_text(
                o,
                e@,
                FP_HTTP_ERROR@,
                FP_READ_ERROR@,
                FP_PARSE_ERROR@,
            ),
        },
{
    match o {
        GetOutcome::Received(resp) => Some(device_fp_result(resp)),
        _ => match exchange_error(o, FP_HTTP_ERROR, FP_READ_ERROR, FP_PARSE_ERROR) {
            Some(e) => Some(Err(e)),
            None => None,
        },
    }
}

/// The seed of a device fingerprint registration: a random id as 16
/// lowercase hexadecimal digits and the time in milliseconds.
#[derive(Debug, Clone)]
pub struct DeviceFpSeed {
    pub seed_id: String,
    pub seed_time: String,
}

/// The seed for random number `random` and time `millis`.
pub fn device_fp_seed(random: u64, millis: u128) -> (s: DeviceFpSeed)
    ensures
        s.seed_id@ == hex_fixed(random as nat, 16),
        s.seed_time@ == dec_digits(millis as nat),
{
    let mut seed_id = String::new();
    push_hex_fixed(&mut seed_id, random, 16);
    let mut seed_time = String::new();
    push_decimal(&mut seed_time, millis);
    DeviceFpSeed { seed_id, seed_time }
}

/// The seed for a clock reading and a random number: the seed time is the
/// reading's milliseconds since the Unix epoch (not its seconds). `None`
/// exactly when there is no reading.
pub fn device_fp_seed_at_clock(clock: Option<(u64, u128)>, random: u64) -> (s: Option<DeviceFpSeed>)
    requires
        clock matches Some((secs, millis)) ==> secs == millis / 1000,
    ensures
        clock is None <==> s is None,
        clock matches Some((_, millis)) ==> (s matches Some(s) && s.seed_id@ == hex_fixed(
            random as nat,
            16,
        ) && s.seed_time@ == dec_digits(millis as nat)),
{
    match clock {
        Some((_, millis)) => Some(device_fp_seed(random, millis)),
        None => None,
    }
}

/// A fresh seed from the clock and a random number; `None` when the clock
/// reads before the Unix epoch. Which time and which random number were
/// used is left open here; `device_fp_seed_at_clock` states the seed for a
/// given reading.
pub fn new_device_fp_seed() -> (s: Option<DeviceFpSeed>)
    ensures
        s matches Some(s) ==> exists|random: u64, millis: u128|
            s.seed_id@ == #[trigger] hex_fixed(random as nat, 16) && s.seed_time@ == #[trigger] dec_digits(millis as nat),
{
    let clock = time_since_epoch();
    let random = random_u64();
    device_fp_seed_at_clock(clock, random)
}

/// Shared base client for game-specific API clients.
#[derive(Debug, Clone)]
pub struct MihoyoApiClient {
    pub settings: Settings,
    pub cookie: String,
}

impl MihoyoApiClient {
    /// A client that sends the web cookie, or the SToken cookie when no web
    /// cookie is set.
    pub fn new(settings: Settings) -> (c: Self)
        ensures
            c.settings == settings,
            c.cookie@ == chosen_cookie(settings),
    {
        let cookie = if !settings.cookie.as_str().is_empty() {
            settings.cookie.clone()
        } else {
            settings.stoken_cookie.clone()
        };
        MihoyoApiClient { settings, cookie }
    }

    /// Headers from the current device information.
    pub fn headers(&self) -> (h: Vec<(String, String)>)
        ensures
            header_views(h@) == web_headers(self.settings.device_id@, self.settings.device_fp@),
    {
        build_web_headers(self.settings.device_id.as_str(), self.settings.device_fp.as_str())
    }

    /// A signed GET request of `url` with `query`; `None` when the clock
    /// reads before the Unix epoch.
    pub fn prepare_get(&self, url: &str, query: &str) -> (g: Option<GetRequest>)
        ensures
            g matches Some(g) ==> is_signed_get(g, url@, query@, self.settings, self.cookie@),
    {
        prepare_get(&self.settings, &self.cookie, url, query)
    }
}

} // verus!
