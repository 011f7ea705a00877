use mihoyo_widget::client::{
    body_excerpt, build_web_headers, device_fp_result, device_fp_seed, failure_text,
    header_value, parse_failure_text, ApiResponse, DeviceFpData, MihoyoApiClient, Settings,
    USER_AGENT,
};
use mihoyo_widget::hsr_client::{Endpoint, HsrApiClient};

fn settings(cookie: &str) -> Settings {
    Settings {
        cookie: cookie.to_string(),
        stoken_cookie: "stuid=1;stoken=SECRET-REDACTED".to_string(),
        device_id: "dev-1".to_string(),
        device_fp: "38d7f0aac0ab7".to_string(),
        uid: "100000001".to_string(),
        region: "prod_gf_cn".to_string(),
    }
}

#[test]
fn cookie_choice() {
    let c = MihoyoApiClient::new(settings("ltoken=abc"));
    assert_eq!(c.cookie, "ltoken=abc");
    let c = MihoyoApiClient::new(settings(""));
    assert_eq!(c.cookie, "stuid=1;stoken=SECRET-REDACTED");
    let h = HsrApiClient::new(settings(""));
    assert_eq!(h.cookie, "stuid=1;stoken=SECRET-REDACTED");
}

fn pairs(h: &[(String, String)]) -> Vec<(&str, &str)> {
    h.iter().map(|(a, b)| (a.as_str(), b.as_str())).collect()
}

#[test]
fn web_headers_with_and_without_fingerprint() {
    let h = build_web_headers("dev-1", "fp-2");
    assert_eq!(
        pairs(&h),
        vec![
            ("user-agent", USER_AGENT),
            ("x-rpc-client_type", "5"),
            ("x-rpc-app_version", "2.102.1"),
            ("x-rpc-device_id", "dev-1"),
            ("x-rpc-device_fp", "fp-2"),
            ("referer", "https://webstatic.mihoyo.com"),
            ("accept", "application/json, text/plain, */*"),
        ]
    );
    let h = build_web_headers("dev\n1", "");
    assert_eq!(h.len(), 6);
    assert_eq!(pairs(&h)[3], ("x-rpc-device_id", ""));
}

#[test]
fn header_values() {
    assert_eq!(header_value("abc\tdef"), "abc\tdef");
    assert_eq!(header_value("caf\u{e9}"), "caf\u{e9}");
    assert_eq!(header_value("a\u{7f}"), "");
    assert_eq!(header_value("a\rb"), "");
}

#[test]
fn response_checking() {
    let ok: ApiResponse<i32> = ApiResponse { retcode: 0, data: Some(5) };
    assert_eq!(ok.into_data(), Ok(5));
    let bad: ApiResponse<i32> = ApiResponse { retcode: -100, data: Some(5) };
    assert_eq!(bad.into_data(), Err("API error retcode=-100".to_string()));
    let none: ApiResponse<i32> = ApiResponse { retcode: 0, data: None };
    assert_eq!(none.into_data(), Err("No data in response".to_string()));
    let fp = ApiResponse { retcode: 0, data: Some(DeviceFpData { device_fp: "abc".to_string() }) };
    assert_eq!(device_fp_result(fp), Ok("abc".to_string()));
    let fp_bad: ApiResponse<DeviceFpData> = ApiResponse { retcode: 1034, data: None };
    assert_eq!(device_fp_result(fp_bad), Err("Device FP API error retcode=1034".to_string()));
    let fp_none: ApiResponse<DeviceFpData> = ApiResponse { retcode: 0, data: None };
    assert_eq!(device_fp_result(fp_none), Err("No device_fp".to_string()));
}

#[test]
fn error_texts() {
    assert_eq!(failure_text("HTTP error", "timed out"), "HTTP error: timed out");
    let short = parse_failure_text("Parse error", "eof", "{\"a\":").unwrap();
    assert_eq!(short, "Parse error: eof body: {\"a\":");
    let long = "x".repeat(300);
    assert_eq!(body_excerpt(&long).unwrap().len(), 200);
    let wide = format!("{}\u{4f53}", "y".repeat(199));
    assert_eq!(body_excerpt(&wide), None);
    assert_eq!(parse_failure_text("Parse error", "e", &wide), None);
    let fits = format!("{}\u{4f53}", "y".repeat(197));
    assert_eq!(body_excerpt(&fits), Some(fits.as_str()));
}

#[test]
fn device_fp_seed_texts() {
    let s = device_fp_seed(255, 1719000000123);
    assert_eq!(s.seed_id, "00000000000000ff");
    assert_eq!(s.seed_time, "1719000000123");
}

#[test]
fn endpoint_queries_and_urls() {
    let c = HsrApiClient::new(settings("c"));
    assert_eq!(c.query(&Endpoint::Note), "role_id=100000001&server=prod_gf_cn");
    assert_eq!(
        c.url(&Endpoint::Note),
        "https://api-takumi-record.mihoyo.com/game_record/app/hkrpg/api/note?role_id=100000001&server=prod_gf_cn"
    );
    assert_eq!(c.query(&Endpoint::Ledger), "server=prod_gf_cn&role_id=100000001");
    assert_eq!(
        c.query(&Endpoint::LedgerDetail { month: "202406".to_string(), type_id: 1, page: -2 }),
        "uid=100000001&region=prod_gf_cn&month=202406&type=1&current_page=-2&page_size=20"
    );
    assert_eq!(
        c.url(&Endpoint::SignStatus),
        "https://api-takumi.mihoyo.com/event/luna/info?lang=zh-cn&act_id=e202304121516551&region=prod_gf_cn&uid=100000001"
    );
    assert_eq!(
        c.query(&Endpoint::ForgottenHall),
        "schedule_type=1&server=prod_gf_cn&role_id=100000001&need_all=true"
    );
    assert_eq!(
        c.url(&Endpoint::ApocalypticShadow),
        "https://api-takumi-record.mihoyo.com/game_record/app/hkrpg/api/challenge_boss?schedule_type=1&server=prod_gf_cn&role_id=100000001&isPrev=1&need_all=true"
    );
    assert_eq!(
        c.query(&Endpoint::ChallengePeak),
        "server=prod_gf_cn&role_id=100000001&schedule_type=1&need_all=true"
    );
    assert_eq!(
        c.url(&Endpoint::RogueLocust),
        "https://api-takumi-record.mihoyo.com/game_record/app/hkrpg/api/rogue_locust?server=prod_gf_cn&role_id=100000001"
    );
}

#[test]
fn prepared_request_is_signed() {
    let c = HsrApiClient::new(settings("ck"));
    let g = c.prepare(&Endpoint::PeriodicAct).expect("clock after 1970");
    assert_eq!(g.url, c.url(&Endpoint::PeriodicAct));
    assert_eq!(g.cookie, "ck");
    assert_eq!(g.headers.len(), 7);
    let parts: Vec<&str> = g.ds.split(',').collect();
    assert_eq!(parts.len(), 3);
    let t: u64 = parts[0].parse().unwrap();
    let r: i32 = parts[1].parse().unwrap();
    assert_eq!(
        g.ds,
        mihoyo_widget::ds::ds2_sign(mihoyo_widget::ds::SALT_X4, &c.query(&Endpoint::PeriodicAct), t, r)
    );
}

#[test]
fn both_clients_prepare_the_same_request() {
    let a = MihoyoApiClient::new(settings("ck"));
    let h = HsrApiClient::new(settings("ck"));
    let url = "https://example.invalid/x?a=1";
    let ga = a.prepare_get(url, "a=1").expect("clock after 1970");
    let gh = h.prepare_get(url, "a=1").expect("clock after 1970");
    assert_eq!(ga.url, gh.url);
    assert_eq!(ga.headers, gh.headers);
    assert_eq!(ga.cookie, gh.cookie);
    let digest_a = ga.ds.rsplit(',').next().unwrap();
    assert_eq!(digest_a.len(), 32);
}
