use mihoyo_widget::client::{
    device_fp_exchange_result, game_record_result, new_device_fp_seed, ApiResponse,
    DeviceFpData, GetOutcome,
};

#[test]
fn exchange_failures_are_labelled() {
    let sent: GetOutcome<u32> = GetOutcome::SendFailed("connection refused".to_string());
    assert_eq!(game_record_result(sent), Some(Err("HTTP error: connection refused".to_string())));
    let read: GetOutcome<u32> = GetOutcome::ReadFailed("reset".to_string());
    assert_eq!(game_record_result(read), Some(Err("Read error: reset".to_string())));
    let parse: GetOutcome<u32> = GetOutcome::ParseFailed {
        detail: "expected value at line 1 column 1".to_string(),
        body: "<html>".to_string(),
    };
    assert_eq!(
        game_record_result(parse),
        Some(Err("Parse error: expected value at line 1 column 1 body: <html>".to_string()))
    );
}

#[test]
fn exchange_parse_failure_quotes_200_bytes() {
    let body = "a".repeat(250);
    let parse: GetOutcome<u32> = GetOutcome::ParseFailed { detail: "d".to_string(), body };
    let e = game_record_result(parse).unwrap().unwrap_err();
    assert_eq!(e, format!("Parse error: d body: {}", "a".repeat(200)));
    let cut = format!("{}\u{4f53}{}", "a".repeat(199), "b".repeat(10));
    let parse: GetOutcome<u32> = GetOutcome::ParseFailed { detail: "d".to_string(), body: cut };
    assert_eq!(game_record_result(parse), None);
}

#[test]
fn exchange_received() {
    let ok: GetOutcome<u32> = GetOutcome::Received(ApiResponse { retcode: 0, data: Some(9) });
    assert_eq!(game_record_result(ok), Some(Ok(9)));
    let bad: GetOutcome<u32> = GetOutcome::Received(ApiResponse { retcode: 10001, data: None });
    assert_eq!(game_record_result(bad), Some(Err("API error retcode=10001".to_string())));
}

#[test]
fn device_fp_exchange() {
    let sent: GetOutcome<DeviceFpData> = GetOutcome::SendFailed("dns".to_string());
    assert_eq!(device_fp_exchange_result(sent), Some(Err("Device FP HTTP error: dns".to_string())));
    let read: GetOutcome<DeviceFpData> = GetOutcome::ReadFailed("eof".to_string());
    assert_eq!(device_fp_exchange_result(read), Some(Err("Device FP read error: eof".to_string())));
    let parse: GetOutcome<DeviceFpData> =
        GetOutcome::ParseFailed { detail: "x".to_string(), body: "{}".to_string() };
    assert_eq!(
        device_fp_exchange_result(parse),
        Some(Err("Device FP parse error: x body: {}".to_string()))
    );
    let ok = GetOutcome::Received(ApiResponse {
        retcode: 0,
        data: Some(DeviceFpData { device_fp: "38d7f0aac0ab7".to_string() }),
    });
    assert_eq!(device_fp_exchange_result(ok), Some(Ok("38d7f0aac0ab7".to_string())));
}

#[test]
fn fresh_device_fp_seed() {
    let seed = new_device_fp_seed().expect("clock after 1970");
    assert_eq!(seed.seed_id.len(), 16);
    assert!(seed.seed_id.chars().all(|c| c.is_ascii_hexdigit() && !c.is_ascii_uppercase()));
    let millis: u128 = seed.seed_time.parse().unwrap();
    assert!(millis > 1_600_000_000_000);
}
