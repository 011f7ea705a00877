use mihoyo_widget::ds::{ds2_get, ds2_sign, SALT_X4};

#[test]
fn ds2_sign_sorts_params_and_signs_message() {
    // message: "salt=salt&t=1700000000&r=123456&b=&q=a=1&b=2"
    let ds = ds2_sign("salt", "b=2&a=1", 1700000000, 123456);
    assert_eq!(ds, "1700000000,123456,4fff9c6314357728cfc5476719eefcca");
}

#[test]
fn ds2_sign_empty_query() {
    let ds = ds2_sign(SALT_X4, "", 1, 100001);
    assert_eq!(ds, "1,100001,f1e86446824b169b243160f972f45205");
}

#[test]
fn ds2_sign_keeps_empty_params_and_negative_random() {
    // pieces "z", "", "x=é" sorted to "", "x=é", "z"
    let ds = ds2_sign("s", "z&&x=\u{e9}", 42, -7);
    assert_eq!(ds, "42,-7,433bffe1452318c0c7f3c4c1844c832a");
}

#[test]
fn ds2_sign_ignores_param_order() {
    let a = ds2_sign(SALT_X4, "role_id=100&server=prod_gf_cn", 1719000000, 150000);
    let b = ds2_sign(SALT_X4, "server=prod_gf_cn&role_id=100", 1719000000, 150000);
    assert_eq!(a, b);
}

#[test]
fn ds2_get_has_time_random_and_digest() {
    let ds = ds2_get(SALT_X4, "role_id=1&server=x").expect("clock after 1970");
    let parts: Vec<&str> = ds.split(',').collect();
    assert_eq!(parts.len(), 3);
    let t: u64 = parts[0].parse().unwrap();
    assert!(t > 1_600_000_000);
    let r: i32 = parts[1].parse().unwrap();
    assert!((100001..=200000).contains(&r));
    assert_eq!(parts[2].len(), 32);
    assert!(parts[2].chars().all(|c| c.is_ascii_hexdigit() && !c.is_ascii_uppercase()));
    assert_eq!(ds, ds2_sign(SALT_X4, "role_id=1&server=x", t, r));
}
