use warp_sessions::cookie::{push_decimal, CookieOptions, SameSiteCookieOption};

#[test]
fn default_options_are_safe() {
    let options = CookieOptions::default();
    assert_eq!(options.cookie_name, "sid");
    assert_eq!(options.cookie_value, None);
    assert_eq!(options.max_age, None);
    assert_eq!(options.domain, None);
    assert_eq!(options.path, None);
    assert_eq!(options.secure, false);
    assert_eq!(options.http_only, true);
    assert_eq!(options.same_site, Some(SameSiteCookieOption::Strict));
}

#[test]
fn no_value_means_no_header() {
    let options = CookieOptions::default();
    assert_eq!(options.set_cookie_header(), None);
}

#[test]
fn header_of_default_options_with_a_value() {
    let mut options = CookieOptions::default();
    options.cookie_value = Some("abc123".to_string());
    assert_eq!(options.header_value(), "sid=abc123; HttpOnly; SameSite=Strict");
    assert_eq!(
        options.set_cookie_header(),
        Some("sid=abc123; HttpOnly; SameSite=Strict".to_string())
    );
}

#[test]
fn header_without_a_value_has_an_empty_one() {
    let options = CookieOptions::default();
    assert_eq!(options.header_value(), "sid=; HttpOnly; SameSite=Strict");
}

#[test]
fn header_with_every_attribute() {
    let options = CookieOptions {
        cookie_name: "session".to_string(),
        cookie_value: Some("v".to_string()),
        max_age: Some(3600),
        domain: Some("example.com".to_string()),
        path: Some("/app".to_string()),
        secure: true,
        http_only: true,
        same_site: Some(SameSiteCookieOption::Lax),
    };
    assert_eq!(
        options.header_value(),
        "session=v; Path=/app; Domain=example.com; Max-Age=3600; Secure; HttpOnly; SameSite=Lax"
    );
}

#[test]
fn header_with_no_attribute() {
    let options = CookieOptions {
        cookie_name: "sid".to_string(),
        cookie_value: Some("v".to_string()),
        max_age: None,
        domain: None,
        path: None,
        secure: false,
        http_only: false,
        same_site: None,
    };
    assert_eq!(options.header_value(), "sid=v");
}

#[test]
fn header_of_an_expired_cookie() {
    let mut options = CookieOptions::default();
    options.cookie_value = Some(String::new());
    options.max_age = Some(0);
    assert_eq!(
        options.header_value(),
        "sid=; Max-Age=0; HttpOnly; SameSite=Strict"
    );
}

#[test]
fn same_site_names() {
    assert_eq!(SameSiteCookieOption::Unrestricted.as_str(), "None");
    assert_eq!(SameSiteCookieOption::Lax.as_str(), "Lax");
    assert_eq!(SameSiteCookieOption::Strict.as_str(), "Strict");
    let mut options = CookieOptions::default();
    options.cookie_value = Some("v".to_string());
    options.same_site = Some(SameSiteCookieOption::Unrestricted);
    options.secure = true;
    assert_eq!(
        options.header_value(),
        "sid=v; Secure; HttpOnly; SameSite=None"
    );
}

#[test]
fn decimal_of_small_and_large_numbers() {
    let decimal = |n: u64| {
        let mut out = String::new();
        push_decimal(&mut out, n);
        out
    };
    assert_eq!(decimal(0), "0");
    assert_eq!(decimal(7), "7");
    assert_eq!(decimal(9), "9");
    assert_eq!(decimal(10), "10");
    assert_eq!(decimal(1234567890), "1234567890");
    assert_eq!(decimal(86400), "86400");
    assert_eq!(decimal(u64::MAX), "18446744073709551615");
}

#[test]
fn decimal_is_appended() {
    let mut out = "Max-Age=".to_string();
    push_decimal(&mut out, 305);
    assert_eq!(out, "Max-Age=305");
}

#[test]
fn header_with_the_largest_age() {
    let mut options = CookieOptions::default();
    options.cookie_value = Some("v".to_string());
    options.max_age = Some(u64::MAX);
    options.http_only = false;
    options.same_site = None;
    assert_eq!(options.header_value(), "sid=v; Max-Age=18446744073709551615");
}
