use regex::Regex;
use steam_connect::identity::claimed_identity;
use steam_connect::identity::to_decimal;
use steam_connect::identity::ID_DIGITS;

#[test]
fn an_identity_url_names_its_number() {
    assert_eq!(
        claimed_identity("https://steamcommunity.com/openid/id/76561197960287930"),
        Some(76561197960287930)
    );
    assert_eq!(
        claimed_identity("http://steamcommunity.com/openid/id/76561197960287930"),
        Some(76561197960287930)
    );
}

#[test]
fn the_digits_are_read_in_decimal() {
    assert_eq!(
        claimed_identity("https://steamcommunity.com/openid/id/00000000000000000"),
        Some(0)
    );
    assert_eq!(
        claimed_identity("https://steamcommunity.com/openid/id/00000000000000042"),
        Some(42)
    );
    assert_eq!(
        claimed_identity("https://steamcommunity.com/openid/id/12345678901234567"),
        Some(12345678901234567)
    );
    assert_eq!(
        claimed_identity("http://steamcommunity.com/openid/id/99999999999999999"),
        Some(99999999999999999)
    );
}

#[test]
fn too_few_or_too_many_digits_are_refused() {
    assert_eq!(claimed_identity("https://steamcommunity.com/openid/id/123"), None);
    assert_eq!(claimed_identity("https://steamcommunity.com/openid/id/"), None);
    assert_eq!(
        claimed_identity("https://steamcommunity.com/openid/id/7656119796028793"),
        None
    );
    assert_eq!(
        claimed_identity("https://steamcommunity.com/openid/id/765611979602879300"),
        None
    );
}

#[test]
fn another_host_is_refused() {
    assert_eq!(
        claimed_identity("https://example.com/openid/id/76561197960287930"),
        None
    );
    assert_eq!(
        claimed_identity("https://steamcommunityXcom/openid/id/76561197960287930"),
        None
    );
    assert_eq!(
        claimed_identity("https://steamcommunity.com.evil.example/openid/id/76561197960287930"),
        None
    );
    assert_eq!(
        claimed_identity("https://evil.example/https://steamcommunity.com/openid/id/76561197960287930"),
        None
    );
    assert_eq!(
        claimed_identity("https://STEAMCOMMUNITY.COM/openid/id/76561197960287930"),
        None
    );
}

#[test]
fn another_scheme_or_path_is_refused() {
    assert_eq!(
        claimed_identity("ftp://steamcommunity.com/openid/id/76561197960287930"),
        None
    );
    assert_eq!(
        claimed_identity("HTTPS://steamcommunity.com/openid/id/76561197960287930"),
        None
    );
    assert_eq!(
        claimed_identity("httpss://steamcommunity.com/openid/id/76561197960287930"),
        None
    );
    assert_eq!(
        claimed_identity("https://steamcommunity.com/openid/ID/76561197960287930"),
        None
    );
    assert_eq!(
        claimed_identity("https://steamcommunity.com/id/76561197960287930"),
        None
    );
    assert_eq!(claimed_identity(""), None);
}

#[test]
fn nothing_may_surround_the_url() {
    assert_eq!(
        claimed_identity(" https://steamcommunity.com/openid/id/76561197960287930"),
        None
    );
    assert_eq!(
        claimed_identity("https://steamcommunity.com/openid/id/76561197960287930 "),
        None
    );
    assert_eq!(
        claimed_identity("https://steamcommunity.com/openid/id/76561197960287930\n"),
        None
    );
    assert_eq!(
        claimed_identity("https://steamcommunity.com/openid/id/76561197960287930/"),
        None
    );
    assert_eq!(
        claimed_identity("https://steamcommunity.com/openid/id/76561197960287930?x=1"),
        None
    );
}

#[test]
fn only_ascii_digits_count() {
    assert_eq!(
        claimed_identity("https://steamcommunity.com/openid/id/7656119796028793a"),
        None
    );
    assert_eq!(
        claimed_identity("https://steamcommunity.com/openid/id/-6561197960287930"),
        None
    );
    assert_eq!(
        claimed_identity("https://steamcommunity.com/openid/id/+6561197960287930"),
        None
    );
    assert_eq!(
        claimed_identity("https://steamcommunity.com/openid/id/7656119796028793\u{0663}"),
        None
    );
    assert_eq!(
        claimed_identity("https://steamcommunity.com/openid/id/\u{ff17}6561197960287930"),
        None
    );
}

#[test]
fn the_grammar_is_that_of_the_pattern() {
    let pattern =
        Regex::new("^(http|https)://steamcommunity\\.com/openid/id/([0-9]{17}$)").unwrap();
    let texts = [
        "https://steamcommunity.com/openid/id/76561197960287930",
        "http://steamcommunity.com/openid/id/76561197960287930",
        "http://steamcommunity.com/openid/id/00000000000000000",
        "https://steamcommunity.com/openid/id/123",
        "https://example.com/openid/id/76561197960287930",
        "https://steamcommunityXcom/openid/id/76561197960287930",
        "https://steamcommunity.com/openid/id/76561197960287930\n",
        "https://steamcommunity.com/openid/id/765611979602879301",
        "xhttps://steamcommunity.com/openid/id/76561197960287930",
        "https://steamcommunity.com/openid/id/7656119796028793\u{0663}",
        "https//steamcommunity.com/openid/id/76561197960287930",
        "",
    ];
    for text in texts {
        let expected = pattern
            .captures(text)
            .map(|found| found.get(2).unwrap().as_str().parse::<u64>().unwrap());
        assert_eq!(claimed_identity(text), expected, "{text:?}");
    }
}

#[test]
fn numbers_are_written_in_decimal() {
    assert_eq!(to_decimal(0), "0");
    assert_eq!(to_decimal(7), "7");
    assert_eq!(to_decimal(9), "9");
    assert_eq!(to_decimal(10), "10");
    assert_eq!(to_decimal(109), "109");
    assert_eq!(to_decimal(76561197960287930), "76561197960287930");
    assert_eq!(to_decimal(u64::MAX), "18446744073709551615");
}

#[test]
fn a_written_identity_reads_back() {
    assert_eq!(ID_DIGITS, 17);
    for id in [76561197960287930u64, 10000000000000000, 99999999999999999] {
        let text = format!("https://steamcommunity.com/openid/id/{}", to_decimal(id));
        assert_eq!(claimed_identity(&text), Some(id));
    }
}
