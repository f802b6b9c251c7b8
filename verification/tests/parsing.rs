use counting_engine::mention::parse_mention;
use counting_engine::numeral::parse_u32;
use counting_engine::uptime::uptime_parts;

#[test]
fn numerals_that_parse() {
    assert_eq!(parse_u32(b"1"), Some(1));
    assert_eq!(parse_u32(b"0"), Some(0));
    assert_eq!(parse_u32(b"+42"), Some(42));
    assert_eq!(parse_u32(b"007"), Some(7));
    assert_eq!(parse_u32(b"4294967295"), Some(u32::MAX));
}

#[test]
fn numerals_that_do_not_parse() {
    assert_eq!(parse_u32(b""), None);
    assert_eq!(parse_u32(b"+"), None);
    assert_eq!(parse_u32(b"abc"), None);
    assert_eq!(parse_u32(b"12a"), None);
    assert_eq!(parse_u32(b" 1"), None);
    assert_eq!(parse_u32(b"1 "), None);
    assert_eq!(parse_u32(b"-1"), None);
    assert_eq!(parse_u32(b"4294967296"), None);
    assert_eq!(parse_u32(b"99999999999999999999999999"), None);
}

#[test]
fn matches_u32_from_str() {
    let cases: [&[u8]; 10] =
        [b"1", b"+42", b"007", b"4294967295", b"4294967296", b"", b"+", b"abc", b"-1", b"1 "];
    for c in cases {
        let expected = std::str::from_utf8(c).unwrap().parse::<u32>().ok();
        assert_eq!(parse_u32(c), expected);
    }
}

#[test]
fn mentions_found() {
    assert_eq!(parse_mention(b"<@!123>"), Some(123));
    assert_eq!(parse_mention(b"stats for <@!42> please"), Some(42));
    assert_eq!(parse_mention(b"<@!11>22>"), Some(11));
    // The first well-formed mention wins; a malformed opener is passed over.
    assert_eq!(parse_mention(b"<@!1x <@!2>"), Some(2));
}

#[test]
fn mentions_missing() {
    assert_eq!(parse_mention(b""), None);
    assert_eq!(parse_mention(b"no mention here"), None);
    assert_eq!(parse_mention(b"<@!>"), None);
    assert_eq!(parse_mention(b"<@123>"), None);
    assert_eq!(parse_mention(b"<@!123"), None);
    // Digits that overflow a 64-bit identity are not a usable mention.
    assert_eq!(parse_mention(b"<@!99999999999999999999>"), None);
}

#[test]
fn uptime_decomposition() {
    assert_eq!(uptime_parts(0), (0, 0, 0, 0));
    assert_eq!(uptime_parts(59), (0, 0, 0, 59));
    assert_eq!(uptime_parts(86399), (0, 23, 59, 59));
    assert_eq!(uptime_parts(86400), (1, 0, 0, 0));
    assert_eq!(uptime_parts(90061), (1, 1, 1, 1));
}
