use std::cell::Cell;

use axre::errors::JsonPayloadError;
use axre::length::{parse_length, Length};
use axre::media::{accepts, MediaType};
use axre::types::json::{JsonBody, JsonConfig, Step};

fn no_predicate() -> Option<&'static fn(MediaType) -> bool> {
    None
}

fn media(type_: &str, subtype: &str, suffix: Option<&str>) -> MediaType {
    MediaType {
        type_: type_.to_string(),
        subtype: subtype.to_string(),
        suffix: suffix.map(|s| s.to_string()),
    }
}

fn is_read(step: &Step) -> bool {
    matches!(step, Step::Read(_))
}

fn is_content_type_error(step: &Step) -> bool {
    matches!(step, Step::Fail(JsonPayloadError::ContentType))
}

fn is_overflow(step: &Step) -> bool {
    matches!(step, Step::Fail(JsonPayloadError::Overflow))
}

#[test]
fn json_subtype_is_json() {
    assert!(media("application", "json", None).is_json());
    assert!(media("text", "json", None).is_json());
}

#[test]
fn json_suffix_is_json() {
    assert!(media("application", "vnd.api", Some("json")).is_json());
}

#[test]
fn other_names_are_not_json() {
    assert!(!media("text", "plain", None).is_json());
    assert!(!media("application", "xml", Some("xml")).is_json());
    assert!(!media("json", "plain", None).is_json());
    assert!(!media("application", "jsonx", None).is_json());
    assert!(!media("application", "jso", None).is_json());
    assert!(!media("application", "", None).is_json());
    assert!(!media("application", "x", Some("")).is_json());
    assert!(!media("application", "JSON", None).is_json());
    assert!(!media("application", "jsön", None).is_json());
}

#[test]
fn accepts_refuses_a_missing_media_type() {
    assert!(!accepts(None, no_predicate()));
    let always = |_: MediaType| true;
    assert!(!accepts(None, Some(&always)));
}

#[test]
fn accepts_json_without_asking_the_predicate() {
    let asked = Cell::new(0);
    let never = |_: MediaType| {
        asked.set(asked.get() + 1);
        false
    };
    assert!(accepts(Some(media("application", "json", None)), Some(&never)));
    assert!(accepts(Some(media("application", "ld", Some("json"))), Some(&never)));
    assert_eq!(asked.get(), 0);
}

#[test]
fn accepts_asks_the_predicate_about_other_types() {
    let seen = Cell::new(None);
    let plain_text = |m: MediaType| {
        let ok = m.type_ == "text" && m.subtype == "plain";
        seen.set(Some(m));
        ok
    };
    assert!(accepts(Some(media("text", "plain", None)), Some(&plain_text)));
    assert_eq!(seen.take(), Some(media("text", "plain", None)));
    assert!(!accepts(Some(media("text", "html", None)), Some(&plain_text)));
    assert_eq!(seen.take(), Some(media("text", "html", None)));
    assert!(!accepts(Some(media("text", "plain", None)), no_predicate()));
}

#[test]
fn application_json_is_read() {
    let step = JsonBody::new(Some("application/json"), None, no_predicate()).poll();
    assert!(is_read(&step));
}

#[test]
fn content_type_with_parameters_is_read() {
    let step = JsonBody::new(Some("application/json; charset=utf-8"), None, no_predicate()).poll();
    assert!(is_read(&step));
}

#[test]
fn content_type_is_matched_without_regard_to_case() {
    let step = JsonBody::new(Some("Application/JSON"), None, no_predicate()).poll();
    assert!(is_read(&step));
    let step = JsonBody::new(Some("application/vnd.API+Json"), None, no_predicate()).poll();
    assert!(is_read(&step));
}

#[test]
fn vendor_type_with_json_suffix_is_read() {
    let step = JsonBody::new(Some("application/vnd.api+json"), None, no_predicate()).poll();
    assert!(is_read(&step));
}

#[test]
fn other_content_type_is_refused() {
    let step = JsonBody::new(Some("text/plain"), None, no_predicate()).poll();
    assert!(is_content_type_error(&step));
    let step = JsonBody::new(Some("application/xml"), Some("2"), no_predicate()).poll();
    assert!(is_content_type_error(&step));
    let step = JsonBody::new(Some("json/plain"), None, no_predicate()).poll();
    assert!(is_content_type_error(&step));
}

#[test]
fn missing_content_type_is_refused() {
    let step = JsonBody::new(None, None, no_predicate()).poll();
    assert!(is_content_type_error(&step));
    let always = |_: MediaType| true;
    let step = JsonBody::new(None, Some("10"), Some(&always)).poll();
    assert!(is_content_type_error(&step));
}

#[test]
fn malformed_content_type_is_refused() {
    for text in ["", "json", "/json", "application json", "application/json\u{e9}", "a/b;c"] {
        let step = JsonBody::new(Some(text), None, no_predicate()).poll();
        assert!(is_content_type_error(&step), "{:?}", text);
        let always = |_: MediaType| true;
        let step = JsonBody::new(Some(text), None, Some(&always)).poll();
        assert!(is_content_type_error(&step), "{:?}", text);
    }
}

#[test]
fn predicate_admits_another_content_type() {
    let seen = Cell::new(None);
    let plain_text = |m: MediaType| {
        let ok = m.type_ == "text" && m.subtype == "plain";
        seen.set(Some(m));
        ok
    };
    let step = JsonBody::new(Some("Text/Plain; charset=utf-8"), None, Some(&plain_text)).poll();
    assert!(is_read(&step));
    assert_eq!(seen.take(), Some(media("text", "plain", None)));
    let step = JsonBody::new(Some("image/svg+xml"), None, Some(&plain_text)).poll();
    assert!(is_content_type_error(&step));
    assert_eq!(seen.take(), Some(media("image", "svg", Some("xml"))));
}

#[test]
fn refused_content_type_wins_over_declared_length() {
    let step = JsonBody::new(Some("text/plain"), Some("999999999"), no_predicate()).poll();
    assert!(is_content_type_error(&step));
}

#[test]
fn declared_length_over_limit_is_overflow() {
    let step =
        JsonBody::new(Some("application/json"), Some("11"), no_predicate()).limit(10).poll();
    assert!(is_overflow(&step));
    let step =
        JsonBody::new(Some("application/json"), Some("+11"), no_predicate()).limit(10).poll();
    assert!(is_overflow(&step));
    let step = JsonBody::new(Some("application/json"), Some("1"), no_predicate()).limit(0).poll();
    assert!(is_overflow(&step));
}

#[test]
fn declared_length_beyond_usize_is_overflow() {
    let nines = "99999999999999999999999999999999999999999";
    let step = JsonBody::new(Some("application/json"), Some(nines), no_predicate()).poll();
    assert!(is_overflow(&step));
    let step =
        JsonBody::new(Some("application/json"), Some(nines), no_predicate()).limit(10).poll();
    assert!(is_overflow(&step));
    let step = JsonBody::new(Some("application/json"), Some("99999999999999999999999999"), no_predicate())
        .limit(10)
        .poll();
    assert!(is_overflow(&step));
    let step = JsonBody::new(Some("application/json"), Some(nines), no_predicate())
        .limit(usize::MAX)
        .poll();
    assert!(is_overflow(&step));
    let one_more = format!("{}0", usize::MAX);
    let step = JsonBody::new(Some("application/json"), Some(&one_more), no_predicate())
        .limit(usize::MAX)
        .poll();
    assert!(is_overflow(&step));
    let config: Option<&JsonConfig<fn(MediaType) -> bool>> = None;
    let step = JsonBody::from_request(config, Some("application/json"), Some(nines)).poll();
    assert!(is_overflow(&step));
}

#[test]
fn largest_declared_length_passes_the_largest_limit() {
    let largest = usize::MAX.to_string();
    let step = JsonBody::new(Some("application/json"), Some(&largest), no_predicate())
        .limit(usize::MAX)
        .poll();
    assert!(is_read(&step));
    let step = JsonBody::new(Some("application/json"), Some(&largest), no_predicate())
        .limit(usize::MAX - 1)
        .poll();
    assert!(is_overflow(&step));
}

#[test]
fn refused_content_type_is_known_before_the_first_step() {
    assert!(JsonBody::new(Some("application/json"), Some("999999999"), no_predicate()).is_accepted());
    assert!(!JsonBody::new(Some("text/plain"), Some("1"), no_predicate()).is_accepted());
    assert!(!JsonBody::new(None, None, no_predicate()).is_accepted());
}

#[test]
fn declared_length_at_limit_is_read() {
    let step =
        JsonBody::new(Some("application/json"), Some("10"), no_predicate()).limit(10).poll();
    assert!(is_read(&step));
    let step = JsonBody::new(Some("application/json"), Some("0"), no_predicate()).limit(0).poll();
    assert!(is_read(&step));
}

#[test]
fn unreadable_declared_length_is_skipped() {
    for text in ["", "ten", "-1", "1.5", " 11", "11 ", "+", "1e3", "9999999999999999999999999x"] {
        let step =
            JsonBody::new(Some("application/json"), Some(text), no_predicate()).limit(10).poll();
        assert!(is_read(&step), "{:?}", text);
    }
}

#[test]
fn body_limit_defaults_to_256_kib() {
    let step = JsonBody::new(Some("application/json"), Some("262144"), no_predicate()).poll();
    assert!(is_read(&step));
    let step = JsonBody::new(Some("application/json"), Some("262145"), no_predicate()).poll();
    assert!(is_overflow(&step));
}

#[test]
fn request_without_config_has_32_kib() {
    let config: Option<&JsonConfig<fn(MediaType) -> bool>> = None;
    let step = JsonBody::from_request(config, Some("application/json"), Some("32768")).poll();
    assert!(is_read(&step));
    let step = JsonBody::from_request(config, Some("application/json"), Some("32769")).poll();
    assert!(is_overflow(&step));
    let step = JsonBody::from_request(config, Some("text/plain"), None).poll();
    assert!(is_content_type_error(&step));
}

#[test]
fn default_config_has_32_kib_and_no_predicate() {
    let config: JsonConfig<fn(MediaType) -> bool> = JsonConfig::default();
    let step =
        JsonBody::from_request(Some(&config), Some("application/json"), Some("32768")).poll();
    assert!(is_read(&step));
    let step =
        JsonBody::from_request(Some(&config), Some("application/json"), Some("32769")).poll();
    assert!(is_overflow(&step));
    let step = JsonBody::from_request(Some(&config), Some("text/plain"), None).poll();
    assert!(is_content_type_error(&step));
}

#[test]
fn config_sets_limit_and_predicate() {
    let config: JsonConfig<fn(MediaType) -> bool> = JsonConfig::default();
    let config = config.limit(4096).content_type(|m: MediaType| m.type_ == "text");
    let step = JsonBody::from_request(Some(&config), Some("text/plain"), Some("4096")).poll();
    assert!(is_read(&step));
    let step = JsonBody::from_request(Some(&config), Some("text/plain"), Some("4097")).poll();
    assert!(is_overflow(&step));
    let step = JsonBody::from_request(Some(&config), Some("image/png"), None).poll();
    assert!(is_content_type_error(&step));
    let config = config.clone().limit(1 << 20);
    let step = JsonBody::from_request(Some(&config), Some("text/plain"), Some("1048576")).poll();
    assert!(is_read(&step));
}

#[test]
fn parse_length_reads_decimal_numbers() {
    assert_eq!(parse_length("0"), Some(Length::Bytes(0)));
    assert_eq!(parse_length("7"), Some(Length::Bytes(7)));
    assert_eq!(parse_length("42"), Some(Length::Bytes(42)));
    assert_eq!(parse_length("+42"), Some(Length::Bytes(42)));
    assert_eq!(parse_length("0042"), Some(Length::Bytes(42)));
    assert_eq!(parse_length("32768"), Some(Length::Bytes(32768)));
    assert_eq!(
        parse_length("000000000000000000000000000000000000001"),
        Some(Length::Bytes(1))
    );
}

#[test]
fn parse_length_refuses_everything_else() {
    for text in [
        "", "+", "-", "-0", "-1", "++1", "+-1", " 1", "1 ", "1,000", "1_000", "0x10", "1.0", "1e3", "ten",
        "１２", "1\u{0661}", "\u{e9}", "99999999999999999999999999999999999999999 ",
        "99999999999999999999999999999999999999999a9", "-99999999999999999999999999999999999999999",
    ] {
        assert_eq!(parse_length(text), None, "{:?}", text);
    }
}

#[test]
fn parse_length_knows_numbers_beyond_usize() {
    let largest = usize::MAX.to_string();
    assert_eq!(parse_length(&largest), Some(Length::Bytes(usize::MAX)));
    assert_eq!(parse_length(&format!("+{}", largest)), Some(Length::Bytes(usize::MAX)));
    assert_eq!(parse_length(&format!("000{}", largest)), Some(Length::Bytes(usize::MAX)));
    let mut digits: Vec<u8> = largest.clone().into_bytes();
    let last = digits.len() - 1;
    digits[last] += 1;
    let beyond = String::from_utf8(digits).unwrap();
    assert_eq!(parse_length(&beyond), Some(Length::Beyond));
    assert_eq!(parse_length(&format!("{}0", largest)), Some(Length::Beyond));
    assert_eq!(parse_length(&format!("+{}0", largest)), Some(Length::Beyond));
    assert_eq!(
        parse_length("99999999999999999999999999999999999999999"),
        Some(Length::Beyond)
    );
}

#[test]
fn parse_length_agrees_with_the_standard_parser() {
    for text in [
        "", "0", "1", "+1", "-1", "+", "-", "007", "12a", "a12", " 12", "12 ", "+0", "+-0", "65535",
        "4294967295", "4294967296", "18446744073709551615", "18446744073709551616",
        "340282366920938463463374607431768211456", "٣", "1\n",
    ] {
        let expected = match text.parse::<usize>() {
            Ok(n) => Some(Length::Bytes(n)),
            Err(err) if *err.kind() == std::num::IntErrorKind::PosOverflow => Some(Length::Beyond),
            Err(_) => None,
        };
        assert_eq!(parse_length(text), expected, "{:?}", text);
    }
}

#[test]
fn length_is_held_against_the_limit() {
    assert!(Length::Bytes(11).is_over(10));
    assert!(!Length::Bytes(10).is_over(10));
    assert!(!Length::Bytes(0).is_over(0));
    assert!(Length::Bytes(1).is_over(0));
    assert!(!Length::Bytes(usize::MAX).is_over(usize::MAX));
    assert!(Length::Beyond.is_over(0));
    assert!(Length::Beyond.is_over(usize::MAX));
}
