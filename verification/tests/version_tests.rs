use ptd_launcher::numeric::{i64_to_decimal, u64_to_decimal};
use ptd_launcher::updates::{
    fallback_version, fallback_version_from, version_from_parts, version_from_response,
};
use ptd_launcher::version::parse_version_from_url;

fn version(url: &str) -> Option<String> {
    parse_version_from_url(url)
}

#[test]
fn version_from_documented_example() {
    assert_eq!(version("https://ptd.onl/game/PTD1-v3.6.6.swf"), Some("3.6.6".to_string()));
}

#[test]
fn version_from_bare_file_name() {
    assert_eq!(version("PTD2-v12.0.swf"), Some("12.0".to_string()));
}

#[test]
fn version_without_extension() {
    assert_eq!(version("https://ptd.onl/PTD1-v3.6"), Some("3.6".to_string()));
}

#[test]
fn version_absent_without_dash_v() {
    assert_eq!(version("https://ptd.onl/ptd1-latest.swf"), None);
}

#[test]
fn version_only_in_file_name() {
    // "-v" in a directory name does not count
    assert_eq!(version("https://ptd.onl/game-v2/ptd1.swf"), None);
    assert_eq!(version("https://ptd.onl/game-v2/PTD1-v1.2.swf"), Some("1.2".to_string()));
}

#[test]
fn version_stops_at_first_non_numeric_part() {
    assert_eq!(version("PTD1-v3.6x.1.swf"), Some("3".to_string()));
    assert_eq!(version("PTD1-v3.6.6-beta.swf"), Some("3.6".to_string()));
}

#[test]
fn version_none_when_first_part_not_numeric() {
    assert_eq!(version("PTD1-vabc.swf"), None);
    assert_eq!(version("PTD1-v3x.swf"), None);
}

#[test]
fn version_empty_parts_count_as_numeric() {
    assert_eq!(version("PTD1-v.swf"), Some("".to_string()));
    assert_eq!(version("PTD1-v"), Some("".to_string()));
    assert_eq!(version("PTD1-v1..2.swf"), Some("1..2".to_string()));
}

#[test]
fn version_ends_at_second_dash_v() {
    assert_eq!(version("PTD1-v1.2-v3.4.swf"), Some("1.2".to_string()));
}

#[test]
fn version_with_non_ascii_text() {
    assert_eq!(version("https://ptd.onl/é/Jeu-v2.1.swf"), Some("2.1".to_string()));
}

#[test]
fn decimal_text_of_integers() {
    assert_eq!(i64_to_decimal(0), "0");
    assert_eq!(i64_to_decimal(1741776693), "1741776693");
    assert_eq!(i64_to_decimal(-42), "-42");
    assert_eq!(i64_to_decimal(i64::MIN), i64::MIN.to_string());
    assert_eq!(i64_to_decimal(i64::MAX), i64::MAX.to_string());
    assert_eq!(u64_to_decimal(u64::MAX), u64::MAX.to_string());
    assert_eq!(u64_to_decimal(524288000), "524288000");
}

#[test]
fn decimal_text_matches_std() {
    for n in [0i64, 1, -1, 9, 10, -10, 1741776693, i64::MIN, i64::MAX] {
        assert_eq!(i64_to_decimal(n), n.to_string());
    }
}

#[test]
fn response_version_prefers_url() {
    assert_eq!(
        version_from_parts("https://ptd.onl/game/PTD1-v3.6.6.swf", Some(1741776693)),
        Some("3.6.6".to_string())
    );
    assert_eq!(
        version_from_parts("https://ptd.onl/ptd1-latest.swf", Some(1741776693)),
        Some("1741776693".to_string())
    );
    assert_eq!(version_from_parts("https://ptd.onl/ptd1-latest.swf", None), None);
}

#[test]
fn response_version_reads_last_modified() {
    assert_eq!(
        version_from_response("https://ptd.onl/ptd1-latest.swf", Some("Wed, 12 Mar 2025 10:51:33 GMT")),
        Some("1741776693".to_string())
    );
    assert_eq!(
        version_from_response("https://ptd.onl/ptd1-latest.swf", Some("Wed, 18 Feb 2015 23:16:09 +0100")),
        Some("1424297769".to_string())
    );
    assert_eq!(version_from_response("https://ptd.onl/ptd1-latest.swf", Some("yesterday")), None);
    assert_eq!(
        version_from_response("https://ptd.onl/PTD1-v3.6.6.swf", Some("Wed, 12 Mar 2025 10:51:33 GMT")),
        Some("3.6.6".to_string())
    );
}

#[test]
fn fallback_version_uses_header_then_clock() {
    assert_eq!(fallback_version(Some("Wed, 18 Feb 2015 23:16:09 GMT"), 5), "1424301369");
    assert_eq!(fallback_version(Some("not a date"), 5), "5");
    assert_eq!(fallback_version(None, 1741776693), "1741776693");
}

#[test]
fn fallback_version_from_parts() {
    assert_eq!(fallback_version_from(Some(1424301369), 7), "1424301369");
    assert_eq!(fallback_version_from(None, -7), "-7");
}

#[test]
fn url_versions_hold_only_digits_and_dots() {
    for url in ["a-v1.2.3.swf", "x/y-v.9..swf", "b-v12-v3", "c-v4a", "d-v", "e-v0.0.0.0.0x"] {
        if let Some(v) = parse_version_from_url(url) {
            assert!(v.chars().all(|c| c.is_ascii_digit() || c == '.'), "{} -> {}", url, v);
        }
    }
}
