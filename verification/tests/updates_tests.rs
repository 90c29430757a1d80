use ptd_launcher::numeric::i64_to_decimal;
use ptd_launcher::string_map::StringMap;
use ptd_launcher::updates::{checked_games, check_for_updates, needs_update, plan_update_check, UpdateCheck};
use ptd_launcher::config::AppConfig;

fn map(pairs: &[(&str, &str)]) -> StringMap {
    let mut m = StringMap::new();
    for (k, v) in pairs {
        m.insert(k.to_string(), v.to_string());
    }
    m
}

#[test]
fn checked_games_in_fixed_order() {
    assert_eq!(
        checked_games(),
        vec!["PTD1", "PTD1_Hacked", "PTD2", "PTD2_Hacked", "PTD3", "PTD3_Hacked"]
    );
}

#[test]
fn plan_for_each_situation() {
    let urls = map(&[("PTD1", "https://ptd.onl/ptd1-latest.swf"), ("PTD2", "u2")]);
    let installed = map(&[("PTD1", "3.6.6"), ("PTD2", "")]);
    match plan_update_check("PTD1", &urls, &installed) {
        UpdateCheck::CompareWith { url, local } => {
            assert_eq!(url, "https://ptd.onl/ptd1-latest.swf");
            assert_eq!(local, "3.6.6");
        }
        _ => panic!("expected a comparison"),
    }
    assert!(matches!(plan_update_check("PTD2", &urls, &installed), UpdateCheck::NeverDownloaded));
    assert!(matches!(plan_update_check("PTD3", &urls, &installed), UpdateCheck::NotConfigured));
}

#[test]
fn needs_update_rules() {
    assert!(!needs_update("3.6.6", &None));
    assert!(!needs_update("3.6.6", &Some("3.6.6".to_string())));
    assert!(needs_update("3.6.6", &Some("3.6.7".to_string())));
    assert!(needs_update("3.6.7", &Some("3.6.6".to_string())));
    assert!(needs_update("1741776693", &Some("1741776694".to_string())));
    assert!(needs_update("1741776693", &Some("1741776000".to_string())));
    assert!(needs_update("200", &Some("100".to_string())));
    assert!(needs_update("1741776693", &Some("3.6.6".to_string())));
    assert!(needs_update("+5", &Some("5".to_string())));
}

#[test]
fn timestamps_differ_or_not() {
    let local = i64_to_decimal(1741776693);
    assert!(needs_update(&local, &Some(i64_to_decimal(999999999))));
    assert!(needs_update(&local, &Some(i64_to_decimal(1741776694))));
    assert!(!needs_update(&local, &Some(i64_to_decimal(1741776693))));
}

#[test]
fn updates_report_order_and_reasons() {
    let config = AppConfig::default();
    let installed = map(&[
        ("PTD1", "3.6.6"),
        ("PTD1_Hacked", "1741776693"),
        ("PTD2", "1741776693"),
        ("PTD3", ""),
    ]);
    let remotes = vec![
        Some("3.6.7".to_string()),      // PTD1: newer version
        Some("1741776693".to_string()), // PTD1_Hacked: same
        Some("1741770000".to_string()), // PTD2: different timestamp
        None,                           // PTD2_Hacked: never downloaded
        None,                           // PTD3: empty version
        None,                           // PTD3_Hacked: never downloaded
    ];
    assert_eq!(
        check_for_updates(&config.game_urls, &installed, &remotes),
        vec!["PTD1", "PTD2", "PTD2_Hacked", "PTD3", "PTD3_Hacked"]
    );
}

#[test]
fn updates_skip_unconfigured_games() {
    let urls = map(&[("PTD2", "u")]);
    let installed = StringMap::new();
    assert_eq!(check_for_updates(&urls, &installed, &vec![]), vec!["PTD2"]);
}

#[test]
fn updates_without_server_answer() {
    let config = AppConfig::default();
    let installed = map(&[
        ("PTD1", "1"), ("PTD1_Hacked", "1"), ("PTD2", "1"),
        ("PTD2_Hacked", "1"), ("PTD3", "1"), ("PTD3_Hacked", "1"),
    ]);
    assert!(check_for_updates(&config.game_urls, &installed, &vec![None; 6]).is_empty());
    assert!(check_for_updates(&config.game_urls, &installed, &vec![]).is_empty());
}

#[test]
fn recorded_version_is_current() {
    let config = AppConfig::default();
    let mut versions = ptd_launcher::config::GameVersions::default();
    versions.record_game_version("PTD2".to_string(), "1741776693".to_string());
    let remotes = vec![None, None, Some("1741776693".to_string()), None, None, None];
    let reported = check_for_updates(&config.game_urls, &versions.games, &remotes);
    assert!(!reported.contains(&"PTD2".to_string()));
    assert_eq!(reported.len(), 5);
}
