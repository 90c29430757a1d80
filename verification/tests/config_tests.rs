use ptd_launcher::config::{
    flash_install_date, get_flash_dir, get_flash_player_path, get_games_dir, get_ruffle_dir,
    get_ruffle_path, install_time_text, load_bundled_config, resolve_app_dir, ruffle_install_date,
    AppConfig, EARLIEST_UTC_SECOND, FIRST_FOUR_DIGIT_YEAR_SECOND, LAST_FOUR_DIGIT_YEAR_SECOND,
    LATEST_UTC_SECOND,
    FlashPlayerConfig, GameVersions, RuffleConfig, Settings,
};
use ptd_launcher::platform::Platform;
use ptd_launcher::string_map::StringMap;

const HOME: &str = "/home/ash";

fn app_dir() -> Result<String, String> {
    resolve_app_dir(Platform::Linux, None, Some(HOME.to_string()))
}

#[test]
fn app_dir_per_platform() {
    assert_eq!(app_dir(), Ok("/home/ash/.local/share/PTD Launcher".to_string()));
    assert_eq!(
        resolve_app_dir(Platform::MacOs, None, Some("/Users/ash".to_string())),
        Ok("/Users/ash/Library/Application Support/PTD Launcher".to_string())
    );
    assert_eq!(
        resolve_app_dir(Platform::Windows, Some("/appdata".to_string()), Some(HOME.to_string())),
        Ok("/appdata/PTD Launcher".to_string())
    );
}

#[test]
fn app_dir_errors() {
    assert_eq!(
        resolve_app_dir(Platform::Windows, None, Some(HOME.to_string())),
        Err("Failed to get APPDATA".to_string())
    );
    assert_eq!(
        resolve_app_dir(Platform::Linux, Some("/appdata".to_string()), None),
        Err("Failed to get home directory".to_string())
    );
    assert_eq!(
        resolve_app_dir(Platform::MacOs, None, None),
        Err("Failed to get home directory".to_string())
    );
}

#[test]
fn data_directories() {
    assert_eq!(get_games_dir(app_dir()), Ok("/home/ash/.local/share/PTD Launcher/Games".to_string()));
    assert_eq!(get_flash_dir(app_dir()), Ok("/home/ash/.local/share/PTD Launcher/Flash".to_string()));
    assert_eq!(get_ruffle_dir(app_dir()), Ok("/home/ash/.local/share/PTD Launcher/Ruffle".to_string()));
    assert_eq!(get_games_dir(Err("no home".to_string())), Err("no home".to_string()));
}

#[test]
fn directory_join_adds_one_separator() {
    assert_eq!(get_games_dir(Ok("/data/".to_string())), Ok("/data/Games".to_string()));
}

#[test]
fn builtin_flash_config() {
    let c = FlashPlayerConfig::default();
    assert_eq!(c.fallback_version, "32.0.0.465");
    assert_eq!(c.windows.filename, "flashplayer_sa.exe");
    assert_eq!(c.macos.fallback_url, None);
    assert_eq!(c.macos.filename, "Flash Player.app");
    assert_eq!(c.linux.filename, "flashplayer");
    assert_eq!(
        c.linux.fallback_url,
        Some("https://archive.org/download/flashplayer_standalone_projectors/flash_player_sa_linux.x86_64.tar.gz".to_string())
    );
}

#[test]
fn builtin_ruffle_config() {
    let c = RuffleConfig::default();
    assert_eq!(c.windows.filename, "ruffle.exe");
    assert_eq!(c.macos.filename, "ruffle");
    assert_eq!(
        c.linux.url,
        "https://github.com/ruffle-rs/ruffle/releases/download/v0.3.0/ruffle-0.3.0-linux-x86_64.tar.gz"
    );
}

#[test]
fn builtin_game_urls() {
    let c = AppConfig::default();
    assert_eq!(c.game_urls.len(), 6);
    assert_eq!(c.game_urls.get("PTD1"), Some(&"https://ptd.onl/ptd1-latest.swf".to_string()));
    assert_eq!(
        c.game_urls.get("PTD3_Hacked"),
        Some(&"https://ptd.onl/ptd3-hacked-latest.swf".to_string())
    );
    assert_eq!(c.game_urls.get("PTD4"), None);
}

#[test]
fn default_versions_and_settings_are_empty() {
    let v = GameVersions::default();
    assert_eq!(v.flash_player, "");
    assert_eq!(v.games.len(), 0);
    let s = Settings::default();
    assert!(s.flash_player_path.is_none() && s.use_ruffle.is_none());
    assert!(s.ruffle_path.is_none() && s.sound_enabled.is_none());
    assert!(!s.prefers_ruffle());
}

#[test]
fn prefers_ruffle_only_when_set() {
    let mut s = Settings::default();
    s.use_ruffle = Some(true);
    assert!(s.prefers_ruffle());
    s.use_ruffle = Some(false);
    assert!(!s.prefers_ruffle());
}

#[test]
fn flash_player_path_custom_wins_when_present() {
    let config = AppConfig::default();
    let mut settings = Settings::default();
    settings.flash_player_path = Some("/opt/flash/flashplayer".to_string());
    assert_eq!(
        get_flash_player_path(&config, &settings, Platform::Linux, app_dir(), true),
        Ok("/opt/flash/flashplayer".to_string())
    );
    assert_eq!(
        get_flash_player_path(&config, &settings, Platform::Linux, Err("x".to_string()), true),
        Ok("/opt/flash/flashplayer".to_string())
    );
    assert_eq!(
        get_flash_player_path(&config, &settings, Platform::Linux, app_dir(), false),
        Ok("/home/ash/.local/share/PTD Launcher/Flash/flashplayer".to_string())
    );
}

#[test]
fn flash_player_path_per_platform() {
    let config = AppConfig::default();
    let settings = Settings::default();
    assert_eq!(
        get_flash_player_path(&config, &settings, Platform::MacOs, Ok("/mac".to_string()), true),
        Ok("/mac/Flash/Flash Player.app".to_string())
    );
    assert_eq!(
        get_flash_player_path(&config, &settings, Platform::Windows, Ok("/win".to_string()), false),
        Ok("/win/Flash/flashplayer_sa.exe".to_string())
    );
    assert_eq!(
        get_flash_player_path(&config, &settings, Platform::Linux, Err("no dir".to_string()), false),
        Err("no dir".to_string())
    );
}

#[test]
fn ruffle_path_choices() {
    let config = AppConfig::default();
    let mut settings = Settings::default();
    assert_eq!(
        get_ruffle_path(&config, &settings, Platform::Windows, Ok("/win".to_string()), false),
        Ok("/win/Ruffle/ruffle.exe".to_string())
    );
    settings.ruffle_path = Some("/usr/bin/ruffle".to_string());
    assert_eq!(
        get_ruffle_path(&config, &settings, Platform::Linux, app_dir(), true),
        Ok("/usr/bin/ruffle".to_string())
    );
    assert_eq!(
        get_ruffle_path(&config, &settings, Platform::Linux, app_dir(), false),
        Ok("/home/ash/.local/share/PTD Launcher/Ruffle/ruffle".to_string())
    );
}

#[test]
fn record_installs() {
    let config = AppConfig::default();
    let mut v = GameVersions::default();
    v.record_flash_install(&config, 1741776693);
    assert_eq!(v.flash_player, "32.0.0.465");
    assert_eq!(v.flash_installed_at, "2025-03-12T10:51:33Z");
    v.record_ruffle_install("nightly-2025-03-12".to_string(), 1741824000);
    assert_eq!(v.ruffle, "nightly-2025-03-12");
    assert_eq!(v.ruffle_installed_at, "2025-03-13T00:00:00Z");
    assert_eq!(v.flash_player, "32.0.0.465");
    v.record_game_version("PTD1".to_string(), "3.6.6".to_string());
    v.record_game_version("PTD1".to_string(), "3.6.7".to_string());
    assert_eq!(v.games.get("PTD1"), Some(&"3.6.7".to_string()));
    assert_eq!(v.games.len(), 1);
}

#[test]
fn install_dates() {
    let mut v = GameVersions::default();
    v.flash_installed_at = "2025-01-01T00:00:00Z".to_string();
    assert_eq!(flash_install_date(Ok(v)), "2025-01-01T00:00:00Z");
    assert_eq!(flash_install_date(Err("broken".to_string())), "");
    assert_eq!(ruffle_install_date(Ok(GameVersions::default())), "");
    assert_eq!(ruffle_install_date(Err("broken".to_string())), "");
}

#[test]
fn bundled_config_or_builtin() {
    let c = load_bundled_config(None).unwrap();
    assert_eq!(c.game_urls.len(), 6);
    assert_eq!(c.flash_player.fallback_version, "32.0.0.465");
    assert_eq!(load_bundled_config(Some(Err("bad json".to_string()))).unwrap_err(), "bad json");
    let mut urls = StringMap::new();
    urls.insert("PTD1".to_string(), "https://example.org/p.swf".to_string());
    let custom = AppConfig {
        flash_player: FlashPlayerConfig::default(),
        ruffle: RuffleConfig::default(),
        game_urls: urls,
    };
    let c = load_bundled_config(Some(Ok(custom))).unwrap();
    assert_eq!(c.game_urls.len(), 1);
}

#[test]
fn string_map_insert_get_and_pairs() {
    let mut m = StringMap::new();
    assert!(!m.contains_key("a"));
    m.insert("a".to_string(), "1".to_string());
    m.insert("b".to_string(), "2".to_string());
    m.insert("a".to_string(), "3".to_string());
    assert_eq!(m.get("a"), Some(&"3".to_string()));
    assert_eq!(m.get("b"), Some(&"2".to_string()));
    assert!(m.contains_key("b"));
    assert_eq!(m.len(), 2);
    let mut pairs = m.pairs().clone();
    pairs.sort();
    assert_eq!(pairs, vec![("a".to_string(), "3".to_string()), ("b".to_string(), "2".to_string())]);
}

#[test]
fn install_times_are_iso8601() {
    assert_eq!(install_time_text(0), "1970-01-01T00:00:00Z");
    assert_eq!(install_time_text(LAST_FOUR_DIGIT_YEAR_SECOND), "9999-12-31T23:59:59Z");
    assert_eq!(install_time_text(FIRST_FOUR_DIGIT_YEAR_SECOND), "0000-01-01T00:00:00Z");
    assert_eq!(install_time_text(-1), "1969-12-31T23:59:59Z");
}

#[test]
fn install_times_outside_four_digit_years_are_signed() {
    assert_eq!(install_time_text(LAST_FOUR_DIGIT_YEAR_SECOND + 1), "+10000-01-01T00:00:00Z");
    assert_eq!(install_time_text(FIRST_FOUR_DIGIT_YEAR_SECOND - 1), "-0001-12-31T23:59:59Z");
    assert_eq!(install_time_text(LATEST_UTC_SECOND), "+262142-12-31T23:59:59Z");
    assert_eq!(install_time_text(EARLIEST_UTC_SECOND), "-262143-01-01T00:00:00Z");
}

#[test]
fn data_directories_are_distinct_and_below_app_dir() {
    let dir = app_dir().unwrap();
    let games = get_games_dir(app_dir()).unwrap();
    let flash = get_flash_dir(app_dir()).unwrap();
    let ruffle = get_ruffle_dir(app_dir()).unwrap();
    for (p, name) in [(&games, "Games"), (&flash, "Flash"), (&ruffle, "Ruffle")] {
        assert_eq!(std::path::Path::new(p).parent(), Some(std::path::Path::new(&dir)));
        assert_eq!(std::path::Path::new(p).file_name().unwrap(), name);
    }
    assert!(games != flash && games != ruffle && flash != ruffle);
}
