use ptd_launcher::config::AppConfig;
use ptd_launcher::game::{
    base_url, find_game_path, game_download_url, latest_versioned_game, plan_launch,
    standard_game_path, GameFile,
};
use ptd_launcher::platform::Platform;

fn file(name: &str, modified: Option<u128>) -> GameFile {
    GameFile { name: name.to_string(), modified }
}

#[test]
fn standard_path_of_game() {
    assert_eq!(standard_game_path("/g", "PTD1"), "/g/PTD1.swf");
}

#[test]
fn latest_versioned_file_wins() {
    let files = vec![
        file("PTD1-v3.6.5.swf", Some(100)),
        file("PTD1-v3.6.6.swf", Some(300)),
        file("PTD1-v3.6.7.swf", Some(200)),
        file("PTD2-v9.swf", Some(900)),
        file("PTD1-v4.txt", Some(1000)),
        file("PTD1.swf", Some(5000)),
    ];
    assert_eq!(latest_versioned_game(&files, "PTD1"), Some(1));
}

#[test]
fn ties_keep_first_listed() {
    let files = vec![file("PTD1-va.swf", Some(7)), file("PTD1-vb.swf", Some(7))];
    assert_eq!(latest_versioned_game(&files, "PTD1"), Some(0));
}

#[test]
fn unreadable_or_epoch_times_are_skipped() {
    let files = vec![file("PTD1-va.swf", None), file("PTD1-vb.swf", Some(0))];
    assert_eq!(latest_versioned_game(&files, "PTD1"), None);
    assert_eq!(latest_versioned_game(&vec![], "PTD1"), None);
}

#[test]
fn find_prefers_standard_file() {
    let files = vec![file("PTD1-v3.swf", Some(10))];
    assert_eq!(
        find_game_path(Ok("/g".to_string()), "PTD1", true, Some(files)),
        Ok(Some("/g/PTD1.swf".to_string()))
    );
}

#[test]
fn find_versioned_file() {
    let files = vec![file("PTD1-v3.swf", Some(10)), file("PTD1-v4.swf", Some(20))];
    assert_eq!(
        find_game_path(Ok("/g".to_string()), "PTD1", false, Some(files)),
        Ok(Some("/g/PTD1-v4.swf".to_string()))
    );
}

#[test]
fn find_nothing() {
    assert_eq!(find_game_path(Ok("/g".to_string()), "PTD1", false, None), Ok(None));
    assert_eq!(find_game_path(Ok("/g".to_string()), "PTD1", false, Some(vec![])), Ok(None));
    assert_eq!(
        find_game_path(Err("no home".to_string()), "PTD1", true, None),
        Err("no home".to_string())
    );
}

#[test]
fn download_url_lookup() {
    let config = AppConfig::default();
    assert_eq!(
        game_download_url(&config.game_urls, "PTD2"),
        Ok("https://ptd.onl/ptd2-latest.swf".to_string())
    );
    assert_eq!(
        game_download_url(&config.game_urls, "PTD9"),
        Err("Game 'PTD9' not found in configuration".to_string())
    );
}

#[test]
fn base_url_keeps_trailing_slash() {
    assert_eq!(base_url("https://ptd.onl/ptd1-latest.swf"), "https://ptd.onl/");
    assert_eq!(base_url("no-slash"), "no-slash");
}

fn launch(
    platform: Platform,
    game_path: Result<Option<String>, String>,
    use_ruffle: bool,
    player: Result<String, String>,
    exists: bool,
    id: &str,
) -> Result<(String, Vec<String>), String> {
    let config = AppConfig::default();
    plan_launch(platform, id, game_path, use_ruffle, player, exists, &config.game_urls)
        .map(|c| (c.program, c.args))
}

#[test]
fn launch_with_ruffle() {
    let r = launch(
        Platform::Linux,
        Ok(Some("/g/PTD1.swf".to_string())),
        true,
        Ok("/r/ruffle".to_string()),
        true,
        "PTD1",
    );
    assert_eq!(
        r,
        Ok((
            "/r/ruffle".to_string(),
            vec![
                "/g/PTD1.swf".to_string(),
                "--spoof-url".to_string(),
                "https://ptd.onl/ptd1-latest.swf".to_string(),
                "--base".to_string(),
                "https://ptd.onl/".to_string(),
            ]
        ))
    );
}

#[test]
fn launch_with_flash_player() {
    let r = launch(Platform::Windows, Ok(Some("g.swf".to_string())), false, Ok("fp.exe".to_string()), true, "PTD2");
    assert_eq!(r, Ok(("fp.exe".to_string(), vec!["g.swf".to_string()])));
    let r = launch(Platform::MacOs, Ok(Some("g.swf".to_string())), false, Ok("/F/Flash Player.app".to_string()), true, "PTD2");
    assert_eq!(
        r,
        Ok(("open".to_string(), vec!["-a".to_string(), "/F/Flash Player.app".to_string(), "g.swf".to_string()]))
    );
}

#[test]
fn launch_errors_in_order() {
    assert_eq!(
        launch(Platform::Linux, Err("no dir".to_string()), true, Err("x".to_string()), false, "PTD1"),
        Err("no dir".to_string())
    );
    assert_eq!(
        launch(Platform::Linux, Ok(None), true, Ok("p".to_string()), true, "PTD1"),
        Err("Game 'PTD1' not found. Please download it first.".to_string())
    );
    assert_eq!(
        launch(Platform::Linux, Ok(Some("g".to_string())), true, Err("no player dir".to_string()), true, "PTD1"),
        Err("no player dir".to_string())
    );
    assert_eq!(
        launch(Platform::Linux, Ok(Some("g".to_string())), true, Ok("p".to_string()), false, "PTD1"),
        Err("Ruffle not installed. Please download it first.".to_string())
    );
    assert_eq!(
        launch(Platform::Linux, Ok(Some("g".to_string())), false, Ok("p".to_string()), false, "PTD1"),
        Err("Flash Player not installed. Please download it first.".to_string())
    );
    assert_eq!(
        launch(Platform::Linux, Ok(Some("g".to_string())), false, Ok("p".to_string()), true, "Custom"),
        Err("Game 'Custom' not found in configuration".to_string())
    );
}
