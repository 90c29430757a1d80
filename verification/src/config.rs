//! The launcher's configuration model: what config.json, version.json and
//! settings.json hold, their defaults, and where the launcher keeps its files.
use vstd::prelude::*;
use crate::path::{is_plain_name, is_verbatim, joined_path, lemma_placed_distinct, path_join, placed_in};
use crate::platform::Platform;
use crate::string_map::StringMap;
use crate::version::is_ascii_digit;

verus! {

broadcast use vstd::string::group_string_axioms;

/// Text views of a result whose sides are both `String`.
pub open spec fn text_result(r: Result<String, String>) -> Result<Seq<char>, Seq<char>> {
    match r {
        Ok(s) => Ok(s@),
        Err(e) => Err(e@),
    }
}

/// Text view of an optional `String`.
pub open spec fn text_option(o: Option<String>) -> Option<Seq<char>> {
    match o {
        Some(s) => Some(s@),
        None => None,
    }
}

/// Text views of a list of `String`s.
pub open spec fn text_seq(v: Seq<String>) -> Seq<Seq<char>> {
    v.map_values(|s: String| s@)
}

/// Flash player configuration per OS
#[derive(Debug)]
pub struct FlashPlayerOs {
    pub primary_url: String,
    pub fallback_url: Option<String>,
    pub filename: String,
}

/// Flash player configuration
#[derive(Debug)]
pub struct FlashPlayerConfig {
    pub fallback_version: String,
    pub windows: FlashPlayerOs,
    pub macos: FlashPlayerOs,
    pub linux: FlashPlayerOs,
}

/// Ruffle configuration per OS
#[derive(Debug)]
pub struct RuffleOs {
    pub url: String,
    pub filename: String,
}

/// Ruffle configuration
#[derive(Debug)]
pub struct RuffleConfig {
    pub windows: RuffleOs,
    pub macos: RuffleOs,
    pub linux: RuffleOs,
}

/// Main application configuration (loaded from config.json)
#[derive(Debug)]
pub struct AppConfig {
    pub flash_player: FlashPlayerConfig,
    pub ruffle: RuffleConfig,
    pub game_urls: StringMap,
}

/// Version tracking for games and flash player
#[derive(Debug)]
pub struct GameVersions {
    pub flash_player: String,
    pub ruffle: String,
    pub games: StringMap,
    /// ISO 8601 timestamp of when Flash Player was last installed/updated
    pub flash_installed_at: String,
    /// ISO 8601 timestamp of when Ruffle was last installed/updated
    pub ruffle_installed_at: String,
}

/// User settings (stored in settings.json)
#[derive(Debug)]
pub struct Settings {
    pub flash_player_path: Option<String>,
    pub use_ruffle: Option<bool>,
    pub ruffle_path: Option<String>,
    pub sound_enabled: Option<bool>,
}

impl FlashPlayerConfig {
    /// The entry for `platform`.
    pub open spec fn for_platform(self, platform: Platform) -> FlashPlayerOs {
        match platform {
            Platform::Windows => self.windows,
            Platform::MacOs => self.macos,
            Platform::Linux => self.linux,
        }
    }

    /// The entry for `platform`.
    pub fn select(&self, platform: Platform) -> (r: &FlashPlayerOs)
        ensures
            *r == self.for_platform(platform),
    {
        match platform {
            Platform::Windows => &self.windows,
            Platform::MacOs => &self.macos,
            Platform::Linux => &self.linux,
        }
    }

    /// The built-in Flash Player download locations.
    pub open spec fn is_builtin(self) -> bool {
        &&& self.fallback_version@ == "32.0.0.465"@
        &&& self.windows.primary_url@ == "https://www.flash.cn/cdm/latest/flashplayer_sa.exe"@
        &&& text_option(self.windows.fallback_url) == Some(
            "https://fpdownload.macromedia.com/pub/flashplayer/updaters/32/flashplayer_32_sa.exe"@,
        )
        &&& self.windows.filename@ == "flashplayer_sa.exe"@
        &&& self.macos.primary_url@
            == "https://fpdownload.macromedia.com/pub/flashplayer/updaters/32/flashplayer_32_sa.dmg"@
        &&& self.macos.fallback_url is None
        &&& self.macos.filename@ == "Flash Player.app"@
        &&& self.linux.primary_url@
            == "https://fpdownload.macromedia.com/pub/flashplayer/updaters/32/flash_player_sa_linux.x86_64.tar.gz"@
        &&& text_option(self.linux.fallback_url) == Some(
            "https://archive.org/download/flashplayer_standalone_projectors/flash_player_sa_linux.x86_64.tar.gz"@,
        )
        &&& self.linux.filename@ == "flashplayer"@
    }
}

impl Default for FlashPlayerConfig {
    fn default() -> (r: Self)
        ensures
            r.is_builtin(),
    {
        FlashPlayerConfig {
            fallback_version: String::from_str("32.0.0.465"),
            windows: FlashPlayerOs {
                primary_url: String::from_str("https://www.flash.cn/cdm/latest/flashplayer_sa.exe"),
                fallback_url: Some(
                    String::from_str(
                        "https://fpdownload.macromedia.com/pub/flashplayer/updaters/32/flashplayer_32_sa.exe",
                    ),
                ),
                filename: String::from_str("flashplayer_sa.exe"),
            },
            macos: FlashPlayerOs {
                primary_url: String::from_str(
                    "https://fpdownload.macromedia.com/pub/flashplayer/updaters/32/flashplayer_32_sa.dmg",
                ),
                fallback_url: None,
                filename: String::from_str("Flash Player.app"),
            },
            linux: FlashPlayerOs {
                primary_url: String::from_str(
                    "https://fpdownload.macromedia.com/pub/flashplayer/updaters/32/flash_player_sa_linux.x86_64.tar.gz",
                ),
                fallback_url: Some(
                    String::from_str(
                        "https://archive.org/download/flashplayer_standalone_projectors/flash_player_sa_linux.x86_64.tar.gz",
                    ),
                ),
                filename: String::from_str("flashplayer"),
            },
        }
    }
}

impl RuffleConfig {
    /// The entry for `platform`.
    pub open spec fn for_platform(self, platform: Platform) -> RuffleOs {
        match platform {
            Platform::Windows => self.windows,
            Platform::MacOs => self.macos,
            Platform::Linux => self.linux,
        }
    }

    /// The entry for `platform`.
    pub fn select(&self, platform: Platform) -> (r: &RuffleOs)
        ensures
            *r == self.for_platform(platform),
    {
        match platform {
            Platform::Windows => &self.windows,
            Platform::MacOs => &self.macos,
            Platform::Linux => &self.linux,
        }
    }

    /// The built-in Ruffle download locations, used when the latest nightly
    /// cannot be fetched.
    pub open spec fn is_builtin(self) -> bool {
        &&& self.windows.url@
            == "https://github.com/ruffle-rs/ruffle/releases/download/v0.3.0/ruffle-0.3.0-windows-x86_64.zip"@
        &&& self.windows.filename@ == "ruffle.exe"@
        &&& self.macos.url@
            == "https://github.com/ruffle-rs/ruffle/releases/download/v0.3.0/ruffle-0.3.0-macos-universal.tar.gz"@
        &&& self.macos.filename@ == "ruffle"@
        &&& self.linux.url@
            == "https://github.com/ruffle-rs/ruffle/releases/download/v0.3.0/ruffle-0.3.0-linux-x86_64.tar.gz"@
        &&& self.linux.filename@ == "ruffle"@
    }
}

impl Default for RuffleConfig {
    fn default() -> (r: Self)
        ensures
            r.is_builtin(),
    {
        RuffleConfig {
            windows: RuffleOs {
                url: String::from_str(
                    "https://github.com/ruffle-rs/ruffle/releases/download/v0.3.0/ruffle-0.3.0-windows-x86_64.zip",
                ),
                filename: String::from_str("ruffle.exe"),
            },
            macos: RuffleOs {
                url: String::from_str(
                    "https://github.com/ruffle-rs/ruffle/releases/download/v0.3.0/ruffle-0.3.0-macos-universal.tar.gz",
                ),
                filename: String::from_str("ruffle"),
            },
            linux: RuffleOs {
                url: String::from_str(
                    "https://github.com/ruffle-rs/ruffle/releases/download/v0.3.0/ruffle-0.3.0-linux-x86_64.tar.gz",
                ),
                filename: String::from_str("ruffle"),
            },
        }
    }
}

/// The built-in game download URLs.
pub open spec fn builtin_game_urls() -> Map<Seq<char>, Seq<char>> {
    map![
        "PTD1"@ => "https://ptd.onl/ptd1-latest.swf"@,
        "PTD1_Hacked"@ => "https://ptd.onl/ptd1-hacked-latest.swf"@,
        "PTD2"@ => "https://ptd.onl/ptd2-latest.swf"@,
        "PTD2_Hacked"@ => "https://ptd.onl/ptd2-hacked-latest.swf"@,
        "PTD3"@ => "https://ptd.onl/ptd3-latest.swf"@,
        "PTD3_Hacked"@ => "https://ptd.onl/ptd3-hacked-latest.swf"@,
    ]
}

impl AppConfig {
    /// The configuration the launcher falls back to without a config.json.
    pub open spec fn is_builtin(self) -> bool {
        &&& self.flash_player.is_builtin()
        &&& self.ruffle.is_builtin()
        &&& self.game_urls@ == builtin_game_urls()
    }
}

impl Default for AppConfig {
    fn default() -> (r: Self)
        ensures
            r.is_builtin(),
    {
        let mut game_urls = StringMap::new();
        game_urls.insert(String::from_str("PTD1"), String::from_str("https://ptd.onl/ptd1-latest.swf"));
        game_urls.insert(
            String::from_str("PTD1_Hacked"),
            String::from_str("https://ptd.onl/ptd1-hacked-latest.swf"),
        );
        game_urls.insert(String::from_str("PTD2"), String::from_str("https://ptd.onl/ptd2-latest.swf"));
        game_urls.insert(
            String::from_str("PTD2_Hacked"),
            String::from_str("https://ptd.onl/ptd2-hacked-latest.swf"),
        );
        game_urls.insert(String::from_str("PTD3"), String::from_str("https://ptd.onl/ptd3-latest.swf"));
        game_urls.insert(
            String::from_str("PTD3_Hacked"),
            String::from_str("https://ptd.onl/ptd3-hacked-latest.swf"),
        );
        assert(game_urls@ =~= builtin_game_urls());
        AppConfig {
            flash_player: FlashPlayerConfig::default(),
            ruffle: RuffleConfig::default(),
            game_urls,
        }
    }
}

impl Default for GameVersions {
    fn default() -> (r: Self)
        ensures
            r.flash_player@ == Seq::<char>::empty(),
            r.ruffle@ == Seq::<char>::empty(),
            r.games@ == Map::<Seq<char>, Seq<char>>::empty(),
            r.flash_installed_at@ == Seq::<char>::empty(),
            r.ruffle_installed_at@ == Seq::<char>::empty(),
    {
        GameVersions {
            flash_player: String::new(),
            ruffle: String::new(),
            games: StringMap::new(),
            flash_installed_at: String::new(),
            ruffle_installed_at: String::new(),
        }
    }
}

impl Default for Settings {
    fn default() -> (r: Self)
        ensures
            r.flash_player_path is None,
            r.use_ruffle is None,
            r.ruffle_path is None,
            r.sound_enabled is None,
    {
        Settings { flash_player_path: None, use_ruffle: None, ruffle_path: None, sound_enabled: None }
    }
}

// ----------------------------------------------------------------------------
// Where the launcher keeps its files
// ----------------------------------------------------------------------------

/// The launcher's data directory for `platform`, given what the environment
/// offers: `%APPDATA%` on Windows, the home directory elsewhere.
pub open spec fn app_dir_for(
    platform: Platform,
    appdata: Option<Seq<char>>,
    home: Option<Seq<char>>,
) -> Result<Seq<char>, Seq<char>> {
    match platform {
        Platform::Windows => match appdata {
            Some(p) => Ok(joined_path(p, "PTD Launcher"@)),
            None => Err("Failed to get APPDATA"@),
        },
        Platform::MacOs => match home {
            Some(h) => Ok(joined_path(h, "Library/Application Support/PTD Launcher"@)),
            None => Err("Failed to get home directory"@),
        },
        Platform::Linux => match home {
            Some(h) => Ok(joined_path(h, ".local/share/PTD Launcher"@)),
            None => Err("Failed to get home directory"@),
        },
    }
}

/// Get the application data directory based on OS, from the `APPDATA`
/// variable (Windows) or the home directory (macOS, Linux) that the caller
/// read from the environment.
pub fn resolve_app_dir(platform: Platform, appdata: Option<String>, home: Option<String>) -> (res:
    Result<String, String>)
    ensures
        text_result(res) == app_dir_for(platform, text_option(appdata), text_option(home)),
{
    match platform {
        Platform::Windows => match appdata {
            Some(p) => Ok(path_join(p.as_str(), "PTD Launcher")),
            None => Err(String::from_str("Failed to get APPDATA")),
        },
        Platform::MacOs => match home {
            Some(h) => Ok(path_join(h.as_str(), "Library/Application Support/PTD Launcher")),
            None => Err(String::from_str("Failed to get home directory")),
        },
        Platform::Linux => match home {
            Some(h) => Ok(path_join(h.as_str(), ".local/share/PTD Launcher")),
            None => Err(String::from_str("Failed to get home directory")),
        },
    }
}

/// When the application directory is not a verbatim (`\\?\`) path, `res`
/// holds `sub` placed directly in it.
pub open spec fn dir_placed(app_dir: Result<String, String>, res: Result<String, String>, sub: Seq<
    char,
>) -> bool {
    match app_dir {
        Ok(d) => !is_verbatim(d@) ==> (res matches Ok(r) && placed_in(r@, d@, sub)),
        Err(_) => true,
    }
}

/// The names of the three data directories are plain one-component names.
proof fn lemma_dir_names_plain()
    ensures
        is_plain_name("Games"@),
        is_plain_name("Flash"@),
        is_plain_name("Ruffle"@),
{
    reveal_strlit("Games");
    reveal_strlit("Flash");
    reveal_strlit("Ruffle");
    assert("Games"@.len() == 5 && "Flash"@.len() == 5 && "Ruffle"@.len() == 6);
}

/// The games, Flash and Ruffle directories, placed in one application
/// directory, are three different directories.
pub proof fn lemma_data_dirs_distinct(dir: Seq<char>, games: Seq<char>, flash: Seq<char>, ruffle: Seq<char>)
    requires
        placed_in(games, dir, "Games"@),
        placed_in(flash, dir, "Flash"@),
        placed_in(ruffle, dir, "Ruffle"@),
    ensures
        games != flash,
        games != ruffle,
        flash != ruffle,
{
    reveal_strlit("Games");
    reveal_strlit("Flash");
    reveal_strlit("Ruffle");
    lemma_placed_distinct(dir, games, "Games"@, flash, "Flash"@);
    lemma_placed_distinct(dir, games, "Games"@, ruffle, "Ruffle"@);
    lemma_placed_distinct(dir, flash, "Flash"@, ruffle, "Ruffle"@);
}

/// `sub` below the application directory, or the error that locating the
/// application directory gave.
pub open spec fn below_app_dir(app_dir: Result<String, String>, sub: Seq<char>) -> Result<
    Seq<char>,
    Seq<char>,
> {
    match app_dir {
        Ok(d) => Ok(joined_path(d@, sub)),
        Err(e) => Err(e@),
    }
}

fn join_below(app_dir: Result<String, String>, sub: &str) -> (res: Result<String, String>)
    ensures
        text_result(res) == below_app_dir(app_dir, sub@),
        is_plain_name(sub@) ==> dir_placed(app_dir, res, sub@),
{
    match app_dir {
        Ok(d) => Ok(path_join(d.as_str(), sub)),
        Err(e) => Err(e),
    }
}

/// Get the games directory path
pub fn get_games_dir(app_dir: Result<String, String>) -> (res: Result<String, String>)
    ensures
        text_result(res) == below_app_dir(app_dir, "Games"@),
        dir_placed(app_dir, res, "Games"@),
{
    proof {
        lemma_dir_names_plain();
    }
    join_below(app_dir, "Games")
}

/// Get the flash player directory path
pub fn get_flash_dir(app_dir: Result<String, String>) -> (res: Result<String, String>)
    ensures
        text_result(res) == below_app_dir(app_dir, "Flash"@),
        dir_placed(app_dir, res, "Flash"@),
{
    proof {
        lemma_dir_names_plain();
    }
    join_below(app_dir, "Flash")
}

/// Get the ruffle directory path
pub fn get_ruffle_dir(app_dir: Result<String, String>) -> (res: Result<String, String>)
    ensures
        text_result(res) == below_app_dir(app_dir, "Ruffle"@),
        dir_placed(app_dir, res, "Ruffle"@),
{
    proof {
        lemma_dir_names_plain();
    }
    join_below(app_dir, "Ruffle")
}

/// The player executable to use: the custom path from the settings when it
/// exists on disk, else `filename` in the player's directory `sub` below the
/// application directory.
pub open spec fn player_path(
    custom: Option<String>,
    custom_exists: bool,
    app_dir: Result<String, String>,
    sub: Seq<char>,
    filename: Seq<char>,
) -> Result<Seq<char>, Seq<char>> {
    if custom is Some && custom_exists {
        Ok(custom->0@)
    } else {
        match below_app_dir(app_dir, sub) {
            Ok(dir) => Ok(joined_path(dir, filename)),
            Err(e) => Err(e),
        }
    }
}

fn choose_player_path(
    custom: &Option<String>,
    custom_exists: bool,
    app_dir: Result<String, String>,
    sub: &str,
    filename: &String,
) -> (res: Result<String, String>)
    ensures
        text_result(res) == player_path(*custom, custom_exists, app_dir, sub@, filename@),
{
    if let Some(c) = custom {
        if custom_exists {
            return Ok(c.clone());
        }
    }
    match join_below(app_dir, sub) {
        Ok(dir) => Ok(path_join(dir.as_str(), filename.as_str())),
        Err(e) => Err(e),
    }
}

/// Get the flash player executable path based on OS and settings.
/// `custom_path_exists` tells whether the settings' custom path exists on disk.
pub fn get_flash_player_path(
    config: &AppConfig,
    settings: &Settings,
    platform: Platform,
    app_dir: Result<String, String>,
    custom_path_exists: bool,
) -> (res: Result<String, String>)
    ensures
        text_result(res) == player_path(
            settings.flash_player_path,
            custom_path_exists,
            app_dir,
            "Flash"@,
            config.flash_player.for_platform(platform).filename@,
        ),
{
    let os = config.flash_player.select(platform);
    choose_player_path(&settings.flash_player_path, custom_path_exists, app_dir, "Flash", &os.filename)
}

/// Get the ruffle executable path based on OS and settings.
/// `custom_path_exists` tells whether the settings' custom path exists on disk.
pub fn get_ruffle_path(
    config: &AppConfig,
    settings: &Settings,
    platform: Platform,
    app_dir: Result<String, String>,
    custom_path_exists: bool,
) -> (res: Result<String, String>)
    ensures
        text_result(res) == player_path(
            settings.ruffle_path,
            custom_path_exists,
            app_dir,
            "Ruffle"@,
            config.ruffle.for_platform(platform).filename@,
        ),
{
    let os = config.ruffle.select(platform);
    choose_player_path(&settings.ruffle_path, custom_path_exists, app_dir, "Ruffle", &os.filename)
}

// ----------------------------------------------------------------------------
// Recording installs and reading settings
// ----------------------------------------------------------------------------

/// The text chrono gives for the UTC time `unix` seconds after the epoch
/// with the strftime pattern `pattern`: `DateTime::from_timestamp(unix, 0)`
/// formatted with `pattern`; `None` when chrono cannot represent that time.
pub uninterp spec fn utc_formatted(unix: i64, pattern: Seq<char>) -> Option<Seq<char>>;

/// The first second of year 0 (1 BCE): 0000-01-01T00:00:00Z.
pub const FIRST_FOUR_DIGIT_YEAR_SECOND: i64 = -62167219200;

/// The last second of year 9999: 9999-12-31T23:59:59Z.
pub const LAST_FOUR_DIGIT_YEAR_SECOND: i64 = 253402300799;

/// The first second chrono represents: -262143-01-01T00:00:00Z.
pub const EARLIEST_UTC_SECOND: i64 = -8334601228800;

/// The last second chrono represents: +262142-12-31T23:59:59Z.
pub const LATEST_UTC_SECOND: i64 = 8210266876799;

/// `s` reads `YYYY-MM-DDThh:mm:ssZ`, an ISO 8601 UTC time to the second.
pub open spec fn is_utc_iso8601(s: Seq<char>) -> bool {
    &&& s.len() == 20
    &&& s[4] == '-' && s[7] == '-' && s[10] == 'T'
    &&& s[13] == ':' && s[16] == ':' && s[19] == 'Z'
    &&& forall|i: int|
        0 <= i < 20 && i != 4 && i != 7 && i != 10 && i != 13 && i != 16 && i != 19
            ==> is_ascii_digit(#[trigger] s[i])
}

/// Formats the UTC time `unix` with chrono: `DateTime::from_timestamp(unix, 0)`,
/// then `format(pattern)` as text.
///
/// Trusted: the result is `utc_formatted(unix, pattern)`. There is a value
/// exactly when the time lies in chrono's range, the years -262143 to 262142
/// (`from_timestamp` returns `None` outside it). For a time in years 0 to
/// 9999 the value has the shape `YYYY-MM-DDThh:mm:ssZ`: `%Y` is the year
/// zero-padded to 4 digits, `%m`, `%d`, `%H`, `%M`, `%S` two digits each.
/// Which date the digits spell, and the signed year that other times get,
/// are not stated. Only the ISO 8601 pattern is admitted: with an invalid one,
/// turning the formatted value into text panics.
#[verifier::external_body]
fn format_utc(unix: i64, pattern: &str) -> (res: Option<String>)
    requires
        pattern@ == "%Y-%m-%dT%H:%M:%SZ"@,
    ensures
        text_option(res) == utc_formatted(unix, pattern@),
        res is Some <==> EARLIEST_UTC_SECOND <= unix <= LATEST_UTC_SECOND,
        FIRST_FOUR_DIGIT_YEAR_SECOND <= unix <= LAST_FOUR_DIGIT_YEAR_SECOND ==> res is Some
            && is_utc_iso8601(res->0@),
{
    match chrono::DateTime::from_timestamp(unix, 0) {
        Some(dt) => Some(dt.format(pattern).to_string()),
        None => None,
    }
}

/// The install time recorded for the UTC time `unix` (seconds after the
/// epoch), as ISO 8601 text: `YYYY-MM-DDThh:mm:ssZ` in the years 0 to 9999.
pub fn install_time_text(unix: i64) -> (res: String)
    requires
        EARLIEST_UTC_SECOND <= unix <= LATEST_UTC_SECOND,
    ensures
        Some(res@) == utc_formatted(unix, "%Y-%m-%dT%H:%M:%SZ"@),
        FIRST_FOUR_DIGIT_YEAR_SECOND <= unix <= LAST_FOUR_DIGIT_YEAR_SECOND ==> is_utc_iso8601(
            res@,
        ),
{
    match format_utc(unix, "%Y-%m-%dT%H:%M:%SZ") {
        Some(s) => s,
        None => {
            proof {
                assert(false);
            }
            String::new()
        },
    }
}

impl GameVersions {
    /// Records that Flash Player was installed at the UTC time
    /// `installed_unix`: the stored Flash version becomes the configured
    /// fallback version, and the install time its ISO 8601 text.
    pub fn record_flash_install(&mut self, config: &AppConfig, installed_unix: i64)
        requires
            EARLIEST_UTC_SECOND <= installed_unix <= LATEST_UTC_SECOND,
        ensures
            final(self).flash_player@ == config.flash_player.fallback_version@,
            Some(final(self).flash_installed_at@) == utc_formatted(
                installed_unix,
                "%Y-%m-%dT%H:%M:%SZ"@,
            ),
            FIRST_FOUR_DIGIT_YEAR_SECOND <= installed_unix <= LAST_FOUR_DIGIT_YEAR_SECOND
                ==> is_utc_iso8601(final(self).flash_installed_at@),
            final(self).ruffle == old(self).ruffle,
            final(self).ruffle_installed_at == old(self).ruffle_installed_at,
            final(self).games@ == old(self).games@,
    {
        self.flash_player = config.flash_player.fallback_version.clone();
        self.flash_installed_at = install_time_text(installed_unix);
    }

    /// Records that Ruffle `version_tag` was installed at the UTC time
    /// `installed_unix`, kept as ISO 8601 text.
    pub fn record_ruffle_install(&mut self, version_tag: String, installed_unix: i64)
        requires
            EARLIEST_UTC_SECOND <= installed_unix <= LATEST_UTC_SECOND,
        ensures
            final(self).ruffle@ == version_tag@,
            Some(final(self).ruffle_installed_at@) == utc_formatted(
                installed_unix,
                "%Y-%m-%dT%H:%M:%SZ"@,
            ),
            FIRST_FOUR_DIGIT_YEAR_SECOND <= installed_unix <= LAST_FOUR_DIGIT_YEAR_SECOND
                ==> is_utc_iso8601(final(self).ruffle_installed_at@),
            final(self).flash_player == old(self).flash_player,
            final(self).flash_installed_at == old(self).flash_installed_at,
            final(self).games@ == old(self).games@,
    {
        self.ruffle = version_tag;
        self.ruffle_installed_at = install_time_text(installed_unix);
    }

    /// Records that version `version` of game `game_id` was downloaded.
    pub fn record_game_version(&mut self, game_id: String, version: String)
        ensures
            final(self).games@ == old(self).games@.insert(game_id@, version@),
            final(self).flash_player == old(self).flash_player,
            final(self).ruffle == old(self).ruffle,
            final(self).flash_installed_at == old(self).flash_installed_at,
            final(self).ruffle_installed_at == old(self).ruffle_installed_at,
    {
        self.games.insert(game_id, version);
    }
}

/// When Flash Player was installed (ISO 8601), from the stored versions; empty
/// when they could not be loaded or Flash Player was never installed.
pub fn flash_install_date(versions: Result<GameVersions, String>) -> (res: String)
    ensures
        res@ == match versions {
            Ok(v) => v.flash_installed_at@,
            Err(_) => Seq::<char>::empty(),
        },
{
    match versions {
        Ok(v) => v.flash_installed_at,
        Err(_) => String::new(),
    }
}

/// When Ruffle was installed (ISO 8601), from the stored versions; empty when
/// they could not be loaded or Ruffle was never installed.
pub fn ruffle_install_date(versions: Result<GameVersions, String>) -> (res: String)
    ensures
        res@ == match versions {
            Ok(v) => v.ruffle_installed_at@,
            Err(_) => Seq::<char>::empty(),
        },
{
    match versions {
        Ok(v) => v.ruffle_installed_at,
        Err(_) => String::new(),
    }
}

impl Settings {
    /// Whether games are played with Ruffle rather than Flash Player (Flash
    /// Player unless the settings say otherwise).
    pub fn prefers_ruffle(&self) -> (res: bool)
        ensures
            res == (self.use_ruffle == Some(true)),
    {
        match self.use_ruffle {
            Some(b) => b,
            None => false,
        }
    }
}

/// The configuration to run with: what the bundled config.json gave when the
/// file is present (`Some`), else the built-in configuration.
pub fn load_bundled_config(bundled: Option<Result<AppConfig, String>>) -> (res: Result<
    AppConfig,
    String,
>)
    ensures
        bundled is Some ==> res == bundled->0,
        bundled is None ==> (res matches Ok(c) && c.is_builtin()),
{
    match bundled {
        Some(loaded) => loaded,
        None => Ok(AppConfig::default()),
    }
}

} // verus!
