//! Finding, downloading and launching games.
use vstd::prelude::*;
use crate::config::text_option;
use crate::path::{joined_path, path_join};
use crate::platform::Platform;
use crate::string_map::StringMap;
use crate::text::{
    chars_of, ends_with, ends_with_exec, last_index_of_exec, lemma_last_index_of, starts_with,
    starts_with_exec, through_last,
};

verus! {

broadcast use vstd::string::group_string_axioms;

/// The file name a game is saved under: `<game_id>.swf`.
pub open spec fn standard_file_name(game_id: Seq<char>) -> Seq<char> {
    game_id + ".swf"@
}

/// Where a game is saved: `<games_dir>/<game_id>.swf`.
pub fn standard_game_path(games_dir: &str, game_id: &str) -> (res: String)
    ensures
        res@ == joined_path(games_dir@, standard_file_name(game_id@)),
{
    let mut name = String::from_str(game_id);
    name.append(".swf");
    path_join(games_dir, name.as_str())
}

/// A file found in the games directory.
#[derive(Debug)]
pub struct GameFile {
    /// Its name.
    pub name: String,
    /// When it was last modified, in nanoseconds after the Unix epoch; `None`
    /// when that cannot be read or lies before the epoch.
    pub modified: Option<u128>,
}

/// `name` is a versioned file of `game_id`: `<game_id>-v…​.swf`.
pub open spec fn is_versioned_file(name: Seq<char>, game_id: Seq<char>) -> bool {
    starts_with(name, game_id + "-v"@) && ends_with(name, ".swf"@)
}

/// `name` is `<game_id>-v…​.swf`, said character by character: the game's
/// id, then `-v`, and the name ends in `.swf`.
pub open spec fn versioned_name_of(name: Seq<char>, game_id: Seq<char>) -> bool {
    let n = game_id.len() as int;
    &&& name.len() >= n + 2
    &&& forall|k: int| 0 <= k < n ==> #[trigger] name[k] == game_id[k]
    &&& name[n] == '-'
    &&& name[n + 1] == 'v'
    &&& name.len() >= 4
    &&& name[name.len() - 4] == '.'
    &&& name[name.len() - 3] == 's'
    &&& name[name.len() - 2] == 'w'
    &&& name[name.len() - 1] == 'f'
}

/// The two descriptions of a versioned file name agree.
proof fn lemma_versioned_name(name: Seq<char>, game_id: Seq<char>)
    ensures
        is_versioned_file(name, game_id) <==> versioned_name_of(name, game_id),
{
    reveal_strlit("-v");
    reveal_strlit(".swf");
    let n = game_id.len() as int;
    let pre = game_id + "-v"@;
    if is_versioned_file(name, game_id) {
        assert forall|k: int| 0 <= k < n implies #[trigger] name[k] == game_id[k] by {
            assert(name.take(pre.len() as int)[k] == pre[k]);
        }
        assert(name.take(pre.len() as int)[n] == pre[n]);
        assert(name.take(pre.len() as int)[n + 1] == pre[n + 1]);
        let suf = name.skip(name.len() - 4);
        assert(suf[0] == ".swf"@[0] && suf[1] == ".swf"@[1] && suf[2] == ".swf"@[2] && suf[3]
            == ".swf"@[3]);
    }
    if versioned_name_of(name, game_id) {
        assert(name.take(pre.len() as int) =~= pre);
        assert(name.skip(name.len() - 4) =~= ".swf"@);
    }
}

/// The modification time that makes `f` a candidate, or 0 when it is none:
/// a versioned file of `game_id` modified after the epoch.
pub open spec fn candidate_time(f: GameFile, game_id: Seq<char>) -> u128 {
    if is_versioned_file(f.name@, game_id) && f.modified is Some {
        f.modified->0
    } else {
        0
    }
}

/// The versioned file to use: the candidate modified last; among equally
/// recent ones, the one listed first.
pub open spec fn latest_pick(files: Seq<GameFile>, game_id: Seq<char>, i: int) -> bool {
    &&& 0 <= i < files.len()
    &&& candidate_time(files[i], game_id) > 0
    &&& forall|j: int|
        0 <= j < files.len() ==> #[trigger] candidate_time(files[j], game_id) <= candidate_time(
            files[i],
            game_id,
        )
    &&& forall|j: int|
        0 <= j < i ==> #[trigger] candidate_time(files[j], game_id) < candidate_time(
            files[i],
            game_id,
        )
}

/// Picks, among the files of the games directory, the versioned file of
/// `game_id` that was modified last.
pub fn latest_versioned_game(files: &Vec<GameFile>, game_id: &str) -> (res: Option<usize>)
    ensures
        match res {
            Some(i) => latest_pick(files@, game_id@, i as int),
            None => forall|j: int|
                0 <= j < files@.len() ==> #[trigger] candidate_time(files@[j], game_id@) == 0,
        },
        picks_latest_versioned(
            files@,
            game_id@,
            match res {
                Some(i) => Some(i as int),
                None => None,
            },
        ),
{
    proof {
        lemma_latest_pick_versioned(files@, game_id@);
    }
    let mut prefix = String::from_str(game_id);
    prefix.append("-v");
    let prefix_chars = chars_of(prefix.as_str());
    let suffix = chars_of(".swf");
    let mut best: Option<usize> = None;
    let mut best_time: u128 = 0;
    let mut i: usize = 0;
    while i < files.len()
        invariant
            i <= files@.len(),
            prefix_chars@ == game_id@ + "-v"@,
            suffix@ == ".swf"@,
            match best {
                Some(b) => b < i && best_time == candidate_time(files@[b as int], game_id@)
                    && best_time > 0,
                None => best_time == 0,
            },
            forall|j: int|
                0 <= j < i ==> #[trigger] candidate_time(files@[j], game_id@) <= best_time,
            best matches Some(b) ==> forall|j: int|
                0 <= j < b ==> #[trigger] candidate_time(files@[j], game_id@) < best_time,
        decreases files@.len() - i,
    {
        let f = &files[i];
        let name = chars_of(f.name.as_str());
        let t: u128 = if starts_with_exec(name.as_slice(), prefix_chars.as_slice())
            && ends_with_exec(name.as_slice(), suffix.as_slice()) {
            match f.modified {
                Some(m) => m,
                None => 0,
            }
        } else {
            0
        };
        assert(t == candidate_time(files@[i as int], game_id@));
        if t > best_time {
            best = Some(i);
            best_time = t;
        }
        i = i + 1;
    }
    best
}

/// What a pick among the files of the games directory means for `game_id`:
/// a picked file is named `<game_id>-v…​.swf` and has a modification time
/// after the epoch no earlier than that of any other such file, and later than
/// that of any such file listed before it; with no pick,
/// no such file has a modification time after the epoch.
pub open spec fn picks_latest_versioned(files: Seq<GameFile>, game_id: Seq<char>, pick: Option<
    int,
>) -> bool {
    match pick {
        Some(i) => {
            &&& 0 <= i < files.len()
            &&& versioned_name_of(files[i].name@, game_id)
            &&& files[i].modified matches Some(t) && t > 0
            &&& forall|j: int|
                0 <= j < files.len() && versioned_name_of(#[trigger] files[j].name@, game_id)
                    && files[j].modified is Some ==> files[j].modified->0 <= files[i].modified->0
            &&& forall|j: int|
                0 <= j < i && versioned_name_of(#[trigger] files[j].name@, game_id)
                    && files[j].modified is Some ==> files[j].modified->0 < files[i].modified->0
        },
        None => forall|j: int|
            0 <= j < files.len() && versioned_name_of(#[trigger] files[j].name@, game_id)
                ==> files[j].modified is None || files[j].modified == Some(0u128),
    }
}

/// A file is picked for a game only when its name is that game's id followed
/// by `-v` and ending in `.swf` (a file of another game, or the game's own
/// standard file, never is), and the pick is the most recently modified such
/// file, the first listed among equally recent ones; no pick means no such
/// file was modified after the epoch.
pub proof fn lemma_latest_pick_versioned(files: Seq<GameFile>, game_id: Seq<char>)
    ensures
        forall|i: int|
            latest_pick(files, game_id, i) ==> #[trigger] picks_latest_versioned(
                files,
                game_id,
                Some(i),
            ),
        (forall|j: int| 0 <= j < files.len() ==> #[trigger] candidate_time(files[j], game_id) == 0)
            ==> picks_latest_versioned(files, game_id, None),
{
    assert forall|j: int| 0 <= j < files.len() implies (is_versioned_file(
        #[trigger] files[j].name@,
        game_id,
    ) <==> versioned_name_of(files[j].name@, game_id)) by {
        lemma_versioned_name(files[j].name@, game_id);
    }
    assert forall|i: int| latest_pick(files, game_id, i) implies #[trigger] picks_latest_versioned(
        files,
        game_id,
        Some(i),
    ) by {
        assert(candidate_time(files[i], game_id) > 0);
        assert forall|j: int|
            0 <= j < files.len() && versioned_name_of(#[trigger] files[j].name@, game_id)
                && files[j].modified is Some implies files[j].modified->0
            <= files[i].modified->0 by {
            assert(candidate_time(files[j], game_id) <= candidate_time(files[i], game_id));
        }
        assert forall|j: int|
            0 <= j < i && versioned_name_of(#[trigger] files[j].name@, game_id)
                && files[j].modified is Some implies files[j].modified->0
            < files[i].modified->0 by {
            assert(candidate_time(files[j], game_id) < candidate_time(files[i], game_id));
        }
    }
    if forall|j: int| 0 <= j < files.len() ==> #[trigger] candidate_time(files[j], game_id) == 0 {
        assert forall|j: int|
            0 <= j < files.len() && versioned_name_of(#[trigger] files[j].name@, game_id)
                implies files[j].modified is None || files[j].modified == Some(0u128) by {
            assert(candidate_time(files[j], game_id) == 0);
        }
    }
}

/// Where a game is found: its standard file when it exists, else the most
/// recently modified versioned file in the games directory.
pub open spec fn found_game(
    games_dir: Result<String, String>,
    game_id: Seq<char>,
    standard_exists: bool,
    listing: Option<Seq<GameFile>>,
) -> Result<Option<Seq<char>>, Seq<char>> {
    match games_dir {
        Err(e) => Err(e@),
        Ok(dir) => if standard_exists {
            Ok(Some(joined_path(dir@, standard_file_name(game_id))))
        } else {
            match listing {
                Some(files) => if exists|i: int| latest_pick(files, game_id, i) {
                    Ok(
                        Some(
                            joined_path(
                                dir@,
                                files[choose|i: int| latest_pick(files, game_id, i)].name@,
                            ),
                        ),
                    )
                } else {
                    Ok(None)
                },
                None => Ok(None),
            }
        },
    }
}

/// Where a game is found, said of the directory's files: with its standard
/// file missing, a found path is the games directory joined with the name of a
/// file `<game_id>-v…​.swf` modified no earlier than any other such file, and
/// nothing is found exactly when no such file was modified after the epoch.
pub proof fn lemma_found_game(dir: String, game_id: Seq<char>, files: Seq<GameFile>)
    ensures
        match found_game(Ok(dir), game_id, false, Some(files)) {
            Ok(Some(p)) => exists|i: int|
                #[trigger] picks_latest_versioned(files, game_id, Some(i)) && p == joined_path(
                    dir@,
                    files[i].name@,
                ),
            Ok(None) => picks_latest_versioned(files, game_id, None),
            Err(_) => false,
        },
{
    lemma_latest_pick_versioned(files, game_id);
    if exists|i: int| latest_pick(files, game_id, i) {
        let c = choose|i: int| latest_pick(files, game_id, i);
        assert(picks_latest_versioned(files, game_id, Some(c)));
    } else {
        assert forall|j: int| 0 <= j < files.len() implies #[trigger] candidate_time(
            files[j],
            game_id,
        ) == 0 by {
            if candidate_time(files[j], game_id) > 0 {
                let i = lemma_latest_in_prefix(files, game_id, files.len() as int, j);
                assert(latest_pick(files, game_id, i));
            }
        }
    }
}

/// Among the first `n` files, one with a positive candidate time has a first
/// file of greatest candidate time.
proof fn lemma_latest_in_prefix(files: Seq<GameFile>, game_id: Seq<char>, n: int, j: int) -> (i: int)
    requires
        0 <= j < n <= files.len(),
        candidate_time(files[j], game_id) > 0,
    ensures
        0 <= i < n,
        candidate_time(files[i], game_id) > 0,
        forall|k: int| 0 <= k < n ==> #[trigger] candidate_time(files[k], game_id) <= candidate_time(
            files[i],
            game_id,
        ),
        forall|k: int| 0 <= k < i ==> #[trigger] candidate_time(files[k], game_id) < candidate_time(
            files[i],
            game_id,
        ),
    decreases n,
{
    if j == n - 1 {
        if exists|k: int| 0 <= k < n - 1 && #[trigger] candidate_time(files[k], game_id) > 0 {
            let k = choose|k: int| 0 <= k < n - 1 && #[trigger] candidate_time(files[k], game_id) > 0;
            let b = lemma_latest_in_prefix(files, game_id, n - 1, k);
            if candidate_time(files[n - 1], game_id) > candidate_time(files[b], game_id) {
                n - 1
            } else {
                b
            }
        } else {
            n - 1
        }
    } else {
        let b = lemma_latest_in_prefix(files, game_id, n - 1, j);
        if candidate_time(files[n - 1], game_id) > candidate_time(files[b], game_id) {
            n - 1
        } else {
            b
        }
    }
}

/// The listing as far as it could be read.
pub open spec fn listing_view(listing: Option<Vec<GameFile>>) -> Option<Seq<GameFile>> {
    match listing {
        Some(v) => Some(v@),
        None => None,
    }
}

/// Text view of a found game path.
pub open spec fn found_view(r: Result<Option<String>, String>) -> Result<Option<Seq<char>>, Seq<
    char,
>> {
    match r {
        Ok(o) => Ok(text_option(o)),
        Err(e) => Err(e@),
    }
}

/// Finds where game `game_id` is saved, given the games directory, whether
/// its standard file exists, and the directory's files (`None` when the
/// directory could not be read).
pub fn find_game_path(
    games_dir: Result<String, String>,
    game_id: &str,
    standard_exists: bool,
    listing: Option<Vec<GameFile>>,
) -> (res: Result<Option<String>, String>)
    ensures
        found_view(res) == found_game(games_dir, game_id@, standard_exists, listing_view(listing)),
{
    let dir = match games_dir {
        Err(e) => {
            return Err(e);
        },
        Ok(d) => d,
    };
    if standard_exists {
        return Ok(Some(standard_game_path(dir.as_str(), game_id)));
    }
    match listing {
        None => Ok(None),
        Some(files) => match latest_versioned_game(&files, game_id) {
            Some(i) => {
                proof {
                    let c = choose|k: int| latest_pick(files@, game_id@, k);
                    assert(latest_pick(files@, game_id@, i as int));
                    if c != i {
                        if c < i {
                            assert(candidate_time(files@[c], game_id@) < candidate_time(
                                files@[i as int],
                                game_id@,
                            ));
                        } else {
                            assert(candidate_time(files@[i as int], game_id@) < candidate_time(
                                files@[c],
                                game_id@,
                            ));
                        }
                    }
                }
                Ok(Some(path_join(dir.as_str(), files[i].name.as_str())))
            },
            None => {
                assert(forall|k: int| !latest_pick(files@, game_id@, k));
                Ok(None)
            },
        },
    }
}

/// The download URL configured for `game_id`.
pub fn game_download_url(game_urls: &StringMap, game_id: &str) -> (res: Result<String, String>)
    ensures
        game_urls@.contains_key(game_id@) ==> (res matches Ok(u) && u@ == game_urls@[game_id@]),
        !game_urls@.contains_key(game_id@) ==> (res matches Err(e) && e@ == "Game '"@ + game_id@
            + "' not found in configuration"@),
{
    match game_urls.get(game_id) {
        Some(u) => Ok(u.clone()),
        None => {
            let mut msg = String::from_str("Game '");
            msg.append(game_id);
            msg.append("' not found in configuration");
            Err(msg)
        },
    }
}

/// The base URL of a game: its URL up to and including the last `/`, or the
/// whole URL when it has none.
pub open spec fn base_url_of(url: Seq<char>) -> Seq<char> {
    match through_last(url, '/') {
        Some(b) => b,
        None => url,
    }
}

/// The base URL of a game, which Ruffle is given alongside the game.
pub fn base_url(game_url: &str) -> (res: String)
    ensures
        res@ == base_url_of(game_url@),
{
    let chars = chars_of(game_url);
    proof {
        lemma_last_index_of(chars@, '/');
    }
    match last_index_of_exec(chars.as_slice(), '/') {
        Some(k) => {
            assert(k < chars.len());
            assert(game_url@.subrange(0, k + 1) =~= game_url@.take(k + 1));
            String::from_str(game_url.substring_char(0, k + 1))
        },
        None => String::from_str(game_url),
    }
}

/// A program to start, with its arguments.
pub struct LaunchCommand {
    pub program: String,
    pub args: Vec<String>,
}

/// The command that plays `game` with `player`: Ruffle gets the game's URL
/// and base URL; Flash Player on macOS is an application bundle started with
/// `open -a`.
pub open spec fn launch_command_ok(
    cmd: LaunchCommand,
    platform: Platform,
    use_ruffle: bool,
    player: Seq<char>,
    game: Seq<char>,
    game_url: Seq<char>,
) -> bool {
    let args = cmd.args@.map_values(|a: String| a@);
    if use_ruffle {
        &&& cmd.program@ == player
        &&& args == seq![game, "--spoof-url"@, game_url, "--base"@, base_url_of(game_url)]
    } else if platform == Platform::MacOs {
        &&& cmd.program@ == "open"@
        &&& args == seq!["-a"@, player, game]
    } else {
        &&& cmd.program@ == player
        &&& args == seq![game]
    }
}

/// A game played with Ruffle is started the same way on every platform,
/// macOS included: the program is the Ruffle executable itself, given the
/// game, `--spoof-url` with the game's URL, and `--base` with its base URL.
pub proof fn lemma_ruffle_launch(
    cmd: LaunchCommand,
    platform: Platform,
    player: Seq<char>,
    game: Seq<char>,
    game_url: Seq<char>,
)
    requires
        launch_command_ok(cmd, platform, true, player, game, game_url),
    ensures
        cmd.program@ == player,
        cmd.args@.len() == 5,
        cmd.args@[0]@ == game,
        cmd.args@[1]@ == "--spoof-url"@,
        cmd.args@[2]@ == game_url,
        cmd.args@[3]@ == "--base"@,
        cmd.args@[4]@ == base_url_of(game_url),
        forall|other: Platform| launch_command_ok(cmd, other, true, player, game, game_url),
{
    let args = cmd.args@.map_values(|a: String| a@);
    assert(args.len() == cmd.args@.len());
    assert(args[0] == cmd.args@[0]@);
    assert(args[1] == cmd.args@[1]@);
    assert(args[2] == cmd.args@[2]@);
    assert(args[3] == cmd.args@[3]@);
    assert(args[4] == cmd.args@[4]@);
}

/// A game played with Flash Player is opened with `open -a <player> <game>`
/// on macOS, where the player is an application bundle, and elsewhere by
/// running the player on the game alone.
pub proof fn lemma_flash_launch(
    cmd: LaunchCommand,
    platform: Platform,
    player: Seq<char>,
    game: Seq<char>,
    game_url: Seq<char>,
)
    requires
        launch_command_ok(cmd, platform, false, player, game, game_url),
    ensures
        platform == Platform::MacOs ==> {
            &&& cmd.program@ == "open"@
            &&& cmd.args@.len() == 3
            &&& cmd.args@[0]@ == "-a"@
            &&& cmd.args@[1]@ == player
            &&& cmd.args@[2]@ == game
        },
        platform != Platform::MacOs ==> {
            &&& cmd.program@ == player
            &&& cmd.args@.len() == 1
            &&& cmd.args@[0]@ == game
        },
{
    let args = cmd.args@.map_values(|a: String| a@);
    assert(args.len() == cmd.args@.len());
    if platform == Platform::MacOs {
        assert(args[0] == cmd.args@[0]@);
        assert(args[1] == cmd.args@[1]@);
        assert(args[2] == cmd.args@[2]@);
    } else {
        assert(args[0] == cmd.args@[0]@);
    }
}

/// Why a game cannot be launched, if it cannot.
pub open spec fn launch_error(
    game_id: Seq<char>,
    game_path: Result<Option<String>, String>,
    use_ruffle: bool,
    player_path: Result<String, String>,
    player_exists: bool,
    game_urls: Map<Seq<char>, Seq<char>>,
) -> Option<Seq<char>> {
    match game_path {
        Err(e) => Some(e@),
        Ok(None) => Some("Game '"@ + game_id + "' not found. Please download it first."@),
        Ok(Some(_)) => match player_path {
            Err(e) => Some(e@),
            Ok(_) => if !player_exists {
                if use_ruffle {
                    Some("Ruffle not installed. Please download it first."@)
                } else {
                    Some("Flash Player not installed. Please download it first."@)
                }
            } else if !game_urls.contains_key(game_id) {
                Some("Game '"@ + game_id + "' not found in configuration"@)
            } else {
                None
            },
        },
    }
}

/// Decides how game `game_id` is launched: `game_path` is where it was found,
/// `player_path` the player chosen by `use_ruffle`, `player_exists` whether
/// that player is on disk.
pub fn plan_launch(
    platform: Platform,
    game_id: &str,
    game_path: Result<Option<String>, String>,
    use_ruffle: bool,
    player_path: Result<String, String>,
    player_exists: bool,
    game_urls: &StringMap,
) -> (res: Result<LaunchCommand, String>)
    ensures
        match launch_error(
            game_id@,
            game_path,
            use_ruffle,
            player_path,
            player_exists,
            game_urls@,
        ) {
            Some(e) => res matches Err(r) && r@ == e,
            None => res matches Ok(cmd) && launch_command_ok(
                cmd,
                platform,
                use_ruffle,
                player_path->Ok_0@,
                game_path->Ok_0->0@,
                game_urls@[game_id@],
            ),
        },
{
    let game = match game_path {
        Err(e) => {
            return Err(e);
        },
        Ok(None) => {
            let mut msg = String::from_str("Game '");
            msg.append(game_id);
            msg.append("' not found. Please download it first.");
            return Err(msg);
        },
        Ok(Some(g)) => g,
    };
    let player = match player_path {
        Err(e) => {
            return Err(e);
        },
        Ok(p) => p,
    };
    if !player_exists {
        if use_ruffle {
            return Err(String::from_str("Ruffle not installed. Please download it first."));
        } else {
            return Err(String::from_str("Flash Player not installed. Please download it first."));
        }
    }
    let url = game_download_url(game_urls, game_id)?;
    let mut args: Vec<String> = Vec::new();
    let program;
    if use_ruffle {
        let base = base_url(url.as_str());
        program = player;
        args.push(game);
        args.push(String::from_str("--spoof-url"));
        args.push(url);
        args.push(String::from_str("--base"));
        args.push(base);
    } else if platform == Platform::MacOs {
        program = String::from_str("open");
        args.push(String::from_str("-a"));
        args.push(player);
        args.push(game);
    } else {
        program = player;
        args.push(game);
    }
    let cmd = LaunchCommand { program, args };
    assert(cmd.args@.map_values(|a: String| a@) =~= if use_ruffle {
        seq![game_path->Ok_0->0@, "--spoof-url"@, game_urls@[game_id@], "--base"@, base_url_of(game_urls@[game_id@])]
    } else if platform == Platform::MacOs {
        seq!["-a"@, player_path->Ok_0@, game_path->Ok_0->0@]
    } else {
        seq![game_path->Ok_0->0@]
    });
    Ok(cmd)
}

} // verus!
