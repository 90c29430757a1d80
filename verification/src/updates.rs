//! Which version a server offers, and which games need an update.
use vstd::prelude::*;
use crate::config::{text_option, text_seq};
use crate::numeric::{i64_to_decimal, lemma_signed_decimal_injective, signed_decimal};
use crate::string_map::StringMap;
use crate::version::{parse_version_from_url, url_version};

verus! {

broadcast use vstd::string::group_string_axioms;

/// The Unix time in seconds of the RFC 2822 date `s`, as chrono's
/// `DateTime::parse_from_rfc2822` reads it; `None` when chrono rejects `s`.
pub uninterp spec fn rfc2822_timestamp(s: Seq<char>) -> Option<i64>;

/// Reads an RFC 2822 date (such as an HTTP `Last-Modified` header) with
/// chrono's `DateTime::parse_from_rfc2822` and gives its Unix time in seconds
/// (`DateTime::timestamp`).
///
/// Trusted: the result is `rfc2822_timestamp(s)`, a function of `s` alone (the
/// date carries its own offset); which texts chrono accepts is not stated.
#[verifier::external_body]
fn rfc2822_to_unix(s: &str) -> (res: Option<i64>)
    ensures
        res == rfc2822_timestamp(s@),
{
    match chrono::DateTime::parse_from_rfc2822(s) {
        Ok(dt) => Some(dt.timestamp()),
        Err(_) => None,
    }
}

/// The version a server response names: the `-v` version in the final URL
/// when there is one, else the `Last-Modified` time as decimal Unix seconds.
pub open spec fn offered_version(final_url: Seq<char>, last_modified_unix: Option<i64>) -> Option<
    Seq<char>,
> {
    match url_version(final_url) {
        Some(v) => Some(v),
        None => match last_modified_unix {
            Some(t) => Some(signed_decimal(t as int)),
            None => None,
        },
    }
}

/// The version a server response names, from the final URL and the
/// `Last-Modified` time already read as Unix seconds.
pub fn version_from_parts(final_url: &str, last_modified_unix: Option<i64>) -> (res: Option<
    String,
>)
    ensures
        text_option(res) == offered_version(final_url@, last_modified_unix),
{
    match parse_version_from_url(final_url) {
        Some(v) => Some(v),
        None => match last_modified_unix {
            Some(t) => Some(i64_to_decimal(t)),
            None => None,
        },
    }
}

/// The version a successful response names: priority to `-v<version>` in
/// the final (redirected) URL, then to the `Last-Modified` header as Unix
/// seconds.
pub fn version_from_response(final_url: &str, last_modified: Option<&str>) -> (res: Option<String>)
    ensures
        text_option(res) == offered_version(
            final_url@,
            match last_modified {
                Some(h) => rfc2822_timestamp(h@),
                None => None,
            },
        ),
{
    let unix = match last_modified {
        Some(h) => rfc2822_to_unix(h),
        None => None,
    };
    version_from_parts(final_url, unix)
}

/// The version recorded for a download whose response named none, from the
/// `Last-Modified` time of a further HEAD request (already read as Unix
/// seconds) or else the current time, as decimal Unix seconds.
pub fn fallback_version_from(last_modified_unix: Option<i64>, now_unix: i64) -> (res: String)
    ensures
        res@ == signed_decimal(
            match last_modified_unix {
                Some(t) => t,
                None => now_unix,
            } as int,
        ),
{
    match last_modified_unix {
        Some(t) => i64_to_decimal(t),
        None => i64_to_decimal(now_unix),
    }
}

/// The version recorded for a download whose response named none: the
/// `Last-Modified` time of a further HEAD request, else the current time, both
/// as decimal Unix seconds.
pub fn fallback_version(head_last_modified: Option<&str>, now_unix: i64) -> (res: String)
    ensures
        res@ == signed_decimal(
            match head_last_modified {
                Some(h) => match rfc2822_timestamp(h@) {
                    Some(t) => t,
                    None => now_unix,
                },
                None => now_unix,
            } as int,
        ),
{
    let unix = match head_last_modified {
        Some(h) => rfc2822_to_unix(h),
        None => None,
    };
    fallback_version_from(unix, now_unix)
}

// ----------------------------------------------------------------------------
// Update decisions
// ----------------------------------------------------------------------------

/// The games whose updates are checked, in the order they are reported.
pub open spec fn checked_game_ids() -> Seq<Seq<char>> {
    seq!["PTD1"@, "PTD1_Hacked"@, "PTD2"@, "PTD2_Hacked"@, "PTD3"@, "PTD3_Hacked"@]
}

/// The games whose updates are checked, in the order they are reported:
/// PTD1, PTD1_Hacked, PTD2, PTD2_Hacked, PTD3, PTD3_Hacked.
pub fn checked_games() -> (ids: Vec<String>)
    ensures
        ids@.len() == checked_game_ids().len(),
        forall|i: int| 0 <= i < ids@.len() ==> #[trigger] ids@[i]@ == checked_game_ids()[i],
{
    let ids = vec![
        String::from_str("PTD1"),
        String::from_str("PTD1_Hacked"),
        String::from_str("PTD2"),
        String::from_str("PTD2_Hacked"),
        String::from_str("PTD3"),
        String::from_str("PTD3_Hacked"),
    ];
    ids
}

/// The locally stored version of a game, when there is a non-empty one.
pub open spec fn stored_version(installed: Map<Seq<char>, Seq<char>>, id: Seq<char>) -> Option<
    Seq<char>,
> {
    if installed.contains_key(id) && installed[id].len() > 0 {
        Some(installed[id])
    } else {
        None
    }
}

/// Whether the version a server offers calls for replacing the stored
/// `local` one: the server offered a version, and it differs from `local`.
pub open spec fn remote_differs(local: Seq<char>, remote: Option<Seq<char>>) -> bool {
    match remote {
        None => false,
        Some(r) => r != local,
    }
}

/// What checking one game takes.
pub enum UpdateCheck {
    /// The configuration has no URL for the game: it is not reported.
    NotConfigured,
    /// No version is stored: the game is reported without asking the server.
    NeverDownloaded,
    /// The server is asked for the version at `url`, to compare with `local`.
    CompareWith { url: String, local: String },
}

/// What checking `game_id` takes, given the configured URLs and the stored versions.
pub fn plan_update_check(game_id: &str, game_urls: &StringMap, installed: &StringMap) -> (res:
    UpdateCheck)
    ensures
        !game_urls@.contains_key(game_id@) <==> res is NotConfigured,
        game_urls@.contains_key(game_id@) && stored_version(installed@, game_id@) is None
            <==> res is NeverDownloaded,
        res matches UpdateCheck::CompareWith { url, local } ==> {
            &&& url@ == game_urls@[game_id@]
            &&& stored_version(installed@, game_id@) == Some(local@)
        },
{
    let url = match game_urls.get(game_id) {
        Some(u) => u.clone(),
        None => {
            return UpdateCheck::NotConfigured;
        },
    };
    match installed.get(game_id) {
        Some(v) => {
            if v.as_str().unicode_len() == 0 {
                UpdateCheck::NeverDownloaded
            } else {
                UpdateCheck::CompareWith { url, local: v.clone() }
            }
        },
        None => UpdateCheck::NeverDownloaded,
    }
}

/// Whether `remote` (what the server offered, if anything) calls for
/// replacing the stored version `local`.
pub fn needs_update(local: &str, remote: &Option<String>) -> (res: bool)
    ensures
        res == remote_differs(local@, text_option(*remote)),
{
    match remote {
        None => false,
        Some(r) => {
            let l = String::from_str(local);
            !(*r == l)
        },
    }
}

/// Whether the game `id` is reported by an update check, given the version
/// the server offered for it (asked only when a version is stored).
pub open spec fn update_wanted(
    game_urls: Map<Seq<char>, Seq<char>>,
    installed: Map<Seq<char>, Seq<char>>,
    id: Seq<char>,
    remote: Option<Seq<char>>,
) -> bool {
    game_urls.contains_key(id) && match stored_version(installed, id) {
        None => true,
        Some(local) => remote_differs(local, remote),
    }
}

/// The server's answer for the `i`-th checked game.
pub open spec fn remote_at(remotes: Seq<Option<String>>, i: int) -> Option<Seq<char>> {
    if 0 <= i < remotes.len() {
        text_option(remotes[i])
    } else {
        None
    }
}

/// The games among the first `n` checked ones that are reported, in order.
pub open spec fn reported_games(
    game_urls: Map<Seq<char>, Seq<char>>,
    installed: Map<Seq<char>, Seq<char>>,
    remotes: Seq<Option<String>>,
    n: int,
) -> Seq<Seq<char>>
    decreases n,
{
    if n <= 0 {
        Seq::empty()
    } else {
        let before = reported_games(game_urls, installed, remotes, n - 1);
        let id = checked_game_ids()[n - 1];
        if update_wanted(game_urls, installed, id, remote_at(remotes, n - 1)) {
            before.push(id)
        } else {
            before
        }
    }
}

/// The games that need an update, in the fixed order PTD1, PTD1_Hacked, PTD2,
/// PTD2_Hacked, PTD3, PTD3_Hacked: those configured that were never
/// downloaded, and those whose server version (`remote_versions[i]` for the
/// `i`-th game, as far as it was asked) differs from the stored one.
pub fn check_for_updates(
    game_urls: &StringMap,
    installed: &StringMap,
    remote_versions: &Vec<Option<String>>,
) -> (res: Vec<String>)
    ensures
        res@.len() == reported_games(game_urls@, installed@, remote_versions@, 6).len(),
        forall|i: int|
            0 <= i < res@.len() ==> #[trigger] res@[i]@ == reported_games(
                game_urls@,
                installed@,
                remote_versions@,
                6,
            )[i],
        forall|id: Seq<char>|
            #![trigger text_seq(res@).contains(id)]
            text_seq(res@).contains(id) <==> game_needs_update(
                game_urls@,
                installed@,
                remote_versions@,
                id,
            ),
{
    let ids = checked_games();
    let mut updates: Vec<String> = Vec::new();
    let mut i: usize = 0;
    while i < ids.len()
        invariant
            i <= ids@.len(),
            ids@.len() == 6,
            forall|k: int| 0 <= k < ids@.len() ==> #[trigger] ids@[k]@ == checked_game_ids()[k],
            updates@.len() == reported_games(game_urls@, installed@, remote_versions@, i as int).len(),
            forall|k: int|
                0 <= k < updates@.len() ==> #[trigger] updates@[k]@ == reported_games(
                    game_urls@,
                    installed@,
                    remote_versions@,
                    i as int,
                )[k],
        decreases ids@.len() - i,
    {
        let id = &ids[i];
        let wanted = match plan_update_check(id.as_str(), game_urls, installed) {
            UpdateCheck::NotConfigured => false,
            UpdateCheck::NeverDownloaded => true,
            UpdateCheck::CompareWith { url: _, local } => {
                let none: Option<String> = None;
                let remote = if i < remote_versions.len() {
                    &remote_versions[i]
                } else {
                    &none
                };
                needs_update(local.as_str(), remote)
            },
        };
        assert(wanted == update_wanted(
            game_urls@,
            installed@,
            checked_game_ids()[i as int],
            remote_at(remote_versions@, i as int),
        ));
        if wanted {
            updates.push(id.clone());
        }
        i = i + 1;
    }
    proof {
        let reported = reported_games(game_urls@, installed@, remote_versions@, 6);
        assert(text_seq(updates@) =~= reported);
        assert forall|id: Seq<char>|
            #![trigger text_seq(updates@).contains(id)]
            text_seq(updates@).contains(id) <==> game_needs_update(
                game_urls@,
                installed@,
                remote_versions@,
                id,
            ) by {
            lemma_update_membership(game_urls@, installed@, remote_versions@, id);
        }
    }
    updates
}

// ----------------------------------------------------------------------------
// Laws of the update check
// ----------------------------------------------------------------------------

/// The place of `id` in the check order; -1 for a game that is not checked.
pub open spec fn check_position(id: Seq<char>) -> int {
    if id == "PTD1"@ {
        0
    } else if id == "PTD1_Hacked"@ {
        1
    } else if id == "PTD2"@ {
        2
    } else if id == "PTD2_Hacked"@ {
        3
    } else if id == "PTD3"@ {
        4
    } else if id == "PTD3_Hacked"@ {
        5
    } else {
        -1
    }
}

proof fn lemma_check_positions()
    ensures
        forall|k: int| 0 <= k < 6 ==> #[trigger] check_position(checked_game_ids()[k]) == k,
{
    reveal_strlit("PTD1");
    reveal_strlit("PTD1_Hacked");
    reveal_strlit("PTD2");
    reveal_strlit("PTD2_Hacked");
    reveal_strlit("PTD3");
    reveal_strlit("PTD3_Hacked");
    assert("PTD1"@[3] != "PTD2"@[3]);
    assert("PTD1"@[3] != "PTD3"@[3]);
    assert("PTD2"@[3] != "PTD3"@[3]);
    assert("PTD1_Hacked"@[3] != "PTD2_Hacked"@[3]);
    assert("PTD1_Hacked"@[3] != "PTD3_Hacked"@[3]);
    assert("PTD2_Hacked"@[3] != "PTD3_Hacked"@[3]);
    assert("PTD1"@.len() == 4 && "PTD2"@.len() == 4 && "PTD3"@.len() == 4);
    assert("PTD1_Hacked"@.len() == 11 && "PTD2_Hacked"@.len() == 11);
    let ids = checked_game_ids();
    assert(check_position(ids[0]) == 0);
    assert(check_position(ids[1]) == 1);
    assert(check_position(ids[2]) == 2);
    assert(check_position(ids[3]) == 3);
    assert(check_position(ids[4]) == 4);
    assert(check_position(ids[5]) == 5);
}

/// The reported games come in the fixed check order, each at most once, and
/// a checked game is reported exactly when it needs an update: configured
/// and never downloaded, or offered a different version by its server.
pub proof fn lemma_reported_games(
    game_urls: Map<Seq<char>, Seq<char>>,
    installed: Map<Seq<char>, Seq<char>>,
    remotes: Seq<Option<String>>,
    n: int,
)
    requires
        0 <= n <= 6,
    ensures
        forall|i: int|
            0 <= i < reported_games(game_urls, installed, remotes, n).len() ==> 0
                <= #[trigger] check_position(reported_games(game_urls, installed, remotes, n)[i])
                < n,
        forall|i: int, j: int|
            0 <= i < j < reported_games(game_urls, installed, remotes, n).len() ==> check_position(
                #[trigger] reported_games(game_urls, installed, remotes, n)[i],
            ) < check_position(#[trigger] reported_games(game_urls, installed, remotes, n)[j]),
        forall|k: int|
            0 <= k < n ==> (reported_games(game_urls, installed, remotes, n).contains(
                #[trigger] checked_game_ids()[k],
            ) <==> update_wanted(game_urls, installed, checked_game_ids()[k], remote_at(remotes, k))),
    decreases n,
{
    lemma_check_positions();
    if n > 0 {
        lemma_reported_games(game_urls, installed, remotes, n - 1);
        let before = reported_games(game_urls, installed, remotes, n - 1);
        let now = reported_games(game_urls, installed, remotes, n);
        let id = checked_game_ids()[n - 1];
        assert(check_position(id) == n - 1);
        assert forall|k: int| 0 <= k < n implies (now.contains(#[trigger] checked_game_ids()[k])
            <==> update_wanted(game_urls, installed, checked_game_ids()[k], remote_at(remotes, k))) by {
            let ck = checked_game_ids()[k];
            assert(check_position(ck) == k);
            if k < n - 1 {
                if now.contains(ck) && !before.contains(ck) {
                    let i = choose|i: int| 0 <= i < now.len() && now[i] == ck;
                    assert(i == now.len() - 1);
                    assert(now[i] == id);
                }
                if before.contains(ck) {
                    let i = choose|i: int| 0 <= i < before.len() && before[i] == ck;
                    assert(now[i] == ck);
                }
            } else {
                if now.contains(ck) && !update_wanted(game_urls, installed, id, remote_at(remotes, k)) {
                    let i = choose|i: int| 0 <= i < now.len() && now[i] == ck;
                    assert(before[i] == ck);
                    assert(check_position(before[i]) < n - 1);
                }
                if update_wanted(game_urls, installed, id, remote_at(remotes, k)) {
                    assert(now[now.len() - 1] == id);
                }
            }
        }
    }
}

/// A game stored as the decimal Unix time `local` needs an update by a server
/// offering the decimal time `remote` exactly when the two times differ.
pub proof fn lemma_timestamps_compare(local: i64, remote: i64)
    ensures
        remote_differs(signed_decimal(local as int), Some(signed_decimal(remote as int))) == (
        remote != local),
{
    lemma_signed_decimal_injective(local as int, remote as int);
}

/// A game never downloaded is reported whenever it is configured, whatever
/// its server says.
pub proof fn lemma_never_downloaded_reported(
    game_urls: Map<Seq<char>, Seq<char>>,
    installed: Map<Seq<char>, Seq<char>>,
    id: Seq<char>,
    remote: Option<Seq<char>>,
)
    requires
        game_urls.contains_key(id),
        !installed.contains_key(id) || installed[id].len() == 0,
    ensures
        update_wanted(game_urls, installed, id, remote),
{
}

/// Once a download recorded version `v` of a game, a server that still
/// offers `v` does not have the game reported (an empty `v` counts as no
/// version at all).
pub proof fn lemma_recorded_version_current(
    game_urls: Map<Seq<char>, Seq<char>>,
    installed: Map<Seq<char>, Seq<char>>,
    id: Seq<char>,
    v: Seq<char>,
)
    requires
        v.len() > 0,
    ensures
        !update_wanted(game_urls, installed.insert(id, v), id, Some(v)),
{
}

/// Whether an update check reports `id`, said directly of the inputs: `id`
/// is one of the six checked games and has a configured URL, and either no
/// non-empty version of it is stored, or its server was asked (its place in
/// the check order is below the number of answers) and answered with a
/// version other than the stored one.
pub open spec fn game_needs_update(
    game_urls: Map<Seq<char>, Seq<char>>,
    installed: Map<Seq<char>, Seq<char>>,
    remotes: Seq<Option<String>>,
    id: Seq<char>,
) -> bool {
    let k = check_position(id);
    &&& 0 <= k
    &&& game_urls.contains_key(id)
    &&& (!installed.contains_key(id) || installed[id].len() == 0 || (k < remotes.len()
        && remotes[k] is Some && remotes[k]->0@ != installed[id]))
}

/// A game is among those an update check reports exactly when it needs an
/// update: it is checked and configured, and it was never downloaded or the
/// server's answer for its own place in the check order names a version
/// different from the stored one. Games outside the six checked ones are
/// never reported.
pub proof fn lemma_update_membership(
    game_urls: Map<Seq<char>, Seq<char>>,
    installed: Map<Seq<char>, Seq<char>>,
    remotes: Seq<Option<String>>,
    id: Seq<char>,
)
    ensures
        reported_games(game_urls, installed, remotes, 6).contains(id) <==> game_needs_update(
            game_urls,
            installed,
            remotes,
            id,
        ),
{
    lemma_reported_games(game_urls, installed, remotes, 6);
    lemma_check_positions();
    let reported = reported_games(game_urls, installed, remotes, 6);
    let k = check_position(id);
    if k < 0 {
        if reported.contains(id) {
            let i = choose|i: int| 0 <= i < reported.len() && reported[i] == id;
            assert(0 <= check_position(reported[i]));
        }
    } else {
        let ids = checked_game_ids();
        assert(k < 6);
        assert(id == ids[k]);
        assert(check_position(ids[k]) == k);
        assert(reported.contains(ids[k]) <==> update_wanted(
            game_urls,
            installed,
            ids[k],
            remote_at(remotes, k),
        ));
    }
}

} // verus!
