//! Installing Ruffle: choosing the nightly asset for the platform, falling
//! back to the configured release, and unpacking the archive.
use vstd::prelude::*;
use crate::config::{text_option, AppConfig};
use crate::path::{is_plain_name, is_verbatim, joined_path, path_join, placed_in};
use crate::platform::Platform;
use crate::text::{after_last, chars_of, contains, contains_exec, ends_with, ends_with_exec, last_index_of_exec, lemma_last_index_of};
use crate::transfer::Unpack;

verus! {

broadcast use vstd::string::group_string_axioms;

/// A progress event shown while Ruffle downloads.
#[derive(Debug)]
pub struct DownloadProgress {
    pub item: String,
    pub progress: u32,
    pub downloaded: u64,
    pub total: u64,
    pub status: String,
}

impl DownloadProgress {
    /// An event about Ruffle that carries only a status line and a percentage.
    pub fn status(progress: u32, status: String) -> (p: DownloadProgress)
        ensures
            p.item@ == "ruffle"@,
            p.progress == progress,
            p.downloaded == 0,
            p.total == 0,
            p.status@ == status@,
    {
        DownloadProgress { item: String::from_str("ruffle"), progress, downloaded: 0, total: 0, status }
    }

    /// The event shown while the latest nightly is looked up.
    pub fn fetching_nightly() -> (p: DownloadProgress)
        ensures
            p.item@ == "ruffle"@,
            p.progress == 0,
            p.downloaded == 0,
            p.total == 0,
            p.status@ == "Fetching latest nightly..."@,
    {
        Self::status(0, String::from_str("Fetching latest nightly..."))
    }
}

/// A downloadable file of a Ruffle release.
#[derive(Debug)]
pub struct RuffleAsset {
    pub name: String,
    pub browser_download_url: String,
}

/// A Ruffle release as GitHub lists it.
#[derive(Debug)]
pub struct RuffleRelease {
    pub tag_name: String,
    pub assets: Vec<RuffleAsset>,
}

/// What the nightly asset name for `platform` contains.
pub open spec fn target_pattern(platform: Platform) -> Seq<char> {
    match platform {
        Platform::Windows => "windows-x86_64.zip"@,
        Platform::MacOs => "macos-universal.tar.gz"@,
        Platform::Linux => "linux-x86_64.tar.gz"@,
    }
}

/// The name of the Ruffle program on `platform`.
pub open spec fn program_name(platform: Platform) -> Seq<char> {
    match platform {
        Platform::Windows => "ruffle.exe"@,
        _ => "ruffle"@,
    }
}

fn target_pattern_exec(platform: Platform) -> (s: String)
    ensures
        s@ == target_pattern(platform),
{
    match platform {
        Platform::Windows => String::from_str("windows-x86_64.zip"),
        Platform::MacOs => String::from_str("macos-universal.tar.gz"),
        Platform::Linux => String::from_str("linux-x86_64.tar.gz"),
    }
}

fn program_name_exec(platform: Platform) -> (s: String)
    ensures
        s@ == program_name(platform),
{
    match platform {
        Platform::Windows => String::from_str("ruffle.exe"),
        _ => String::from_str("ruffle"),
    }
}

/// An asset fit for `platform`: its name holds the platform's pattern and is
/// not the browser extension.
pub open spec fn fits(asset: RuffleAsset, platform: Platform) -> bool {
    contains(asset.name@, target_pattern(platform)) && !contains(asset.name@, "extension"@)
}

/// Where Ruffle comes from: download URL, program name, version tag.
pub struct RuffleSource {
    pub url: String,
    pub filename: String,
    pub version_tag: String,
}

impl RuffleSource {
    /// Where the downloaded archive is saved, in the Ruffle directory
    /// `ruffle_dir`: under the archive's name (see `archive_name`).
    pub fn archive_path(&self, ruffle_dir: &str) -> (res: String)
        ensures
            res@ == joined_path(ruffle_dir@, after_last(self.url@, '/')),
            is_plain_name(after_last(self.url@, '/')) && !is_verbatim(ruffle_dir@) ==> placed_in(
                res@,
                ruffle_dir@,
                after_last(self.url@, '/'),
            ),
    {
        let name = archive_name(self.url.as_str());
        path_join(ruffle_dir, name.as_str())
    }

    /// Where the installed program is, in the Ruffle directory `ruffle_dir`.
    pub fn program_path(&self, ruffle_dir: &str) -> (res: String)
        ensures
            res@ == joined_path(ruffle_dir@, self.filename@),
            is_plain_name(self.filename@) && !is_verbatim(ruffle_dir@) ==> placed_in(
                res@,
                ruffle_dir@,
                self.filename@,
            ),
    {
        path_join(ruffle_dir, self.filename.as_str())
    }
}

/// Picks the latest nightly for `platform` from the releases GitHub lists,
/// newest first: the first asset of the first release that fits.
pub fn select_nightly(releases: &Vec<RuffleRelease>, platform: Platform) -> (res: Result<
    RuffleSource,
    String,
>)
    ensures
        releases@.len() == 0 ==> (res matches Err(e) && e@ == "No releases found"@),
        releases@.len() > 0 ==> ({
            let assets = releases@[0].assets@;
            if exists|i: int| 0 <= i < assets.len() && fits(#[trigger] assets[i], platform) {
                res matches Ok(src) && exists|i: int|
                    0 <= i < assets.len() && fits(#[trigger] assets[i], platform) && (forall|j: int|
                        0 <= j < i ==> !fits(#[trigger] assets[j], platform))
                        && src.url@ == assets[i].browser_download_url@ && src.filename@
                        == program_name(platform) && src.version_tag@ == releases@[0].tag_name@
            } else {
                res matches Err(e) && e@ == "No asset found for target: "@ + target_pattern(platform)
            }
        }),
{
    if releases.len() == 0 {
        return Err(String::from_str("No releases found"));
    }
    let release = &releases[0];
    let pattern = target_pattern_exec(platform);
    let pattern_chars = chars_of(pattern.as_str());
    let extension = chars_of("extension");
    let mut i: usize = 0;
    while i < release.assets.len()
        invariant
            i <= release.assets@.len(),
            releases@.len() > 0,
            *release == releases@[0],
            pattern_chars@ == target_pattern(platform),
            extension@ == "extension"@,
            forall|j: int| 0 <= j < i ==> !fits(#[trigger] release.assets@[j], platform),
        decreases release.assets@.len() - i,
    {
        let asset = &release.assets[i];
        let name = chars_of(asset.name.as_str());
        if contains_exec(name.as_slice(), pattern_chars.as_slice()) && !contains_exec(
            name.as_slice(),
            extension.as_slice(),
        ) {
            assert(fits(release.assets@[i as int], platform));
            return Ok(
                RuffleSource {
                    url: asset.browser_download_url.clone(),
                    filename: program_name_exec(platform),
                    version_tag: release.tag_name.clone(),
                },
            );
        }
        i = i + 1;
    }
    let mut msg = String::from_str("No asset found for target: ");
    msg.append(pattern.as_str());
    Err(msg)
}

/// Where Ruffle comes from: the latest nightly when it could be found, else
/// the configured release for the platform, tagged `fallback`.
pub open spec fn source_ok(
    nightly: Result<RuffleSource, String>,
    config: AppConfig,
    platform: Platform,
    src: RuffleSource,
) -> bool {
    match nightly {
        Ok(n) => src == n,
        Err(_) => {
            &&& src.url@ == config.ruffle.for_platform(platform).url@
            &&& src.filename@ == config.ruffle.for_platform(platform).filename@
            &&& src.version_tag@ == "fallback"@
        },
    }
}

/// Where Ruffle comes from, and the status line to show when the latest
/// nightly could not be found (`Failed to fetch latest: <error>. Using fallback...`).
pub fn choose_ruffle_source(
    nightly: Result<RuffleSource, String>,
    config: &AppConfig,
    platform: Platform,
) -> (res: (RuffleSource, Option<String>))
    ensures
        source_ok(nightly, *config, platform, res.0),
        match nightly {
            Ok(_) => res.1 is None,
            Err(e) => res.1 matches Some(m) && m@ == "Failed to fetch latest: "@ + e@
                + ". Using fallback..."@,
        },
{
    match nightly {
        Ok(n) => (n, None),
        Err(e) => {
            let os = config.ruffle.select(platform);
            let mut msg = String::from_str("Failed to fetch latest: ");
            msg.append(e.as_str());
            msg.append(". Using fallback...");
            (
                RuffleSource {
                    url: os.url.clone(),
                    filename: os.filename.clone(),
                    version_tag: String::from_str("fallback"),
                },
                Some(msg),
            )
        },
    }
}

/// Without a nightly, Ruffle comes from the configured entry of the platform
/// itself: the Windows, macOS or Linux entry on Windows, macOS or Linux.
pub proof fn lemma_fallback_entry(error: String, config: AppConfig, src: RuffleSource)
    ensures
        source_ok(Err(error), config, Platform::Windows, src) ==> {
            &&& src.url@ == config.ruffle.windows.url@
            &&& src.filename@ == config.ruffle.windows.filename@
            &&& src.version_tag@ == "fallback"@
        },
        source_ok(Err(error), config, Platform::MacOs, src) ==> {
            &&& src.url@ == config.ruffle.macos.url@
            &&& src.filename@ == config.ruffle.macos.filename@
            &&& src.version_tag@ == "fallback"@
        },
        source_ok(Err(error), config, Platform::Linux, src) ==> {
            &&& src.url@ == config.ruffle.linux.url@
            &&& src.filename@ == config.ruffle.linux.filename@
            &&& src.version_tag@ == "fallback"@
        },
{
}

/// With the built-in configuration, the nightly and the fallback release
/// install the same program for the platform: the nightly's program name
/// (`ruffle.exe` exactly on Windows, `ruffle` on macOS and Linux) is the
/// fallback entry's, and the fallback archive is built for the target whose
/// nightly asset would be picked.
pub proof fn lemma_nightly_matches_fallback(config: AppConfig, platform: Platform)
    requires
        config.ruffle.is_builtin(),
    ensures
        program_name(platform) == config.ruffle.for_platform(platform).filename@,
        (program_name(platform) == "ruffle.exe"@) <==> platform == Platform::Windows,
        ends_with(config.ruffle.for_platform(platform).url@, target_pattern(platform)),
{
    reveal_strlit("ruffle.exe");
    reveal_strlit("ruffle");
    reveal_strlit("windows-x86_64.zip");
    reveal_strlit("macos-universal.tar.gz");
    reveal_strlit("linux-x86_64.tar.gz");
    reveal_strlit(
        "https://github.com/ruffle-rs/ruffle/releases/download/v0.3.0/ruffle-0.3.0-windows-x86_64.zip",
    );
    reveal_strlit(
        "https://github.com/ruffle-rs/ruffle/releases/download/v0.3.0/ruffle-0.3.0-macos-universal.tar.gz",
    );
    reveal_strlit(
        "https://github.com/ruffle-rs/ruffle/releases/download/v0.3.0/ruffle-0.3.0-linux-x86_64.tar.gz",
    );
    assert("ruffle.exe"@.len() != "ruffle"@.len());
    let url = config.ruffle.for_platform(platform).url@;
    let pat = target_pattern(platform);
    assert(url.skip(url.len() - pat.len()) =~= pat);
}

/// The archive's file name: what follows the last `/` of its URL.
pub fn archive_name(url: &str) -> (res: String)
    ensures
        res@ == after_last(url@, '/'),
{
    let chars = chars_of(url);
    proof {
        lemma_last_index_of(chars@, '/');
    }
    let start: usize = match last_index_of_exec(chars.as_slice(), '/') {
        Some(k) => {
            assert(k < chars.len());
            k + 1
        },
        None => 0,
    };
    assert(url@.subrange(start as int, url@.len() as int) =~= after_last(url@, '/'));
    String::from_str(url.substring_char(start, chars.len()))
}

/// How a Ruffle archive is unpacked, by its name: `.zip` or `.tar.gz`;
/// anything else is refused.
pub fn archive_unpack(name: &str) -> (res: Result<Unpack, String>)
    ensures
        ends_with(name@, ".zip"@) ==> res == Ok::<Unpack, String>(Unpack::Zip),
        !ends_with(name@, ".zip"@) && ends_with(name@, ".tar.gz"@) ==> res == Ok::<
            Unpack,
            String,
        >(Unpack::TarGz),
        !ends_with(name@, ".zip"@) && !ends_with(name@, ".tar.gz"@) ==> (res matches Err(e)
            && e@ == "Unsupported archive format: "@ + name@),
{
    let chars = chars_of(name);
    let zip = chars_of(".zip");
    let targz = chars_of(".tar.gz");
    if ends_with_exec(chars.as_slice(), zip.as_slice()) {
        Ok(Unpack::Zip)
    } else if ends_with_exec(chars.as_slice(), targz.as_slice()) {
        Ok(Unpack::TarGz)
    } else {
        let mut msg = String::from_str("Unsupported archive format: ");
        msg.append(name);
        Err(msg)
    }
}

} // verus!
