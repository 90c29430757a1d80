//! Installing the Flash Player projector: what to download, from where, and
//! what to do with the download on each platform.
use vstd::prelude::*;
use crate::config::{text_option, AppConfig};
use crate::path::{is_plain_name, is_verbatim, joined_path, path_join, placed_in};
use crate::platform::Platform;
use crate::transfer::{Transfer, Unpack};
use crate::text::ends_with;

verus! {

broadcast use vstd::string::group_string_axioms;

/// A progress event shown while something downloads.
#[derive(Debug)]
pub struct DownloadProgress {
    pub item: String,
    pub progress: u32,
    pub downloaded: u64,
    pub total: u64,
    pub status: String,
}

impl DownloadProgress {
    /// An event that carries only a status line and a percentage.
    pub fn status(item: &str, progress: u32, status: &str) -> (p: DownloadProgress)
        ensures
            p.item@ == item@,
            p.progress == progress,
            p.downloaded == 0,
            p.total == 0,
            p.status@ == status@,
    {
        DownloadProgress {
            item: String::from_str(item),
            progress,
            downloaded: 0,
            total: 0,
            status: String::from_str(status),
        }
    }

    /// The event that opens a download.
    pub fn starting(item: &str) -> (p: DownloadProgress)
        ensures
            p.item@ == item@,
            p.progress == 0,
            p.downloaded == 0,
            p.total == 0,
            p.status@ == "Starting download..."@,
    {
        Self::status(item, 0, "Starting download...")
    }

    /// The event that closes a download.
    pub fn complete(item: &str) -> (p: DownloadProgress)
        ensures
            p.item@ == item@,
            p.progress == 100,
            p.downloaded == 0,
            p.total == 0,
            p.status@ == "Download complete"@,
    {
        Self::status(item, 100, "Download complete")
    }

    /// The event shown when the primary download failed and the fallback
    /// URL is tried.
    pub fn trying_fallback(item: &str) -> (p: DownloadProgress)
        ensures
            p.item@ == item@,
            p.progress == 0,
            p.downloaded == 0,
            p.total == 0,
            p.status@ == "Primary failed, trying fallback..."@,
    {
        Self::status(item, 0, "Primary failed, trying fallback...")
    }

    /// The event sent after each chunk; `progress` is the percentage the
    /// caller computed from the transfer.
    pub fn downloading(item: &str, progress: u32, transfer: &Transfer) -> (p: DownloadProgress)
        ensures
            p.item@ == item@,
            p.progress == progress,
            p.downloaded == transfer.downloaded,
            p.total == transfer.total,
            p.status@ == "Downloading..."@,
    {
        DownloadProgress {
            item: String::from_str(item),
            progress,
            downloaded: transfer.downloaded,
            total: transfer.total,
            status: String::from_str("Downloading..."),
        }
    }
}

/// How Flash Player is installed on one platform.
pub struct FlashDownloadPlan {
    /// Where to download from first.
    pub primary_url: String,
    /// Where to download from when the first attempt fails.
    pub fallback_url: Option<String>,
    /// The file name the download is saved under, in the Flash directory.
    pub download_name: String,
    /// What to do with the download.
    pub unpack: Unpack,
    /// The installed program, in the Flash directory.
    pub program_name: String,
    /// Whether the program needs its executable permission bits set.
    pub make_executable: bool,
}

impl FlashDownloadPlan {
    /// Where the download is saved, in the Flash directory `flash_dir`.
    pub fn download_path(&self, flash_dir: &str) -> (res: String)
        ensures
            res@ == joined_path(flash_dir@, self.download_name@),
            is_plain_name(self.download_name@) && !is_verbatim(flash_dir@) ==> placed_in(
                res@,
                flash_dir@,
                self.download_name@,
            ),
    {
        path_join(flash_dir, self.download_name.as_str())
    }

    /// Where the installed program is, in the Flash directory `flash_dir`.
    pub fn program_path(&self, flash_dir: &str) -> (res: String)
        ensures
            res@ == joined_path(flash_dir@, self.program_name@),
            is_plain_name(self.program_name@) && !is_verbatim(flash_dir@) ==> placed_in(
                res@,
                flash_dir@,
                self.program_name@,
            ),
    {
        path_join(flash_dir, self.program_name.as_str())
    }
}

/// How Flash Player is installed on `platform` with the configuration `config`.
pub fn plan_flash_download(config: &AppConfig, platform: Platform) -> (plan: FlashDownloadPlan)
    ensures
        plan.primary_url@ == config.flash_player.for_platform(platform).primary_url@,
        text_option(plan.fallback_url) == text_option(
            config.flash_player.for_platform(platform).fallback_url,
        ),
        plan.program_name@ == config.flash_player.for_platform(platform).filename@,
        plan.download_name@ == match platform {
            Platform::Windows => config.flash_player.windows.filename@,
            Platform::MacOs => "flash_player.dmg"@,
            Platform::Linux => "flash_player.tar.gz"@,
        },
        plan.unpack == match platform {
            Platform::Windows => Unpack::Keep,
            Platform::MacOs => Unpack::Dmg,
            Platform::Linux => Unpack::TarGz,
        },
        plan.make_executable == (platform == Platform::Linux),
{
    let os = config.flash_player.select(platform);
    let fallback_url = match &os.fallback_url {
        Some(u) => Some(u.clone()),
        None => None,
    };
    let (download_name, unpack, make_executable) = match platform {
        Platform::Windows => (os.filename.clone(), Unpack::Keep, false),
        Platform::MacOs => (String::from_str("flash_player.dmg"), Unpack::Dmg, false),
        Platform::Linux => (String::from_str("flash_player.tar.gz"), Unpack::TarGz, true),
    };
    FlashDownloadPlan {
        primary_url: os.primary_url.clone(),
        fallback_url,
        download_name,
        unpack,
        program_name: os.filename.clone(),
        make_executable,
    }
}

/// With the built-in configuration, what a plan downloads on each platform is
/// the kind of file the plan saves and unpacks it as: the `.exe` projector
/// kept as it is on Windows, the `.dmg` image on macOS, the `.tar.gz` archive
/// on Linux, from both the primary and the fallback URL.
pub proof fn lemma_flash_download_kind(config: AppConfig, platform: Platform)
    requires
        config.flash_player.is_builtin(),
    ensures
        platform == Platform::Windows ==> {
            &&& ends_with(config.flash_player.for_platform(platform).primary_url@, ".exe"@)
            &&& ends_with(config.flash_player.for_platform(platform).filename@, ".exe"@)
            &&& text_option(config.flash_player.for_platform(platform).fallback_url) matches Some(
                u,
            ) && ends_with(u, ".exe"@)
        },
        platform == Platform::MacOs ==> {
            &&& ends_with(config.flash_player.for_platform(platform).primary_url@, ".dmg"@)
            &&& config.flash_player.for_platform(platform).fallback_url is None
        },
        platform == Platform::Linux ==> {
            &&& ends_with(config.flash_player.for_platform(platform).primary_url@, ".tar.gz"@)
            &&& text_option(config.flash_player.for_platform(platform).fallback_url) matches Some(
                u,
            ) && ends_with(u, ".tar.gz"@)
        },
{
    reveal_strlit(".exe");
    reveal_strlit(".dmg");
    reveal_strlit(".tar.gz");
    reveal_strlit("flashplayer_sa.exe");
    reveal_strlit("https://www.flash.cn/cdm/latest/flashplayer_sa.exe");
    reveal_strlit(
        "https://fpdownload.macromedia.com/pub/flashplayer/updaters/32/flashplayer_32_sa.exe",
    );
    reveal_strlit(
        "https://fpdownload.macromedia.com/pub/flashplayer/updaters/32/flashplayer_32_sa.dmg",
    );
    reveal_strlit(
        "https://fpdownload.macromedia.com/pub/flashplayer/updaters/32/flash_player_sa_linux.x86_64.tar.gz",
    );
    reveal_strlit(
        "https://archive.org/download/flashplayer_standalone_projectors/flash_player_sa_linux.x86_64.tar.gz",
    );
    let os = config.flash_player.for_platform(platform);
    let p = os.primary_url@;
    if platform == Platform::Windows {
        let f = os.filename@;
        let u = os.fallback_url->0@;
        assert(p.skip(p.len() - 4) =~= ".exe"@);
        assert(f.skip(f.len() - 4) =~= ".exe"@);
        assert(u.skip(u.len() - 4) =~= ".exe"@);
    } else if platform == Platform::MacOs {
        assert(p.skip(p.len() - 4) =~= ".dmg"@);
    } else {
        let u = os.fallback_url->0@;
        assert(p.skip(p.len() - 7) =~= ".tar.gz"@);
        assert(u.skip(u.len() - 7) =~= ".tar.gz"@);
    }
}

/// What follows the download from the primary URL.
pub enum NextAttempt {
    /// The download is in place.
    Done,
    /// Download again from this URL.
    TryFallback(String),
    /// Give up with this error.
    Fail(String),
}

/// What follows the first download attempt: the fallback URL when it failed
/// and there is one, its own error when there is none.
pub fn after_primary_attempt(primary: Result<(), String>, fallback_url: &Option<String>) -> (next:
    NextAttempt)
    ensures
        primary is Ok ==> next is Done,
        primary is Err && fallback_url is Some ==> (next matches NextAttempt::TryFallback(u)
            && u@ == fallback_url->0@),
        primary is Err && fallback_url is None ==> (next matches NextAttempt::Fail(e) && e
            == primary->Err_0),
{
    match primary {
        Ok(()) => NextAttempt::Done,
        Err(e) => match fallback_url {
            Some(u) => NextAttempt::TryFallback(u.clone()),
            None => NextAttempt::Fail(e),
        },
    }
}

} // verus!
